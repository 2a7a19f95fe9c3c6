//! Why the runtime refused to go on.

use vstd::prelude::*;

verus! {

/// An error of the runtime. Each one stops the instruction that met it.
#[derive(Debug, Clone, Copy, PartialEq, Eq, Structural)]
pub enum RuntimeError {
    /// The address is outside memory or names a freed cell.
    InvalidAddress(usize),
    /// The cell at the address was freed already.
    AlreadyFreed(usize),
    /// The object holds no builtin data (it is a type, a module, a function...).
    NotAnObject(usize),
    /// The object is not a type.
    NotAType(usize),
    /// The object is not a module.
    NotAModule(usize),
    /// The object cannot be called.
    NotCallable(usize),
    /// No module has the name.
    UnknownModule,
    /// The module already binds the name.
    NameExists,
    /// The object's type has no method of the name.
    NoSuchMethod,
    /// No local variable has the name.
    NoSuchName,
    /// The builtin module has no object of the name.
    NoSuchFunction,
    /// The type has no `__new__` constructor.
    NoConstructor,
    /// A pop found the operand stack empty.
    EmptyStack,
    /// The operand stack has no entry at the offset asked for.
    NoSuchStackEntry,
    /// There is no stack frame.
    NoStackFrame,
    /// A builtin was called with the wrong number of arguments.
    ArgumentCount { expected: usize, got: usize },
    /// An integer result does not fit in 128 bits.
    Overflow,
    /// An integer remainder by zero.
    DivisionByZero,
    /// The operand has a type that the builtin does not accept.
    UnsupportedOperand,
    /// The float computation gave no answer of the expected kind.
    FloatFailed,
    /// A `break` outside any loop.
    UnresolvedBreak,
    /// The constant index is outside the program's constant pool.
    NoSuchConstant,
    /// The program raised the object at this address; nothing catches it.
    Raised(usize),
    /// A list was indexed outside its length.
    IndexOutOfRange,
    /// The step budget of the run was used up.
    OutOfSteps,
    /// No more cells can be allocated.
    OutOfMemory,
    /// The program called `panic`; the text it gave was printed.
    ProgramPanicked,
}

} // verus!
