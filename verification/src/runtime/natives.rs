//! The builtin types and functions: what each native function computes.
//!
//! A native function that needs a float computation asks the host exactly once;
//! its meaning is stated for every answer the host may give.

use vstd::prelude::*;
use vstd::string::*;
use crate::lexer::Float;
use crate::text::{concatenate, int_text, int_to_string, push_char, str_equal};
use crate::runtime::error::RuntimeError;
use crate::runtime::floats::{
    FloatAnswer, FloatAnswerModel, FloatHost, FloatOperand, FloatOperandModel, FloatQuery,
    FloatQueryModel,
};
use crate::runtime::machine::{
    Runtime, RuntimeModel, rt_alloc, rt_get, rt_method_of, rt_print, rt_raw, rt_type_of, rt_wf, rt_write,
    lemma_rt_alloc,
};
use crate::runtime::namespace::MemoryAddress;
use crate::runtime::object::{
    ArithOp, BuiltInTypeData, CompareOp, DataModel, FloatUnaryOp, NativeFunction, ObjModel, PyObject,
    StructureModel, PyObjectStructure, builtin_obj,
};

verus! {

/// The kind of answer a query expects.
#[derive(Debug, Clone, Copy, PartialEq, Eq, Structural)]
pub enum AnswerKind {
    FloatValue,
    BoolValue,
    IntValue,
    TextValue,
}

/// The kind of answer a one-operand query expects.
pub open spec fn unary_answer_kind(op: FloatUnaryOp) -> AnswerKind {
    match op {
        FloatUnaryOp::Bool => AnswerKind::BoolValue,
        FloatUnaryOp::Int => AnswerKind::IntValue,
        FloatUnaryOp::Str => AnswerKind::TextValue,
        FloatUnaryOp::Repr => AnswerKind::TextValue,
        _ => AnswerKind::FloatValue,
    }
}

/// The address of the boolean `b`.
pub open spec fn bool_addr(s: RuntimeModel, b: bool) -> MemoryAddress {
    if b {
        s.builtins.true_val
    } else {
        s.builtins.false_val
    }
}

/// A new object of the type at `t` holding `d`.
pub open spec fn alloc_data(s: RuntimeModel, t: MemoryAddress, d: DataModel) -> (RuntimeModel, Result<
    MemoryAddress,
    RuntimeError,
>) {
    rt_alloc(s, builtin_obj(t, d))
}

/// The object that stands for the host's answer: a new float, int or str, or
/// one of the two booleans; an answer of another kind is an error.
pub open spec fn answer_object(s: RuntimeModel, kind: AnswerKind, ans: FloatAnswerModel) -> (RuntimeModel, Result<
    MemoryAddress,
    RuntimeError,
>) {
    match (kind, ans) {
        (AnswerKind::FloatValue, FloatAnswerModel::Float(t)) => alloc_data(s, s.builtins.float, DataModel::Float(t)),
        (AnswerKind::BoolValue, FloatAnswerModel::Bool(b)) => (s, Ok(bool_addr(s, b))),
        (AnswerKind::IntValue, FloatAnswerModel::Int(i)) => alloc_data(s, s.builtins.int, DataModel::Int(i)),
        (AnswerKind::TextValue, FloatAnswerModel::Text(t)) => alloc_data(s, s.builtins.string, DataModel::Str(t)),
        _ => (s, Err(RuntimeError::FloatFailed)),
    }
}

/// The integer held by the object at `a`.
pub open spec fn int_of(s: RuntimeModel, a: MemoryAddress) -> Result<i128, RuntimeError> {
    match rt_raw(s, a) {
        Ok(DataModel::Int(i)) => Ok(i),
        Ok(_) => Err(RuntimeError::NotAnObject(a)),
        Err(e) => Err(e),
    }
}

/// The float text held by the object at `a`.
pub open spec fn float_of(s: RuntimeModel, a: MemoryAddress) -> Result<Seq<char>, RuntimeError> {
    match rt_raw(s, a) {
        Ok(DataModel::Float(f)) => Ok(f),
        Ok(_) => Err(RuntimeError::NotAnObject(a)),
        Err(e) => Err(e),
    }
}

/// The text held by the object at `a`.
pub open spec fn str_of(s: RuntimeModel, a: MemoryAddress) -> Result<Seq<char>, RuntimeError> {
    match rt_raw(s, a) {
        Ok(DataModel::Str(t)) => Ok(t),
        Ok(_) => Err(RuntimeError::NotAnObject(a)),
        Err(e) => Err(e),
    }
}

/// The addresses held by the list object at `a`.
pub open spec fn list_of(s: RuntimeModel, a: MemoryAddress) -> Result<Seq<MemoryAddress>, RuntimeError> {
    match rt_raw(s, a) {
        Ok(DataModel::List(l)) => Ok(l),
        Ok(_) => Err(RuntimeError::NotAnObject(a)),
        Err(e) => Err(e),
    }
}

/// The list object at `this` made to hold `l`, its type and reference count kept.
pub open spec fn list_updated(s: RuntimeModel, this: MemoryAddress, l: Seq<MemoryAddress>) -> (RuntimeModel, Result<
    MemoryAddress,
    RuntimeError,
>) {
    match rt_get(s, this) {
        None => (s, Err(RuntimeError::InvalidAddress(this))),
        Some(obj) => match obj.structure {
            StructureModel::Object { refcount, .. } => {
                let (s1, r1) = rt_write(
                    s,
                    this,
                    ObjModel {
                        type_addr: obj.type_addr,
                        structure: StructureModel::Object { raw: DataModel::List(l), refcount },
                    },
                );
                match r1 {
                    Err(e) => (s1, Err(e)),
                    Ok(_) => (s1, Ok(this)),
                }
            },
            _ => (s, Err(RuntimeError::NotAnObject(this))),
        },
    }
}

/// The result of the list method `code` on the list object `this` holding `l`:
/// its length; the element at an index inside it; `append` and `extend` change
/// the list in place and return it; `__add__` makes a new list. Another list is
/// the only operand that `extend` and `__add__` take.
pub open spec fn list_method(
    s: RuntimeModel,
    code: NativeFunction,
    this: MemoryAddress,
    l: Seq<MemoryAddress>,
    args: Seq<MemoryAddress>,
) -> (RuntimeModel, Result<MemoryAddress, RuntimeError>) {
    match code {
        NativeFunction::ListLen => alloc_data(s, s.builtins.int, DataModel::Int(l.len() as i128)),
        NativeFunction::ListAppend => list_updated(s, this, l.push(args[0])),
        NativeFunction::ListExtend => match list_of(s, args[0]) {
            Err(_) => (s, Err(RuntimeError::UnsupportedOperand)),
            Ok(m) => list_updated(s, this, l + m),
        },
        NativeFunction::ListConcat => match list_of(s, args[0]) {
            Err(_) => (s, Err(RuntimeError::UnsupportedOperand)),
            Ok(m) => alloc_data(s, s.builtins.list, DataModel::List(l + m)),
        },
        NativeFunction::ListGetItem => match int_of(s, args[0]) {
            Err(e) => (s, Err(e)),
            Ok(i) => if 0 <= i < l.len() {
                (s, Ok(l[i as int]))
            } else {
                (s, Err(RuntimeError::IndexOutOfRange))
            },
        },
        _ => (s, Err(RuntimeError::UnsupportedOperand)),
    }
}

/// Integer arithmetic on 128 bits; the remainder takes the sign of the dividend.
pub open spec fn int_arith(op: ArithOp, a: i128, b: i128) -> Result<i128, RuntimeError> {
    match op {
        ArithOp::Add => match a.checked_add(b) {
            Some(v) => Ok(v),
            None => Err(RuntimeError::Overflow),
        },
        ArithOp::Sub => match a.checked_sub(b) {
            Some(v) => Ok(v),
            None => Err(RuntimeError::Overflow),
        },
        ArithOp::Mul => match a.checked_mul(b) {
            Some(v) => Ok(v),
            None => Err(RuntimeError::Overflow),
        },
        ArithOp::Mod => if b == 0 {
            Err(RuntimeError::DivisionByZero)
        } else {
            match a.checked_rem(b) {
                Some(v) => Ok(v),
                None => Err(RuntimeError::Overflow),
            }
        },
        ArithOp::TrueDiv => Err(RuntimeError::UnsupportedOperand),
    }
}

/// Integer comparison; `__ge__` compares with `<=`, as the integer type always has.
pub open spec fn int_compare(op: CompareOp, a: i128, b: i128) -> bool {
    match op {
        CompareOp::Eq => a == b,
        CompareOp::Ne => a != b,
        CompareOp::Lt => a < b,
        CompareOp::Le => a <= b,
        CompareOp::Gt => a > b,
        CompareOp::Ge => a <= b,
    }
}

/// The comparison asked of the host for `op`; `__ge__` asks for `<=`, as for integers.
pub open spec fn host_compare_op(op: CompareOp) -> CompareOp {
    if op == CompareOp::Ge {
        CompareOp::Le
    } else {
        op
    }
}

/// The number of arguments besides the bound object that a method takes.
pub open spec fn method_arity(code: NativeFunction) -> nat {
    match code {
        NativeFunction::IntArith(_) => 1,
        NativeFunction::IntCompare(_) => 1,
        NativeFunction::FloatArith(_) => 1,
        NativeFunction::FloatCompare(_) => 1,
        NativeFunction::BoolAnd => 1,
        NativeFunction::BoolOr => 1,
        NativeFunction::BoolXor => 1,
        NativeFunction::StrAdd => 1,
        NativeFunction::StrEq => 1,
        NativeFunction::StrNeq => 1,
        NativeFunction::NoneEq => 1,
        NativeFunction::ListAppend => 1,
        NativeFunction::ListExtend => 1,
        NativeFunction::ListConcat => 1,
        NativeFunction::ListGetItem => 1,
        _ => 0,
    }
}

/// Whether the native function calls no other function.
pub open spec fn is_leaf(code: NativeFunction) -> bool {
    match code {
        NativeFunction::Print => false,
        NativeFunction::Len => false,
        NativeFunction::Panic => false,
        NativeFunction::StrNew => false,
        NativeFunction::BoolAnd => false,
        NativeFunction::BoolOr => false,
        NativeFunction::BoolXor => false,
        _ => true,
    }
}

/// The result of the int method `code` on the object `this` holding `a`.
pub open spec fn int_method(
    s: RuntimeModel,
    code: NativeFunction,
    this: MemoryAddress,
    a: i128,
    args: Seq<MemoryAddress>,
    ans: FloatAnswerModel,
) -> (RuntimeModel, Result<MemoryAddress, RuntimeError>) {
    match code {
        NativeFunction::IntArith(op) => match rt_type_of(s, args[0]) {
            Err(e) => (s, Err(e)),
            Ok(t) => if t == s.builtins.int {
                match int_of(s, args[0]) {
                    Err(e) => (s, Err(e)),
                    Ok(b) => if op == ArithOp::TrueDiv {
                        answer_object(s, AnswerKind::FloatValue, ans)
                    } else {
                        match int_arith(op, a, b) {
                            Err(e) => (s, Err(e)),
                            Ok(v) => alloc_data(s, s.builtins.int, DataModel::Int(v)),
                        }
                    },
                }
            } else if t == s.builtins.float {
                match float_of(s, args[0]) {
                    Err(e) => (s, Err(e)),
                    Ok(_) => answer_object(s, AnswerKind::FloatValue, ans),
                }
            } else {
                (s, Ok(s.special.not_implemented_value))
            },
        },
        NativeFunction::IntCompare(op) => match rt_type_of(s, args[0]) {
            Err(e) => (s, Err(e)),
            Ok(t) => if t == s.builtins.boolean || t == s.builtins.int {
                match int_of(s, args[0]) {
                    Err(e) => (s, Err(e)),
                    Ok(b) => (s, Ok(bool_addr(s, int_compare(op, a, b)))),
                }
            } else if t == s.builtins.float {
                match float_of(s, args[0]) {
                    Err(e) => (s, Err(e)),
                    Ok(_) => answer_object(s, AnswerKind::BoolValue, ans),
                }
            } else {
                (s, Ok(s.builtins.false_val))
            },
        },
        NativeFunction::IntNeg => match a.checked_mul(-1i128) {
            None => (s, Err(RuntimeError::Overflow)),
            Some(v) => alloc_data(s, s.builtins.int, DataModel::Int(v)),
        },
        NativeFunction::IntPos => alloc_data(s, s.builtins.int, DataModel::Int(a)),
        NativeFunction::IntBool => (s, Ok(bool_addr(s, a == 1))),
        NativeFunction::IntFloat => answer_object(s, AnswerKind::FloatValue, ans),
        _ => alloc_data(s, s.builtins.string, DataModel::Str(int_text(a as int))),
    }
}

/// The float query of the int method `code` on `a`, when it makes one.
pub open spec fn int_method_query(s: RuntimeModel, code: NativeFunction, a: i128, args: Seq<MemoryAddress>) -> Option<
    FloatQueryModel,
> {
    match code {
        NativeFunction::IntArith(op) => match rt_type_of(s, args[0]) {
            Err(_) => None,
            Ok(t) => if t == s.builtins.int {
                match int_of(s, args[0]) {
                    Ok(b) => if op == ArithOp::TrueDiv {
                        Some(
                            FloatQueryModel::Arith(
                                ArithOp::TrueDiv,
                                FloatOperandModel::Int(a),
                                FloatOperandModel::Int(b),
                            ),
                        )
                    } else {
                        None
                    },
                    Err(_) => None,
                }
            } else if t == s.builtins.float {
                match float_of(s, args[0]) {
                    Ok(g) => Some(FloatQueryModel::Arith(op, FloatOperandModel::Int(a), FloatOperandModel::Float(g))),
                    Err(_) => None,
                }
            } else {
                None
            },
        },
        NativeFunction::IntCompare(op) => match rt_type_of(s, args[0]) {
            Err(_) => None,
            Ok(t) => if t == s.builtins.boolean || t == s.builtins.int {
                None
            } else if t == s.builtins.float {
                match float_of(s, args[0]) {
                    Ok(g) => Some(
                        FloatQueryModel::Compare(
                            host_compare_op(op),
                            FloatOperandModel::Int(a),
                            FloatOperandModel::Float(g),
                        ),
                    ),
                    Err(_) => None,
                }
            } else {
                None
            },
        },
        NativeFunction::IntFloat => Some(FloatQueryModel::Unary(FloatUnaryOp::FromInt, FloatOperandModel::Int(a))),
        _ => None,
    }
}

/// The result of the float method `code` on the object `this` holding `f`.
pub open spec fn float_method(
    s: RuntimeModel,
    code: NativeFunction,
    f: Seq<char>,
    args: Seq<MemoryAddress>,
    ans: FloatAnswerModel,
) -> (RuntimeModel, Result<MemoryAddress, RuntimeError>) {
    match code {
        NativeFunction::FloatArith(op) => match rt_type_of(s, args[0]) {
            Err(e) => (s, Err(e)),
            Ok(t) => if t == s.builtins.int {
                match int_of(s, args[0]) {
                    Err(e) => (s, Err(e)),
                    Ok(_) => answer_object(s, AnswerKind::FloatValue, ans),
                }
            } else if t == s.builtins.float {
                match float_of(s, args[0]) {
                    Err(e) => (s, Err(e)),
                    Ok(_) => answer_object(s, AnswerKind::FloatValue, ans),
                }
            } else {
                (s, Ok(s.special.not_implemented_value))
            },
        },
        NativeFunction::FloatCompare(op) => match rt_type_of(s, args[0]) {
            Err(e) => (s, Err(e)),
            Ok(t) => if t == s.builtins.boolean || t == s.builtins.int {
                match int_of(s, args[0]) {
                    Err(e) => (s, Err(e)),
                    Ok(_) => answer_object(s, AnswerKind::BoolValue, ans),
                }
            } else if t == s.builtins.float {
                match float_of(s, args[0]) {
                    Err(e) => (s, Err(e)),
                    Ok(_) => answer_object(s, AnswerKind::BoolValue, ans),
                }
            } else {
                (s, Ok(s.special.not_implemented_value))
            },
        },
        NativeFunction::FloatUnary(op) => answer_object(s, unary_answer_kind(op), ans),
        _ => (s, Err(RuntimeError::UnsupportedOperand)),
    }
}

/// The float query of the float method `code` on `f`, when it makes one.
pub open spec fn float_method_query(s: RuntimeModel, code: NativeFunction, f: Seq<char>, args: Seq<MemoryAddress>) -> Option<
    FloatQueryModel,
> {
    match code {
        NativeFunction::FloatArith(op) => match rt_type_of(s, args[0]) {
            Err(_) => None,
            Ok(t) => if t == s.builtins.int {
                match int_of(s, args[0]) {
                    Ok(b) => Some(FloatQueryModel::Arith(op, FloatOperandModel::Float(f), FloatOperandModel::Int(b))),
                    Err(_) => None,
                }
            } else if t == s.builtins.float {
                match float_of(s, args[0]) {
                    Ok(g) => Some(FloatQueryModel::Arith(op, FloatOperandModel::Float(f), FloatOperandModel::Float(g))),
                    Err(_) => None,
                }
            } else {
                None
            },
        },
        NativeFunction::FloatCompare(op) => match rt_type_of(s, args[0]) {
            Err(_) => None,
            Ok(t) => if t == s.builtins.boolean || t == s.builtins.int {
                match int_of(s, args[0]) {
                    Ok(b) => Some(
                        FloatQueryModel::Compare(
                            host_compare_op(op),
                            FloatOperandModel::Float(f),
                            FloatOperandModel::Int(b),
                        ),
                    ),
                    Err(_) => None,
                }
            } else if t == s.builtins.float {
                match float_of(s, args[0]) {
                    Ok(g) => Some(
                        FloatQueryModel::Compare(
                            host_compare_op(op),
                            FloatOperandModel::Float(f),
                            FloatOperandModel::Float(g),
                        ),
                    ),
                    Err(_) => None,
                }
            } else {
                None
            },
        },
        NativeFunction::FloatUnary(op) => Some(FloatQueryModel::Unary(op, FloatOperandModel::Float(f))),
        _ => None,
    }
}

/// The result of the bool method `code` (one that calls nothing else) on the object holding `a`.
pub open spec fn bool_method(s: RuntimeModel, code: NativeFunction, a: i128) -> (RuntimeModel, Result<
    MemoryAddress,
    RuntimeError,
>) {
    match code {
        NativeFunction::BoolNot => (s, Ok(bool_addr(s, a == 0))),
        NativeFunction::BoolNeg => alloc_data(
            s,
            s.builtins.int,
            DataModel::Int(
                if a == 1 {
                    0
                } else {
                    1
                },
            ),
        ),
        NativeFunction::BoolStr => alloc_data(
            s,
            s.builtins.string,
            DataModel::Str(
                if a == 0 {
                    "False"@
                } else {
                    "True"@
                },
            ),
        ),
        NativeFunction::BoolInt => alloc_data(
            s,
            s.builtins.int,
            DataModel::Int(
                if a == 0 {
                    0
                } else {
                    1
                },
            ),
        ),
        NativeFunction::BoolFloat => alloc_data(
            s,
            s.builtins.float,
            DataModel::Float(
                if a == 0 {
                    "0.0"@
                } else {
                    "1.0"@
                },
            ),
        ),
        _ => (s, Err(RuntimeError::UnsupportedOperand)),
    }
}

/// The result of the str method `code` on the object `this` holding `a`.
pub open spec fn str_method(s: RuntimeModel, code: NativeFunction, a: Seq<char>, args: Seq<MemoryAddress>) -> (
    RuntimeModel,
    Result<MemoryAddress, RuntimeError>,
) {
    match code {
        NativeFunction::StrAdd => match rt_type_of(s, args[0]) {
            Err(e) => (s, Err(e)),
            Ok(t) => if t == s.builtins.string {
                match str_of(s, args[0]) {
                    Err(e) => (s, Err(e)),
                    Ok(b) => alloc_data(s, s.builtins.string, DataModel::Str(a + b)),
                }
            } else {
                (s, Err(RuntimeError::UnsupportedOperand))
            },
        },
        NativeFunction::StrEq => match rt_type_of(s, args[0]) {
            Err(e) => (s, Err(e)),
            Ok(t) => if t == s.builtins.string {
                match str_of(s, args[0]) {
                    Err(e) => (s, Err(e)),
                    Ok(b) => (s, Ok(bool_addr(s, a == b))),
                }
            } else {
                (s, Ok(s.builtins.false_val))
            },
        },
        NativeFunction::StrNeq => match rt_type_of(s, args[0]) {
            Err(e) => (s, Err(e)),
            Ok(t) => if t == s.builtins.string {
                match str_of(s, args[0]) {
                    Err(e) => (s, Err(e)),
                    Ok(b) => (s, Ok(bool_addr(s, a != b))),
                }
            } else {
                (s, Ok(s.builtins.false_val))
            },
        },
        NativeFunction::StrRepr => alloc_data(s, s.builtins.string, DataModel::Str(seq!['\''] + a + seq!['\''])),
        _ => (s, Err(RuntimeError::UnsupportedOperand)),
    }
}

/// The result of the one-argument math function `op` on the object at `o`.
pub open spec fn math_function(s: RuntimeModel, o: MemoryAddress, ans: FloatAnswerModel) -> (RuntimeModel, Result<
    MemoryAddress,
    RuntimeError,
>) {
    match rt_type_of(s, o) {
        Err(e) => (s, Err(e)),
        Ok(t) => if t == s.builtins.int {
            match int_of(s, o) {
                Err(e) => (s, Err(e)),
                Ok(_) => answer_object(s, AnswerKind::FloatValue, ans),
            }
        } else if t == s.builtins.float {
            match float_of(s, o) {
                Err(e) => (s, Err(e)),
                Ok(_) => answer_object(s, AnswerKind::FloatValue, ans),
            }
        } else {
            (s, Ok(s.special.not_implemented_value))
        },
    }
}

/// The float query of the math function `op` on the object at `o`.
pub open spec fn math_function_query(s: RuntimeModel, op: FloatUnaryOp, o: MemoryAddress) -> Option<FloatQueryModel> {
    match rt_type_of(s, o) {
        Err(_) => None,
        Ok(t) => if t == s.builtins.int {
            match int_of(s, o) {
                Ok(i) => Some(FloatQueryModel::Unary(op, FloatOperandModel::Int(i))),
                Err(_) => None,
            }
        } else if t == s.builtins.float {
            match float_of(s, o) {
                Ok(f) => Some(FloatQueryModel::Unary(op, FloatOperandModel::Float(f))),
                Err(_) => None,
            }
        } else {
            None
        },
    }
}

/// The error for a call with the wrong number of arguments.
pub open spec fn arity_error(expected: nat, args: Seq<MemoryAddress>) -> RuntimeError {
    RuntimeError::ArgumentCount { expected: expected as usize, got: args.len() as usize }
}

/// The result of a native function that calls no other function.
pub open spec fn spec_leaf(
    s: RuntimeModel,
    code: NativeFunction,
    bound: Option<MemoryAddress>,
    args: Seq<MemoryAddress>,
    ans: FloatAnswerModel,
) -> (RuntimeModel, Result<MemoryAddress, RuntimeError>) {
    match code {
        NativeFunction::Math(_) => if args.len() != 1 {
            (s, Err(arity_error(1, args)))
        } else {
            math_function(s, args[0], ans)
        },
        _ => match bound {
            None => (s, Err(RuntimeError::UnsupportedOperand)),
            Some(this) => if args.len() != method_arity(code) {
                (s, Err(arity_error(method_arity(code), args)))
            } else {
                match code {
                    NativeFunction::IntInt => (s, Ok(this)),
                    NativeFunction::FloatFloat => (s, Ok(this)),
                    NativeFunction::BoolBool => (s, Ok(this)),
                    NativeFunction::StrStr => (s, Ok(this)),
                    NativeFunction::NoneStr => alloc_data(s, s.builtins.string, DataModel::Str("None"@)),
                    NativeFunction::NoneBool => (s, Ok(s.builtins.false_val)),
                    NativeFunction::NoneEq => match rt_get(s, args[0]) {
                        None => (s, Err(RuntimeError::InvalidAddress(args[0]))),
                        Some(obj) => (s, Ok(bool_addr(s, obj.structure is NoneObject))),
                    },
                    NativeFunction::IntArith(_) | NativeFunction::IntCompare(_) | NativeFunction::IntNeg
                    | NativeFunction::IntPos | NativeFunction::IntBool | NativeFunction::IntFloat
                    | NativeFunction::IntStr | NativeFunction::IntRepr => match int_of(s, this) {
                        Err(e) => (s, Err(e)),
                        Ok(a) => int_method(s, code, this, a, args, ans),
                    },
                    NativeFunction::FloatArith(_) | NativeFunction::FloatCompare(_)
                    | NativeFunction::FloatUnary(_) => match float_of(s, this) {
                        Err(e) => (s, Err(e)),
                        Ok(f) => float_method(s, code, f, args, ans),
                    },
                    NativeFunction::BoolNot | NativeFunction::BoolNeg | NativeFunction::BoolStr
                    | NativeFunction::BoolInt | NativeFunction::BoolFloat => match int_of(s, this) {
                        Err(e) => (s, Err(e)),
                        Ok(a) => bool_method(s, code, a),
                    },
                    NativeFunction::StrAdd | NativeFunction::StrEq | NativeFunction::StrNeq
                    | NativeFunction::StrRepr => match str_of(s, this) {
                        Err(e) => (s, Err(e)),
                        Ok(a) => str_method(s, code, a, args),
                    },
                    NativeFunction::ListLen | NativeFunction::ListAppend | NativeFunction::ListExtend
                    | NativeFunction::ListConcat | NativeFunction::ListGetItem => match list_of(s, this) {
                        Err(e) => (s, Err(e)),
                        Ok(l) => list_method(s, code, this, l, args),
                    },
                    _ => (s, Err(RuntimeError::UnsupportedOperand)),
                }
            },
        },
    }
}

/// The float query of a native function that calls no other function, when it makes one.
pub open spec fn spec_leaf_query(
    s: RuntimeModel,
    code: NativeFunction,
    bound: Option<MemoryAddress>,
    args: Seq<MemoryAddress>,
) -> Option<FloatQueryModel> {
    match code {
        NativeFunction::Math(op) => if args.len() != 1 {
            None
        } else {
            math_function_query(s, op, args[0])
        },
        _ => match bound {
            None => None,
            Some(this) => if args.len() != method_arity(code) {
                None
            } else {
                match code {
                    NativeFunction::IntArith(_) | NativeFunction::IntCompare(_)
                    | NativeFunction::IntFloat => match int_of(s, this) {
                        Err(_) => None,
                        Ok(a) => int_method_query(s, code, a, args),
                    },
                    NativeFunction::FloatArith(_) | NativeFunction::FloatCompare(_)
                    | NativeFunction::FloatUnary(_) => match float_of(s, this) {
                        Err(_) => None,
                        Ok(f) => float_method_query(s, code, f, args),
                    },
                    _ => None,
                }
            },
        },
    }
}

/// The method `name` of the object at `o`.
pub open spec fn method_of_obj(s: RuntimeModel, o: MemoryAddress, name: Seq<char>) -> Result<
    Option<MemoryAddress>,
    RuntimeError,
> {
    match rt_type_of(s, o) {
        Err(e) => Err(e),
        Ok(t) => rt_method_of(s, t, name),
    }
}

/// A call of the function object at `m` with `o` bound and no arguments, where
/// the function must call no other function.
pub open spec fn leaf_call(s: RuntimeModel, m: MemoryAddress, o: MemoryAddress, ans: FloatAnswerModel) -> (
    RuntimeModel,
    Result<MemoryAddress, RuntimeError>,
) {
    match rt_get(s, m) {
        None => (s, Err(RuntimeError::InvalidAddress(m))),
        Some(obj) => match obj.structure {
            StructureModel::NativeCallable { code, .. } => if is_leaf(code) {
                spec_leaf(s, code, Some(o), Seq::empty(), ans)
            } else {
                (s, Err(RuntimeError::UnsupportedOperand))
            },
            _ => (s, Err(RuntimeError::NotCallable(m))),
        },
    }
}

/// The float query of `leaf_call(s, m, o, _)`.
pub open spec fn leaf_call_query(s: RuntimeModel, m: MemoryAddress, o: MemoryAddress) -> Option<FloatQueryModel> {
    match rt_get(s, m) {
        None => None,
        Some(obj) => match obj.structure {
            StructureModel::NativeCallable { code, .. } => if is_leaf(code) {
                spec_leaf_query(s, code, Some(o), Seq::empty())
            } else {
                None
            },
            _ => None,
        },
    }
}

/// The method `name` of the object at `o`, called with no arguments; a missing method is an error.
pub open spec fn call_named(s: RuntimeModel, o: MemoryAddress, name: Seq<char>, ans: FloatAnswerModel) -> (
    RuntimeModel,
    Result<MemoryAddress, RuntimeError>,
) {
    match method_of_obj(s, o, name) {
        Err(e) => (s, Err(e)),
        Ok(None) => (s, Err(RuntimeError::NoSuchMethod)),
        Ok(Some(m)) => leaf_call(s, m, o, ans),
    }
}

/// The float query of `call_named(s, o, name, _)`.
pub open spec fn call_named_query(s: RuntimeModel, o: MemoryAddress, name: Seq<char>) -> Option<FloatQueryModel> {
    match method_of_obj(s, o, name) {
        Ok(Some(m)) => leaf_call_query(s, m, o),
        _ => None,
    }
}

/// `and`, `or` and `xor` of two truth values.
pub open spec fn logic(code: NativeFunction, a: bool, b: bool) -> bool {
    match code {
        NativeFunction::BoolAnd => a && b,
        NativeFunction::BoolOr => a || b,
        _ => a != b,
    }
}

/// Which operand `and`, `or` and `xor` return: for `and`, the other one when
/// both are true, else the bound one; for `or` and `xor`, the bound one when
/// the result is true, else the other one.
pub open spec fn logic_pick(code: NativeFunction, result: bool, this: MemoryAddress, other: MemoryAddress) -> MemoryAddress {
    match code {
        NativeFunction::BoolAnd => if result {
            other
        } else {
            this
        },
        _ => if result {
            this
        } else {
            other
        },
    }
}

/// `and`, `or` or `xor` of the bool at `this` (holding `a`) and the object at `o`.
pub open spec fn bool_logic(
    s: RuntimeModel,
    code: NativeFunction,
    this: MemoryAddress,
    a: i128,
    o: MemoryAddress,
    ans: FloatAnswerModel,
) -> (RuntimeModel, Result<MemoryAddress, RuntimeError>) {
    match rt_type_of(s, o) {
        Err(e) => (s, Err(e)),
        Ok(t) => if t == s.builtins.boolean {
            match int_of(s, o) {
                Err(e) => (s, Err(e)),
                Ok(b) => (s, Ok(bool_addr(s, logic(code, a != 0, b != 0)))),
            }
        } else {
            match method_of_obj(s, o, "__bool__"@) {
                Err(e) => (s, Err(e)),
                Ok(None) => (s, Ok(s.special.not_implemented_value)),
                Ok(Some(m)) => {
                    let (s1, r1) = leaf_call(s, m, o, ans);
                    match r1 {
                        Err(e) => (s1, Err(e)),
                        Ok(rb) => match rt_type_of(s1, rb) {
                            Err(e) => (s1, Err(e)),
                            Ok(tb) => if tb != s1.builtins.boolean {
                                (s1, Err(RuntimeError::UnsupportedOperand))
                            } else {
                                match int_of(s1, rb) {
                                    Err(e) => (s1, Err(e)),
                                    Ok(b) => (s1, Ok(logic_pick(code, logic(code, a != 0, b != 0), this, o))),
                                }
                            },
                        },
                    }
                },
            }
        },
    }
}

/// The float query of `bool_logic(s, code, this, a, o, _)`.
pub open spec fn bool_logic_query(s: RuntimeModel, o: MemoryAddress) -> Option<FloatQueryModel> {
    match rt_type_of(s, o) {
        Err(_) => None,
        Ok(t) => if t == s.builtins.boolean {
            None
        } else {
            call_named_query(s, o, "__bool__"@)
        },
    }
}

/// The result of a native function.
pub open spec fn spec_native(
    s: RuntimeModel,
    code: NativeFunction,
    bound: Option<MemoryAddress>,
    args: Seq<MemoryAddress>,
    ans: FloatAnswerModel,
) -> (RuntimeModel, Result<MemoryAddress, RuntimeError>) {
    match code {
        NativeFunction::Print => if args.len() != 1 {
            (s, Err(arity_error(1, args)))
        } else {
            let (s1, r1) = call_named(s, args[0], "__str__"@, ans);
            match r1 {
                Err(e) => (s1, Err(e)),
                Ok(r) => match str_of(s1, r) {
                    Err(_) => (s1, Err(RuntimeError::UnsupportedOperand)),
                    Ok(text) => (rt_print(s1, text), Ok(s1.special.none_value)),
                },
            }
        },
        NativeFunction::Len => if args.len() != 1 {
            (s, Err(arity_error(1, args)))
        } else {
            call_named(s, args[0], "__len__"@, ans)
        },
        NativeFunction::Panic => if args.len() != 1 {
            (s, Err(arity_error(1, args)))
        } else {
            let (s1, r1) = call_named(s, args[0], "__str__"@, ans);
            match r1 {
                Err(e) => (s1, Err(e)),
                Ok(r) => match str_of(s1, r) {
                    Err(_) => (s1, Err(RuntimeError::ProgramPanicked)),
                    Ok(text) => (rt_print(s1, text), Err(RuntimeError::ProgramPanicked)),
                },
            }
        },
        NativeFunction::StrNew => if args.len() == 0 {
            alloc_data(s, s.builtins.string, DataModel::Str(Seq::empty()))
        } else if args.len() == 1 {
            call_named(s, args[0], "__str__"@, ans)
        } else {
            (s, Err(arity_error(1, args)))
        },
        NativeFunction::BoolAnd | NativeFunction::BoolOr | NativeFunction::BoolXor => match bound {
            None => (s, Err(RuntimeError::UnsupportedOperand)),
            Some(this) => if args.len() != 1 {
                (s, Err(arity_error(1, args)))
            } else {
                match int_of(s, this) {
                    Err(e) => (s, Err(e)),
                    Ok(a) => bool_logic(s, code, this, a, args[0], ans),
                }
            },
        },
        _ => spec_leaf(s, code, bound, args, ans),
    }
}

/// A native function leaves the stack frames as they were.
pub proof fn lemma_native_frames(
    s: RuntimeModel,
    code: NativeFunction,
    bound: Option<MemoryAddress>,
    args: Seq<MemoryAddress>,
    ans: FloatAnswerModel,
)
    ensures
        spec_native(s, code, bound, args, ans).0.frames == s.frames,
{
}

/// The float query that a native function makes, when it makes one.
pub open spec fn spec_native_query(
    s: RuntimeModel,
    code: NativeFunction,
    bound: Option<MemoryAddress>,
    args: Seq<MemoryAddress>,
) -> Option<FloatQueryModel> {
    match code {
        NativeFunction::Print | NativeFunction::Panic => if args.len() != 1 {
            None
        } else {
            call_named_query(s, args[0], "__str__"@)
        },
        NativeFunction::Len => if args.len() != 1 {
            None
        } else {
            call_named_query(s, args[0], "__len__"@)
        },
        NativeFunction::StrNew => if args.len() == 1 {
            call_named_query(s, args[0], "__str__"@)
        } else {
            None
        },
        NativeFunction::BoolAnd | NativeFunction::BoolOr | NativeFunction::BoolXor => match bound {
            None => None,
            Some(this) => if args.len() != 1 {
                None
            } else {
                match int_of(s, this) {
                    Err(_) => None,
                    Ok(_) => bool_logic_query(s, args[0]),
                }
            },
        },
        _ => spec_leaf_query(s, code, bound, args),
    }
}


/// The value of a query that may be absent.
pub open spec fn query_view(q: Option<FloatQuery>) -> Option<FloatQueryModel> {
    match q {
        Some(q) => Some(q@),
        None => None,
    }
}

fn copy_float(f: &Float) -> (r: Float)
    ensures
        r.0@ == f.0@,
{
    Float(f.0.clone())
}

fn exec_int_arith(op: ArithOp, a: i128, b: i128) -> (r: Result<i128, RuntimeError>)
    ensures
        r == int_arith(op, a, b),
{
    match op {
        ArithOp::Add => match a.checked_add(b) {
            Some(v) => Ok(v),
            None => Err(RuntimeError::Overflow),
        },
        ArithOp::Sub => match a.checked_sub(b) {
            Some(v) => Ok(v),
            None => Err(RuntimeError::Overflow),
        },
        ArithOp::Mul => match a.checked_mul(b) {
            Some(v) => Ok(v),
            None => Err(RuntimeError::Overflow),
        },
        ArithOp::Mod => if b == 0 {
            Err(RuntimeError::DivisionByZero)
        } else {
            match a.checked_rem(b) {
                Some(v) => Ok(v),
                None => Err(RuntimeError::Overflow),
            }
        },
        ArithOp::TrueDiv => Err(RuntimeError::UnsupportedOperand),
    }
}

fn exec_int_compare(op: CompareOp, a: i128, b: i128) -> (r: bool)
    ensures
        r == int_compare(op, a, b),
{
    match op {
        CompareOp::Eq => a == b,
        CompareOp::Ne => a != b,
        CompareOp::Lt => a < b,
        CompareOp::Le => a <= b,
        CompareOp::Gt => a > b,
        CompareOp::Ge => a <= b,
    }
}

fn exec_host_compare_op(op: CompareOp) -> (r: CompareOp)
    ensures
        r == host_compare_op(op),
{
    if op == CompareOp::Ge {
        CompareOp::Le
    } else {
        op
    }
}

impl Runtime {
    /// The address of the boolean `b`.
    pub fn bool_addr(&self, b: bool) -> (r: MemoryAddress)
        ensures
            r == bool_addr(self@, b),
    {
        if b {
            self.builtin_type_addrs.true_val
        } else {
            self.builtin_type_addrs.false_val
        }
    }

    /// The integer held by the object at `a`.
    pub fn get_int(&self, a: MemoryAddress) -> (r: Result<i128, RuntimeError>)
        requires
            rt_wf(self@),
        ensures
            r == int_of(self@, a),
    {
        match self.get_raw_data_of_pyobj(a) {
            Err(e) => Err(e),
            Ok(BuiltInTypeData::Int(i)) => Ok(*i),
            Ok(_) => Err(RuntimeError::NotAnObject(a)),
        }
    }

    /// The float held by the object at `a`.
    pub fn get_float(&self, a: MemoryAddress) -> (r: Result<Float, RuntimeError>)
        requires
            rt_wf(self@),
        ensures
            match float_of(self@, a) {
                Ok(f) => r is Ok && r->Ok_0.0@ == f,
                Err(e) => r is Err && r->Err_0 == e,
            },
    {
        match self.get_raw_data_of_pyobj(a) {
            Err(e) => Err(e),
            Ok(BuiltInTypeData::Float(f)) => Ok(copy_float(f)),
            Ok(_) => Err(RuntimeError::NotAnObject(a)),
        }
    }

    /// The text held by the object at `a`.
    pub fn get_str(&self, a: MemoryAddress) -> (r: Result<String, RuntimeError>)
        requires
            rt_wf(self@),
        ensures
            match str_of(self@, a) {
                Ok(t) => r is Ok && r->Ok_0@ == t,
                Err(e) => r is Err && r->Err_0 == e,
            },
    {
        match self.get_raw_data_of_pyobj(a) {
            Err(e) => Err(e),
            Ok(BuiltInTypeData::String(t)) => Ok(t.clone()),
            Ok(_) => Err(RuntimeError::NotAnObject(a)),
        }
    }

    /// The addresses held by the list object at `a`.
    pub fn get_list(&self, a: MemoryAddress) -> (r: Result<Vec<MemoryAddress>, RuntimeError>)
        requires
            rt_wf(self@),
        ensures
            match list_of(self@, a) {
                Ok(l) => r is Ok && r->Ok_0@ == l,
                Err(e) => r is Err && r->Err_0 == e,
            },
    {
        match self.get_raw_data_of_pyobj(a) {
            Err(e) => Err(e),
            Ok(BuiltInTypeData::List(l)) => Ok(l.clone()),
            Ok(_) => Err(RuntimeError::NotAnObject(a)),
        }
    }

    /// The object that stands for the host's answer.
    pub fn answer_object(&mut self, kind: AnswerKind, ans: &FloatAnswer) -> (r: Result<MemoryAddress, RuntimeError>)
        requires
            rt_wf(old(self)@),
        ensures
            rt_wf(final(self)@),
            (final(self)@, r) == answer_object(old(self)@, kind, ans@),
    {
        match (kind, ans) {
            (AnswerKind::FloatValue, FloatAnswer::Float(t)) => {
                let t2 = copy_float(t);
                let ty = self.builtin_type_addrs.float;
                self.allocate_type_byaddr_raw(ty, BuiltInTypeData::Float(t2))
            },
            (AnswerKind::BoolValue, FloatAnswer::Bool(b)) => Ok(self.bool_addr(*b)),
            (AnswerKind::IntValue, FloatAnswer::Int(i)) => {
                let ty = self.builtin_type_addrs.int;
                self.allocate_type_byaddr_raw(ty, BuiltInTypeData::Int(*i))
            },
            (AnswerKind::TextValue, FloatAnswer::Text(t)) => {
                let ty = self.builtin_type_addrs.string;
                self.allocate_type_byaddr_raw(ty, BuiltInTypeData::String(t.clone()))
            },
            _ => Err(RuntimeError::FloatFailed),
        }
    }
}


impl Runtime {
    /// The result of the int method `code` on the object `this` holding `a`.
    fn int_method(
        &mut self,
        code: NativeFunction,
        this: MemoryAddress,
        a: i128,
        args: &Vec<MemoryAddress>,
        ans: &FloatAnswer,
    ) -> (r: Result<MemoryAddress, RuntimeError>)
        requires
            rt_wf(old(self)@),
            args@.len() == method_arity(code),
        ensures
            rt_wf(final(self)@),
            (final(self)@, r) == int_method(old(self)@, code, this, a, args@, ans@),
    {
        match code {
            NativeFunction::IntArith(op) => {
                let o = args[0];
                match self.get_pyobj_type_addr(o) {
                    Err(e) => Err(e),
                    Ok(t) => if t == self.builtin_type_addrs.int {
                        match self.get_int(o) {
                            Err(e) => Err(e),
                            Ok(b) => if op == ArithOp::TrueDiv {
                                self.answer_object(AnswerKind::FloatValue, ans)
                            } else {
                                match exec_int_arith(op, a, b) {
                                    Err(e) => Err(e),
                                    Ok(v) => {
                                        let ty = self.builtin_type_addrs.int;
                                        self.allocate_type_byaddr_raw(ty, BuiltInTypeData::Int(v))
                                    },
                                }
                            },
                        }
                    } else if t == self.builtin_type_addrs.float {
                        match self.get_float(o) {
                            Err(e) => Err(e),
                            Ok(_) => self.answer_object(AnswerKind::FloatValue, ans),
                        }
                    } else {
                        Ok(self.special_values.not_implemented_value)
                    },
                }
            },
            NativeFunction::IntCompare(op) => {
                let o = args[0];
                match self.get_pyobj_type_addr(o) {
                    Err(e) => Err(e),
                    Ok(t) => if t == self.builtin_type_addrs.boolean || t == self.builtin_type_addrs.int {
                        match self.get_int(o) {
                            Err(e) => Err(e),
                            Ok(b) => Ok(self.bool_addr(exec_int_compare(op, a, b))),
                        }
                    } else if t == self.builtin_type_addrs.float {
                        match self.get_float(o) {
                            Err(e) => Err(e),
                            Ok(_) => self.answer_object(AnswerKind::BoolValue, ans),
                        }
                    } else {
                        Ok(self.builtin_type_addrs.false_val)
                    },
                }
            },
            NativeFunction::IntNeg => match a.checked_mul(-1i128) {
                None => Err(RuntimeError::Overflow),
                Some(v) => {
                    let ty = self.builtin_type_addrs.int;
                    self.allocate_type_byaddr_raw(ty, BuiltInTypeData::Int(v))
                },
            },
            NativeFunction::IntPos => {
                let ty = self.builtin_type_addrs.int;
                self.allocate_type_byaddr_raw(ty, BuiltInTypeData::Int(a))
            },
            NativeFunction::IntBool => Ok(self.bool_addr(a == 1)),
            NativeFunction::IntFloat => self.answer_object(AnswerKind::FloatValue, ans),
            _ => {
                let ty = self.builtin_type_addrs.string;
                self.allocate_type_byaddr_raw(ty, BuiltInTypeData::String(int_to_string(a)))
            },
        }
    }

    /// The float query of the int method `code` on `a`, when it makes one.
    fn int_method_query(&self, code: NativeFunction, a: i128, args: &Vec<MemoryAddress>) -> (r: Option<FloatQuery>)
        requires
            rt_wf(self@),
            args@.len() == method_arity(code),
        ensures
            query_view(r) == int_method_query(self@, code, a, args@),
    {
        match code {
            NativeFunction::IntArith(op) => {
                let o = args[0];
                match self.get_pyobj_type_addr(o) {
                    Err(_) => None,
                    Ok(t) => if t == self.builtin_type_addrs.int {
                        match self.get_int(o) {
                            Ok(b) => if op == ArithOp::TrueDiv {
                                Some(FloatQuery::Arith(ArithOp::TrueDiv, FloatOperand::Int(a), FloatOperand::Int(b)))
                            } else {
                                None
                            },
                            Err(_) => None,
                        }
                    } else if t == self.builtin_type_addrs.float {
                        match self.get_float(o) {
                            Ok(g) => Some(FloatQuery::Arith(op, FloatOperand::Int(a), FloatOperand::Float(g))),
                            Err(_) => None,
                        }
                    } else {
                        None
                    },
                }
            },
            NativeFunction::IntCompare(op) => {
                let o = args[0];
                match self.get_pyobj_type_addr(o) {
                    Err(_) => None,
                    Ok(t) => if t == self.builtin_type_addrs.boolean || t == self.builtin_type_addrs.int {
                        None
                    } else if t == self.builtin_type_addrs.float {
                        match self.get_float(o) {
                            Ok(g) => Some(
                                FloatQuery::Compare(
                                    exec_host_compare_op(op),
                                    FloatOperand::Int(a),
                                    FloatOperand::Float(g),
                                ),
                            ),
                            Err(_) => None,
                        }
                    } else {
                        None
                    },
                }
            },
            NativeFunction::IntFloat => Some(FloatQuery::Unary(FloatUnaryOp::FromInt, FloatOperand::Int(a))),
            _ => None,
        }
    }

    /// The result of the float method `code` on the object holding `f`.
    fn float_method(
        &mut self,
        code: NativeFunction,
        f: &Float,
        args: &Vec<MemoryAddress>,
        ans: &FloatAnswer,
    ) -> (r: Result<MemoryAddress, RuntimeError>)
        requires
            rt_wf(old(self)@),
            args@.len() == method_arity(code),
        ensures
            rt_wf(final(self)@),
            (final(self)@, r) == float_method(old(self)@, code, f.0@, args@, ans@),
    {
        match code {
            NativeFunction::FloatArith(_) => {
                let o = args[0];
                match self.get_pyobj_type_addr(o) {
                    Err(e) => Err(e),
                    Ok(t) => if t == self.builtin_type_addrs.int {
                        match self.get_int(o) {
                            Err(e) => Err(e),
                            Ok(_) => self.answer_object(AnswerKind::FloatValue, ans),
                        }
                    } else if t == self.builtin_type_addrs.float {
                        match self.get_float(o) {
                            Err(e) => Err(e),
                            Ok(_) => self.answer_object(AnswerKind::FloatValue, ans),
                        }
                    } else {
                        Ok(self.special_values.not_implemented_value)
                    },
                }
            },
            NativeFunction::FloatCompare(_) => {
                let o = args[0];
                match self.get_pyobj_type_addr(o) {
                    Err(e) => Err(e),
                    Ok(t) => if t == self.builtin_type_addrs.boolean || t == self.builtin_type_addrs.int {
                        match self.get_int(o) {
                            Err(e) => Err(e),
                            Ok(_) => self.answer_object(AnswerKind::BoolValue, ans),
                        }
                    } else if t == self.builtin_type_addrs.float {
                        match self.get_float(o) {
                            Err(e) => Err(e),
                            Ok(_) => self.answer_object(AnswerKind::BoolValue, ans),
                        }
                    } else {
                        Ok(self.special_values.not_implemented_value)
                    },
                }
            },
            NativeFunction::FloatUnary(op) => {
                let kind = match op {
                    FloatUnaryOp::Bool => AnswerKind::BoolValue,
                    FloatUnaryOp::Int => AnswerKind::IntValue,
                    FloatUnaryOp::Str => AnswerKind::TextValue,
                    FloatUnaryOp::Repr => AnswerKind::TextValue,
                    _ => AnswerKind::FloatValue,
                };
                self.answer_object(kind, ans)
            },
            _ => Err(RuntimeError::UnsupportedOperand),
        }
    }

    /// The float query of the float method `code` on `f`, when it makes one.
    fn float_method_query(&self, code: NativeFunction, f: &Float, args: &Vec<MemoryAddress>) -> (r: Option<FloatQuery>)
        requires
            rt_wf(self@),
            args@.len() == method_arity(code),
        ensures
            query_view(r) == float_method_query(self@, code, f.0@, args@),
    {
        match code {
            NativeFunction::FloatArith(op) => {
                let o = args[0];
                match self.get_pyobj_type_addr(o) {
                    Err(_) => None,
                    Ok(t) => if t == self.builtin_type_addrs.int {
                        match self.get_int(o) {
                            Ok(b) => Some(FloatQuery::Arith(op, FloatOperand::Float(copy_float(f)), FloatOperand::Int(b))),
                            Err(_) => None,
                        }
                    } else if t == self.builtin_type_addrs.float {
                        match self.get_float(o) {
                            Ok(g) => Some(
                                FloatQuery::Arith(op, FloatOperand::Float(copy_float(f)), FloatOperand::Float(g)),
                            ),
                            Err(_) => None,
                        }
                    } else {
                        None
                    },
                }
            },
            NativeFunction::FloatCompare(op) => {
                let o = args[0];
                match self.get_pyobj_type_addr(o) {
                    Err(_) => None,
                    Ok(t) => if t == self.builtin_type_addrs.boolean || t == self.builtin_type_addrs.int {
                        match self.get_int(o) {
                            Ok(b) => Some(
                                FloatQuery::Compare(
                                    exec_host_compare_op(op),
                                    FloatOperand::Float(copy_float(f)),
                                    FloatOperand::Int(b),
                                ),
                            ),
                            Err(_) => None,
                        }
                    } else if t == self.builtin_type_addrs.float {
                        match self.get_float(o) {
                            Ok(g) => Some(
                                FloatQuery::Compare(
                                    exec_host_compare_op(op),
                                    FloatOperand::Float(copy_float(f)),
                                    FloatOperand::Float(g),
                                ),
                            ),
                            Err(_) => None,
                        }
                    } else {
                        None
                    },
                }
            },
            NativeFunction::FloatUnary(op) => Some(FloatQuery::Unary(op, FloatOperand::Float(copy_float(f)))),
            _ => None,
        }
    }
}


impl Runtime {
    /// The result of the bool method `code` on the object holding `a`.
    fn bool_method(&mut self, code: NativeFunction, a: i128) -> (r: Result<MemoryAddress, RuntimeError>)
        requires
            rt_wf(old(self)@),
        ensures
            rt_wf(final(self)@),
            (final(self)@, r) == bool_method(old(self)@, code, a),
    {
        match code {
            NativeFunction::BoolNot => Ok(self.bool_addr(a == 0)),
            NativeFunction::BoolNeg => {
                let ty = self.builtin_type_addrs.int;
                let v: i128 = if a == 1 {
                    0
                } else {
                    1
                };
                self.allocate_type_byaddr_raw(ty, BuiltInTypeData::Int(v))
            },
            NativeFunction::BoolStr => {
                let ty = self.builtin_type_addrs.string;
                let text = if a == 0 {
                    String::from_str("False")
                } else {
                    String::from_str("True")
                };
                self.allocate_type_byaddr_raw(ty, BuiltInTypeData::String(text))
            },
            NativeFunction::BoolInt => {
                let ty = self.builtin_type_addrs.int;
                let v: i128 = if a == 0 {
                    0
                } else {
                    1
                };
                self.allocate_type_byaddr_raw(ty, BuiltInTypeData::Int(v))
            },
            NativeFunction::BoolFloat => {
                let ty = self.builtin_type_addrs.float;
                let text = if a == 0 {
                    String::from_str("0.0")
                } else {
                    String::from_str("1.0")
                };
                self.allocate_type_byaddr_raw(ty, BuiltInTypeData::Float(Float(text)))
            },
            _ => Err(RuntimeError::UnsupportedOperand),
        }
    }

    /// The list object at `this` made to hold `l`.
    fn list_updated(&mut self, this: MemoryAddress, l: Vec<MemoryAddress>) -> (r: Result<MemoryAddress, RuntimeError>)
        requires
            rt_wf(old(self)@),
        ensures
            rt_wf(final(self)@),
            (final(self)@, r) == list_updated(old(self)@, this, l@),
    {
        let (t, rc) = match self.get_pyobj_byaddr(this) {
            Err(e) => {
                return Err(e);
            },
            Ok(obj) => match &obj.structure {
                PyObjectStructure::Object { refcount, .. } => (obj.type_addr, *refcount),
                _ => {
                    return Err(RuntimeError::NotAnObject(this));
                },
            },
        };
        let obj = PyObject {
            type_addr: t,
            structure: PyObjectStructure::Object { raw_data: BuiltInTypeData::List(l), refcount: rc },
        };
        match self.write(this, obj) {
            Err(e) => Err(e),
            Ok(_) => Ok(this),
        }
    }

    /// The result of the list method `code` on the list object `this` holding `l`.
    fn list_method(
        &mut self,
        code: NativeFunction,
        this: MemoryAddress,
        l: Vec<MemoryAddress>,
        args: &Vec<MemoryAddress>,
    ) -> (r: Result<MemoryAddress, RuntimeError>)
        requires
            rt_wf(old(self)@),
            args@.len() == method_arity(code),
        ensures
            rt_wf(final(self)@),
            (final(self)@, r) == list_method(old(self)@, code, this, l@, args@),
    {
        let mut l = l;
        match code {
            NativeFunction::ListLen => {
                let ty = self.builtin_type_addrs.int;
                let n = l.len() as i128;
                self.allocate_type_byaddr_raw(ty, BuiltInTypeData::Int(n))
            },
            NativeFunction::ListAppend => {
                l.push(args[0]);
                self.list_updated(this, l)
            },
            NativeFunction::ListExtend => match self.get_list(args[0]) {
                Err(_) => Err(RuntimeError::UnsupportedOperand),
                Ok(m) => {
                    let mut m = m;
                    l.append(&mut m);
                    self.list_updated(this, l)
                },
            },
            NativeFunction::ListConcat => match self.get_list(args[0]) {
                Err(_) => Err(RuntimeError::UnsupportedOperand),
                Ok(m) => {
                    let mut m = m;
                    l.append(&mut m);
                    let ty = self.builtin_type_addrs.list;
                    self.allocate_type_byaddr_raw(ty, BuiltInTypeData::List(l))
                },
            },
            NativeFunction::ListGetItem => match self.get_int(args[0]) {
                Err(e) => Err(e),
                Ok(i) => if 0 <= i && i < l.len() as i128 {
                    Ok(l[i as usize])
                } else {
                    Err(RuntimeError::IndexOutOfRange)
                },
            },
            _ => Err(RuntimeError::UnsupportedOperand),
        }
    }

    /// The result of the str method `code` on the object holding `a`.
    fn str_method(&mut self, code: NativeFunction, a: &String, args: &Vec<MemoryAddress>) -> (r: Result<
        MemoryAddress,
        RuntimeError,
    >)
        requires
            rt_wf(old(self)@),
            args@.len() == method_arity(code),
        ensures
            rt_wf(final(self)@),
            (final(self)@, r) == str_method(old(self)@, code, a@, args@),
    {
        match code {
            NativeFunction::StrAdd => {
                let o = args[0];
                match self.get_pyobj_type_addr(o) {
                    Err(e) => Err(e),
                    Ok(t) => if t == self.builtin_type_addrs.string {
                        match self.get_str(o) {
                            Err(e) => Err(e),
                            Ok(b) => {
                                let ty = self.builtin_type_addrs.string;
                                let joined = concatenate(a.as_str(), b.as_str());
                                self.allocate_type_byaddr_raw(ty, BuiltInTypeData::String(joined))
                            },
                        }
                    } else {
                        Err(RuntimeError::UnsupportedOperand)
                    },
                }
            },
            NativeFunction::StrEq | NativeFunction::StrNeq => {
                let o = args[0];
                match self.get_pyobj_type_addr(o) {
                    Err(e) => Err(e),
                    Ok(t) => if t == self.builtin_type_addrs.string {
                        match self.get_str(o) {
                            Err(e) => Err(e),
                            Ok(b) => {
                                let same = str_equal(a.as_str(), b.as_str());
                                if code == NativeFunction::StrEq {
                                    Ok(self.bool_addr(same))
                                } else {
                                    Ok(self.bool_addr(!same))
                                }
                            },
                        }
                    } else {
                        Ok(self.builtin_type_addrs.false_val)
                    },
                }
            },
            NativeFunction::StrRepr => {
                let ty = self.builtin_type_addrs.string;
                let mut text = concatenate("'", a.as_str());
                push_char(&mut text, '\'');
                proof {
                    reveal_strlit("'");
                }
                assert(text@ =~= seq!['\''] + a@ + seq!['\'']);
                self.allocate_type_byaddr_raw(ty, BuiltInTypeData::String(text))
            },
            _ => Err(RuntimeError::UnsupportedOperand),
        }
    }

    /// The result of a one-argument math function on the object at `o`.
    fn math_function(&mut self, o: MemoryAddress, ans: &FloatAnswer) -> (r: Result<MemoryAddress, RuntimeError>)
        requires
            rt_wf(old(self)@),
        ensures
            rt_wf(final(self)@),
            (final(self)@, r) == math_function(old(self)@, o, ans@),
    {
        match self.get_pyobj_type_addr(o) {
            Err(e) => Err(e),
            Ok(t) => if t == self.builtin_type_addrs.int {
                match self.get_int(o) {
                    Err(e) => Err(e),
                    Ok(_) => self.answer_object(AnswerKind::FloatValue, ans),
                }
            } else if t == self.builtin_type_addrs.float {
                match self.get_float(o) {
                    Err(e) => Err(e),
                    Ok(_) => self.answer_object(AnswerKind::FloatValue, ans),
                }
            } else {
                Ok(self.special_values.not_implemented_value)
            },
        }
    }

    /// The float query of the math function `op` on the object at `o`.
    fn math_function_query(&self, op: FloatUnaryOp, o: MemoryAddress) -> (r: Option<FloatQuery>)
        requires
            rt_wf(self@),
        ensures
            query_view(r) == math_function_query(self@, op, o),
    {
        match self.get_pyobj_type_addr(o) {
            Err(_) => None,
            Ok(t) => if t == self.builtin_type_addrs.int {
                match self.get_int(o) {
                    Ok(i) => Some(FloatQuery::Unary(op, FloatOperand::Int(i))),
                    Err(_) => None,
                }
            } else if t == self.builtin_type_addrs.float {
                match self.get_float(o) {
                    Ok(f) => Some(FloatQuery::Unary(op, FloatOperand::Float(f))),
                    Err(_) => None,
                }
            } else {
                None
            },
        }
    }
}


fn exec_method_arity(code: NativeFunction) -> (r: usize)
    ensures
        r == method_arity(code),
{
    match code {
        NativeFunction::IntArith(_) => 1,
        NativeFunction::IntCompare(_) => 1,
        NativeFunction::FloatArith(_) => 1,
        NativeFunction::FloatCompare(_) => 1,
        NativeFunction::BoolAnd => 1,
        NativeFunction::BoolOr => 1,
        NativeFunction::BoolXor => 1,
        NativeFunction::StrAdd => 1,
        NativeFunction::StrEq => 1,
        NativeFunction::StrNeq => 1,
        NativeFunction::NoneEq => 1,
        NativeFunction::ListAppend => 1,
        NativeFunction::ListExtend => 1,
        NativeFunction::ListConcat => 1,
        NativeFunction::ListGetItem => 1,
        _ => 0,
    }
}

fn exec_is_leaf(code: NativeFunction) -> (r: bool)
    ensures
        r == is_leaf(code),
{
    match code {
        NativeFunction::Print => false,
        NativeFunction::Len => false,
        NativeFunction::Panic => false,
        NativeFunction::StrNew => false,
        NativeFunction::BoolAnd => false,
        NativeFunction::BoolOr => false,
        NativeFunction::BoolXor => false,
        _ => true,
    }
}

impl Runtime {
    /// The result of a native function that calls no other function, given the host's answer.
    pub fn finish_leaf(
        &mut self,
        code: NativeFunction,
        bound: Option<MemoryAddress>,
        args: &Vec<MemoryAddress>,
        ans: &FloatAnswer,
    ) -> (r: Result<MemoryAddress, RuntimeError>)
        requires
            rt_wf(old(self)@),
        ensures
            rt_wf(final(self)@),
            (final(self)@, r) == spec_leaf(old(self)@, code, bound, args@, ans@),
    {
        if let NativeFunction::Math(_) = code {
            if args.len() != 1 {
                return Err(RuntimeError::ArgumentCount { expected: 1, got: args.len() });
            }
            return self.math_function(args[0], ans);
        }
        let this = match bound {
            None => {
                return Err(RuntimeError::UnsupportedOperand);
            },
            Some(b) => b,
        };
        let arity = exec_method_arity(code);
        if args.len() != arity {
            return Err(RuntimeError::ArgumentCount { expected: arity, got: args.len() });
        }
        match code {
            NativeFunction::IntInt | NativeFunction::FloatFloat | NativeFunction::BoolBool
            | NativeFunction::StrStr => Ok(this),
            NativeFunction::NoneStr => {
                let ty = self.builtin_type_addrs.string;
                self.allocate_type_byaddr_raw(ty, BuiltInTypeData::String(String::from_str("None")))
            },
            NativeFunction::NoneBool => Ok(self.builtin_type_addrs.false_val),
            NativeFunction::NoneEq => {
                let o = args[0];
                match self.get_pyobj_byaddr(o) {
                    Err(e) => Err(e),
                    Ok(obj) => {
                        let is_none = match &obj.structure {
                            PyObjectStructure::NoneObject => true,
                            _ => false,
                        };
                        Ok(self.bool_addr(is_none))
                    },
                }
            },
            NativeFunction::IntArith(_) | NativeFunction::IntCompare(_) | NativeFunction::IntNeg
            | NativeFunction::IntPos | NativeFunction::IntBool | NativeFunction::IntFloat
            | NativeFunction::IntStr | NativeFunction::IntRepr => match self.get_int(this) {
                Err(e) => Err(e),
                Ok(a) => self.int_method(code, this, a, args, ans),
            },
            NativeFunction::FloatArith(_) | NativeFunction::FloatCompare(_)
            | NativeFunction::FloatUnary(_) => match self.get_float(this) {
                Err(e) => Err(e),
                Ok(f) => self.float_method(code, &f, args, ans),
            },
            NativeFunction::BoolNot | NativeFunction::BoolNeg | NativeFunction::BoolStr
            | NativeFunction::BoolInt | NativeFunction::BoolFloat => match self.get_int(this) {
                Err(e) => Err(e),
                Ok(a) => self.bool_method(code, a),
            },
            NativeFunction::StrAdd | NativeFunction::StrEq | NativeFunction::StrNeq
            | NativeFunction::StrRepr => match self.get_str(this) {
                Err(e) => Err(e),
                Ok(a) => self.str_method(code, &a, args),
            },
            NativeFunction::ListLen | NativeFunction::ListAppend | NativeFunction::ListExtend
            | NativeFunction::ListConcat | NativeFunction::ListGetItem => match self.get_list(this) {
                Err(e) => Err(e),
                Ok(l) => self.list_method(code, this, l, args),
            },
            _ => Err(RuntimeError::UnsupportedOperand),
        }
    }

    /// The float query of a native function that calls no other function.
    pub fn leaf_query(&self, code: NativeFunction, bound: Option<MemoryAddress>, args: &Vec<MemoryAddress>) -> (r:
        Option<FloatQuery>)
        requires
            rt_wf(self@),
        ensures
            query_view(r) == spec_leaf_query(self@, code, bound, args@),
    {
        if let NativeFunction::Math(op) = code {
            if args.len() != 1 {
                return None;
            }
            return self.math_function_query(op, args[0]);
        }
        let this = match bound {
            None => {
                return None;
            },
            Some(b) => b,
        };
        if args.len() != exec_method_arity(code) {
            return None;
        }
        match code {
            NativeFunction::IntArith(_) | NativeFunction::IntCompare(_) | NativeFunction::IntFloat => match self.get_int(
                this,
            ) {
                Err(_) => None,
                Ok(a) => self.int_method_query(code, a, args),
            },
            NativeFunction::FloatArith(_) | NativeFunction::FloatCompare(_)
            | NativeFunction::FloatUnary(_) => match self.get_float(this) {
                Err(_) => None,
                Ok(f) => self.float_method_query(code, &f, args),
            },
            _ => None,
        }
    }

    /// The method `name` of the object at `o`.
    pub fn method_of_obj(&self, o: MemoryAddress, name: &str) -> (r: Result<Option<MemoryAddress>, RuntimeError>)
        requires
            rt_wf(self@),
        ensures
            r == method_of_obj(self@, o, name@),
    {
        match self.get_pyobj_type_addr(o) {
            Err(e) => Err(e),
            Ok(t) => self.get_type_method_addr_byname(t, name),
        }
    }

    /// Calls the function object at `m` with `o` bound and no arguments.
    fn leaf_call(&mut self, m: MemoryAddress, o: MemoryAddress, ans: &FloatAnswer) -> (r: Result<
        MemoryAddress,
        RuntimeError,
    >)
        requires
            rt_wf(old(self)@),
        ensures
            rt_wf(final(self)@),
            (final(self)@, r) == leaf_call(old(self)@, m, o, ans@),
    {
        let code = match self.get_pyobj_byaddr(m) {
            Err(e) => {
                return Err(e);
            },
            Ok(obj) => match &obj.structure {
                PyObjectStructure::NativeCallable { code, .. } => *code,
                _ => {
                    return Err(RuntimeError::NotCallable(m));
                },
            },
        };
        if !exec_is_leaf(code) {
            return Err(RuntimeError::UnsupportedOperand);
        }
        let no_args: Vec<MemoryAddress> = Vec::new();
        assert(no_args@ =~= Seq::<MemoryAddress>::empty());
        self.finish_leaf(code, Some(o), &no_args, ans)
    }

    /// The float query of `leaf_call(m, o, _)`.
    fn leaf_call_query(&self, m: MemoryAddress, o: MemoryAddress) -> (r: Option<FloatQuery>)
        requires
            rt_wf(self@),
        ensures
            query_view(r) == leaf_call_query(self@, m, o),
    {
        let code = match self.get_pyobj_byaddr(m) {
            Err(_) => {
                return None;
            },
            Ok(obj) => match &obj.structure {
                PyObjectStructure::NativeCallable { code, .. } => *code,
                _ => {
                    return None;
                },
            },
        };
        if !exec_is_leaf(code) {
            return None;
        }
        let no_args: Vec<MemoryAddress> = Vec::new();
        assert(no_args@ =~= Seq::<MemoryAddress>::empty());
        self.leaf_query(code, Some(o), &no_args)
    }

    /// Calls the method `name` of the object at `o` with no arguments.
    fn call_named(&mut self, o: MemoryAddress, name: &str, ans: &FloatAnswer) -> (r: Result<MemoryAddress, RuntimeError>)
        requires
            rt_wf(old(self)@),
        ensures
            rt_wf(final(self)@),
            (final(self)@, r) == call_named(old(self)@, o, name@, ans@),
    {
        match self.method_of_obj(o, name) {
            Err(e) => Err(e),
            Ok(None) => Err(RuntimeError::NoSuchMethod),
            Ok(Some(m)) => self.leaf_call(m, o, ans),
        }
    }

    /// The float query of `call_named(o, name, _)`.
    fn call_named_query(&self, o: MemoryAddress, name: &str) -> (r: Option<FloatQuery>)
        requires
            rt_wf(self@),
        ensures
            query_view(r) == call_named_query(self@, o, name@),
    {
        match self.method_of_obj(o, name) {
            Ok(Some(m)) => self.leaf_call_query(m, o),
            _ => None,
        }
    }
}


fn exec_logic(code: NativeFunction, a: bool, b: bool) -> (r: bool)
    ensures
        r == logic(code, a, b),
{
    match code {
        NativeFunction::BoolAnd => a && b,
        NativeFunction::BoolOr => a || b,
        _ => a != b,
    }
}

fn exec_logic_pick(code: NativeFunction, result: bool, this: MemoryAddress, other: MemoryAddress) -> (r: MemoryAddress)
    ensures
        r == logic_pick(code, result, this, other),
{
    match code {
        NativeFunction::BoolAnd => if result {
            other
        } else {
            this
        },
        _ => if result {
            this
        } else {
            other
        },
    }
}

impl Runtime {
    /// `and`, `or` or `xor` of the bool at `this` (holding `a`) and the object at `o`.
    fn bool_logic(
        &mut self,
        code: NativeFunction,
        this: MemoryAddress,
        a: i128,
        o: MemoryAddress,
        ans: &FloatAnswer,
    ) -> (r: Result<MemoryAddress, RuntimeError>)
        requires
            rt_wf(old(self)@),
        ensures
            rt_wf(final(self)@),
            (final(self)@, r) == bool_logic(old(self)@, code, this, a, o, ans@),
    {
        match self.get_pyobj_type_addr(o) {
            Err(e) => Err(e),
            Ok(t) => if t == self.builtin_type_addrs.boolean {
                match self.get_int(o) {
                    Err(e) => Err(e),
                    Ok(b) => Ok(self.bool_addr(exec_logic(code, a != 0, b != 0))),
                }
            } else {
                match self.method_of_obj(o, "__bool__") {
                    Err(e) => Err(e),
                    Ok(None) => Ok(self.special_values.not_implemented_value),
                    Ok(Some(m)) => match self.leaf_call(m, o, ans) {
                        Err(e) => Err(e),
                        Ok(rb) => match self.get_pyobj_type_addr(rb) {
                            Err(e) => Err(e),
                            Ok(tb) => if tb != self.builtin_type_addrs.boolean {
                                Err(RuntimeError::UnsupportedOperand)
                            } else {
                                match self.get_int(rb) {
                                    Err(e) => Err(e),
                                    Ok(b) => Ok(exec_logic_pick(code, exec_logic(code, a != 0, b != 0), this, o)),
                                }
                            },
                        },
                    },
                }
            },
        }
    }

    /// The float query of `bool_logic(.., o, _)`.
    fn bool_logic_query(&self, o: MemoryAddress) -> (r: Option<FloatQuery>)
        requires
            rt_wf(self@),
        ensures
            query_view(r) == bool_logic_query(self@, o),
    {
        match self.get_pyobj_type_addr(o) {
            Err(_) => None,
            Ok(t) => if t == self.builtin_type_addrs.boolean {
                None
            } else {
                self.call_named_query(o, "__bool__")
            },
        }
    }

    /// The result of the native function `code`, given the host's answer to its float query.
    pub fn finish_native(
        &mut self,
        code: NativeFunction,
        bound: Option<MemoryAddress>,
        args: &Vec<MemoryAddress>,
        ans: &FloatAnswer,
    ) -> (r: Result<MemoryAddress, RuntimeError>)
        requires
            rt_wf(old(self)@),
        ensures
            rt_wf(final(self)@),
            (final(self)@, r) == spec_native(old(self)@, code, bound, args@, ans@),
    {
        match code {
            NativeFunction::Print => {
                if args.len() != 1 {
                    return Err(RuntimeError::ArgumentCount { expected: 1, got: args.len() });
                }
                match self.call_named(args[0], "__str__", ans) {
                    Err(e) => Err(e),
                    Ok(r) => match self.get_str(r) {
                        Err(_) => Err(RuntimeError::UnsupportedOperand),
                        Ok(text) => {
                            let none_value = self.special_values.none_value;
                            self.print(text);
                            Ok(none_value)
                        },
                    },
                }
            },
            NativeFunction::Len => {
                if args.len() != 1 {
                    return Err(RuntimeError::ArgumentCount { expected: 1, got: args.len() });
                }
                self.call_named(args[0], "__len__", ans)
            },
            NativeFunction::Panic => {
                if args.len() != 1 {
                    return Err(RuntimeError::ArgumentCount { expected: 1, got: args.len() });
                }
                match self.call_named(args[0], "__str__", ans) {
                    Err(e) => Err(e),
                    Ok(r) => match self.get_str(r) {
                        Err(_) => Err(RuntimeError::ProgramPanicked),
                        Ok(text) => {
                            self.print(text);
                            Err(RuntimeError::ProgramPanicked)
                        },
                    },
                }
            },
            NativeFunction::StrNew => {
                if args.len() == 0 {
                    let ty = self.builtin_type_addrs.string;
                    let empty = String::new();
                    assert(empty@ =~= Seq::<char>::empty());
                    self.allocate_type_byaddr_raw(ty, BuiltInTypeData::String(empty))
                } else if args.len() == 1 {
                    self.call_named(args[0], "__str__", ans)
                } else {
                    Err(RuntimeError::ArgumentCount { expected: 1, got: args.len() })
                }
            },
            NativeFunction::BoolAnd | NativeFunction::BoolOr | NativeFunction::BoolXor => match bound {
                None => Err(RuntimeError::UnsupportedOperand),
                Some(this) => {
                    if args.len() != 1 {
                        return Err(RuntimeError::ArgumentCount { expected: 1, got: args.len() });
                    }
                    match self.get_int(this) {
                        Err(e) => Err(e),
                        Ok(a) => self.bool_logic(code, this, a, args[0], ans),
                    }
                },
            },
            _ => self.finish_leaf(code, bound, args, ans),
        }
    }

    /// The float query that the native function `code` makes, when it makes one.
    pub fn native_query(&self, code: NativeFunction, bound: Option<MemoryAddress>, args: &Vec<MemoryAddress>) -> (r:
        Option<FloatQuery>)
        requires
            rt_wf(self@),
        ensures
            query_view(r) == spec_native_query(self@, code, bound, args@),
    {
        match code {
            NativeFunction::Print | NativeFunction::Len | NativeFunction::Panic => {
                if args.len() != 1 {
                    return None;
                }
                if code != NativeFunction::Len {
                    self.call_named_query(args[0], "__str__")
                } else {
                    self.call_named_query(args[0], "__len__")
                }
            },
            NativeFunction::StrNew => if args.len() == 1 {
                self.call_named_query(args[0], "__str__")
            } else {
                None
            },
            NativeFunction::BoolAnd | NativeFunction::BoolOr | NativeFunction::BoolXor => match bound {
                None => None,
                Some(this) => {
                    if args.len() != 1 {
                        return None;
                    }
                    match self.get_int(this) {
                        Err(_) => None,
                        Ok(_) => self.bool_logic_query(args[0]),
                    }
                },
            },
            _ => self.leaf_query(code, bound, args),
        }
    }

    /// Runs the native function `code`: asks the host its float query, if it
    /// makes one, and goes on with the answer.
    pub fn call_native<H: FloatHost>(
        &mut self,
        code: NativeFunction,
        bound: Option<MemoryAddress>,
        args: &Vec<MemoryAddress>,
        host: &H,
    ) -> (r: Result<MemoryAddress, RuntimeError>)
        requires
            rt_wf(old(self)@),
        ensures
            rt_wf(final(self)@),
            exists|ans: FloatAnswerModel| (final(self)@, r) == #[trigger] spec_native(old(self)@, code, bound, args@, ans),
    {
        let ans = match self.native_query(code, bound, args) {
            Some(q) => host.compute(&q),
            None => FloatAnswer::Failed,
        };
        let r = self.finish_native(code, bound, args, &ans);
        assert((self@, r) == spec_native(old(self)@, code, bound, args@, ans@));
        r
    }
}

} // verus!
