//! The runtime: memory, the special objects, the modules, the stack frames
//! with their operand stacks and locals, the program counter and the text
//! that the program printed.

use vstd::prelude::*;
use vstd::string::*;
use crate::runtime::error::RuntimeError;
use crate::runtime::memory::{
    CellModel, Memory, MemoryModel, MemoryStatistics, mem_get, mem_wf, spec_allocate,
    spec_deallocate, spec_make_const, spec_statistics, spec_write, lemma_allocate, lemma_deallocate,
    lemma_update_live,
};
use crate::runtime::namespace::{MemoryAddress, Namespace, NamespaceModel, is_first_index, ns_get, ns_insert};
use crate::lexer::Float;
use crate::runtime::object::{
    BuiltInTypeData, DataModel, NativeFunction, ObjModel, PyObject, PyObjectStructure, StructureModel, type_obj,
    builtin_obj,
};

verus! {

/// The name of the module that holds the builtin types and functions.
pub const BUILTIN_MODULE: &'static str = "__builtin__";

/// The name of the module of the running program.
pub const MAIN_MODULE: &'static str = "__main__";

/// A stack frame: its locals by name and its operand stack.
pub struct StackFrame {
    pub values: Namespace,
    pub stack: Vec<MemoryAddress>,
    pub current_function: MemoryAddress,
}

/// The value of a stack frame.
pub struct FrameModel {
    pub values: NamespaceModel,
    pub stack: Seq<MemoryAddress>,
    pub current_function: MemoryAddress,
}

impl View for StackFrame {
    type V = FrameModel;

    open spec fn view(&self) -> FrameModel {
        FrameModel {
            values: self.values@,
            stack: self.stack@,
            current_function: self.current_function,
        }
    }
}

/// The objects that the runtime creates first.
#[derive(Debug, Clone, Copy, PartialEq, Eq, Structural)]
pub enum SpecialValue {
    Type,
    NoneType,
    NoneValue,
    NotImplementedType,
    NotImplementedValue,
    StopIterationType,
    StopIterationValue,
    CallableType,
    ModuleType,
}

/// The addresses of the special objects.
#[derive(Debug, Clone, Copy, PartialEq, Eq, Structural)]
pub struct SpecialValues {
    pub type_type: MemoryAddress,
    pub none_type: MemoryAddress,
    pub none_value: MemoryAddress,
    pub not_implemented_type: MemoryAddress,
    pub not_implemented_value: MemoryAddress,
    pub stop_iteration_type: MemoryAddress,
    pub stop_iteration_value: MemoryAddress,
    pub callable_type: MemoryAddress,
    pub module_type: MemoryAddress,
}

impl SpecialValues {
    pub open spec fn spec_get(self, which: SpecialValue) -> MemoryAddress {
        match which {
            SpecialValue::Type => self.type_type,
            SpecialValue::NoneType => self.none_type,
            SpecialValue::NoneValue => self.none_value,
            SpecialValue::NotImplementedType => self.not_implemented_type,
            SpecialValue::NotImplementedValue => self.not_implemented_value,
            SpecialValue::StopIterationType => self.stop_iteration_type,
            SpecialValue::StopIterationValue => self.stop_iteration_value,
            SpecialValue::CallableType => self.callable_type,
            SpecialValue::ModuleType => self.module_type,
        }
    }

    /// The address of a special object.
    pub fn get(&self, which: SpecialValue) -> (r: MemoryAddress)
        ensures
            r == self.spec_get(which),
    {
        match which {
            SpecialValue::Type => self.type_type,
            SpecialValue::NoneType => self.none_type,
            SpecialValue::NoneValue => self.none_value,
            SpecialValue::NotImplementedType => self.not_implemented_type,
            SpecialValue::NotImplementedValue => self.not_implemented_value,
            SpecialValue::StopIterationType => self.stop_iteration_type,
            SpecialValue::StopIterationValue => self.stop_iteration_value,
            SpecialValue::CallableType => self.callable_type,
            SpecialValue::ModuleType => self.module_type,
        }
    }
}

/// The addresses of the builtin types and of the two booleans.
#[derive(Debug, Clone, Copy, PartialEq, Eq, Structural)]
pub struct BuiltinTypeAddresses {
    pub int: MemoryAddress,
    pub float: MemoryAddress,
    pub boolean: MemoryAddress,
    pub string: MemoryAddress,
    pub list: MemoryAddress,
    pub true_val: MemoryAddress,
    pub false_val: MemoryAddress,
}

/// The runtime.
pub struct Runtime {
    pub program_consts: Vec<MemoryAddress>,
    pub stack: Vec<StackFrame>,
    pub memory: Memory,
    pub builtin_type_addrs: BuiltinTypeAddresses,
    pub special_values: SpecialValues,
    pub modules: Namespace,
    pub prog_counter: usize,
    pub output: Vec<String>,
}

/// The value of the runtime.
pub struct RuntimeModel {
    pub consts: Seq<MemoryAddress>,
    pub frames: Seq<FrameModel>,
    pub mem: MemoryModel,
    pub builtins: BuiltinTypeAddresses,
    pub special: SpecialValues,
    pub modules: NamespaceModel,
    pub pc: usize,
    pub output: Seq<Seq<char>>,
}

impl View for Runtime {
    type V = RuntimeModel;

    open spec fn view(&self) -> RuntimeModel {
        RuntimeModel {
            consts: self.program_consts@,
            frames: self.stack@.map_values(|f: StackFrame| f@),
            mem: self.memory@,
            builtins: self.builtin_type_addrs,
            special: self.special_values,
            modules: self.modules@,
            pc: self.prog_counter,
            output: self.output@.map_values(|s: String| s@),
        }
    }
}

/// The runtime is consistent: its memory is.
pub open spec fn rt_wf(s: RuntimeModel) -> bool {
    mem_wf(s.mem)
}

/// The live object at `a`.
pub open spec fn rt_get(s: RuntimeModel, a: MemoryAddress) -> Option<ObjModel> {
    mem_get(s.mem, a as int)
}

/// The runtime with memory `m`.
pub open spec fn with_mem(s: RuntimeModel, m: MemoryModel) -> RuntimeModel {
    RuntimeModel { mem: m, ..s }
}

/// Allocation of `obj`, unless memory has no room for one more cell.
pub open spec fn rt_alloc(s: RuntimeModel, obj: ObjModel) -> (RuntimeModel, Result<MemoryAddress, RuntimeError>) {
    if s.mem.free.len() == 0 && s.mem.cells.len() >= usize::MAX {
        (s, Err(RuntimeError::OutOfMemory))
    } else {
        let (m, a) = spec_allocate(s.mem, obj);
        (with_mem(s, m), Ok(a))
    }
}

/// Replacing the live object at `a` by `obj`.
pub open spec fn rt_write(s: RuntimeModel, a: MemoryAddress, obj: ObjModel) -> (RuntimeModel, Result<(), RuntimeError>) {
    match spec_write(s.mem, a, obj) {
        Ok(m) => (with_mem(s, m), Ok(())),
        Err(e) => (s, Err(e)),
    }
}

/// The runtime with the last frame replaced by `f`.
pub open spec fn with_top_frame(s: RuntimeModel, f: FrameModel) -> RuntimeModel {
    RuntimeModel { frames: s.frames.update(s.frames.len() - 1, f), ..s }
}

/// Pushing `a` onto the operand stack of the last frame.
pub open spec fn rt_push(s: RuntimeModel, a: MemoryAddress) -> (RuntimeModel, Result<(), RuntimeError>) {
    if s.frames.len() == 0 {
        (s, Err(RuntimeError::NoStackFrame))
    } else {
        let f = s.frames.last();
        (with_top_frame(s, FrameModel { stack: f.stack.push(a), ..f }), Ok(()))
    }
}

/// Popping the top of the operand stack of the last frame.
pub open spec fn rt_pop(s: RuntimeModel) -> (RuntimeModel, Result<MemoryAddress, RuntimeError>) {
    if s.frames.len() == 0 {
        (s, Err(RuntimeError::NoStackFrame))
    } else if s.frames.last().stack.len() == 0 {
        (s, Err(RuntimeError::EmptyStack))
    } else {
        let f = s.frames.last();
        (with_top_frame(s, FrameModel { stack: f.stack.drop_last(), ..f }), Ok(f.stack.last()))
    }
}

/// The top of the operand stack of the last frame.
pub open spec fn rt_top(s: RuntimeModel) -> Result<MemoryAddress, RuntimeError> {
    rt_pop(s).1
}

/// The entry of the operand stack of the last frame at `offset` from its top
/// (zero is the top, negative offsets go down).
pub open spec fn rt_stack_at(s: RuntimeModel, offset: int) -> Result<MemoryAddress, RuntimeError> {
    if s.frames.len() == 0 {
        Err(RuntimeError::NoStackFrame)
    } else {
        let stack = s.frames.last().stack;
        let index = stack.len() - 1 + offset;
        if 0 <= index < stack.len() {
            Ok(stack[index])
        } else {
            Err(RuntimeError::NoSuchStackEntry)
        }
    }
}

/// One more reference counted on the object at `a`; objects of other kinds keep no count.
pub open spec fn rt_incref(s: RuntimeModel, a: MemoryAddress) -> (RuntimeModel, Result<(), RuntimeError>) {
    match rt_get(s, a) {
        None => (s, Err(RuntimeError::InvalidAddress(a))),
        Some(obj) => match obj.structure {
            StructureModel::Object { raw, refcount } => if refcount == usize::MAX {
                (s, Err(RuntimeError::Overflow))
            } else {
                rt_write(
                    s,
                    a,
                    ObjModel {
                        type_addr: obj.type_addr,
                        structure: StructureModel::Object { raw, refcount: (refcount + 1) as usize },
                    },
                )
            },
            _ => (s, Ok(())),
        },
    }
}

/// One reference fewer on the object at `a` (a count never goes below zero);
/// an object left with none is freed.
pub open spec fn rt_decref(s: RuntimeModel, a: MemoryAddress) -> (RuntimeModel, Result<(), RuntimeError>) {
    match rt_get(s, a) {
        None => (s, Err(RuntimeError::InvalidAddress(a))),
        Some(obj) => match obj.structure {
            StructureModel::Object { raw, refcount } => {
                let count = if refcount > 0 {
                    (refcount - 1) as usize
                } else {
                    0usize
                };
                let (s1, r1) = rt_write(
                    s,
                    a,
                    ObjModel {
                        type_addr: obj.type_addr,
                        structure: StructureModel::Object { raw, refcount: count },
                    },
                );
                if count == 0 {
                    match spec_deallocate(s1.mem, a) {
                        Ok(m) => (with_mem(s1, m), Ok(())),
                        Err(e) => (s1, Err(e)),
                    }
                } else {
                    (s1, r1)
                }
            },
            _ => (s, Ok(())),
        },
    }
}

/// One reference fewer on each of `addrs`, in order, stopping at the first error.
pub open spec fn rt_decref_all(s: RuntimeModel, addrs: Seq<MemoryAddress>) -> (RuntimeModel, Result<(), RuntimeError>)
    decreases addrs.len(),
{
    if addrs.len() == 0 {
        (s, Ok(()))
    } else {
        let (s1, r1) = rt_decref_all(s, addrs.drop_last());
        match r1 {
            Err(e) => (s1, Err(e)),
            Ok(_) => rt_decref(s1, addrs.last()),
        }
    }
}

/// One reference more on each of `addrs`, in order, stopping at the first error.
pub open spec fn rt_incref_all(s: RuntimeModel, addrs: Seq<MemoryAddress>) -> (RuntimeModel, Result<(), RuntimeError>)
    decreases addrs.len(),
{
    if addrs.len() == 0 {
        (s, Ok(()))
    } else {
        let (s1, r1) = rt_incref_all(s, addrs.drop_last());
        match r1 {
            Err(e) => (s1, Err(e)),
            Ok(_) => rt_incref(s1, addrs.last()),
        }
    }
}

/// A new, empty stack frame on top.
pub open spec fn rt_new_frame(s: RuntimeModel) -> RuntimeModel {
    RuntimeModel {
        frames: s.frames.push(FrameModel { values: Seq::empty(), stack: Seq::empty(), current_function: 0 }),
        ..s
    }
}

/// The last frame removed, with one reference fewer on each address left on its operand stack.
pub open spec fn rt_pop_frame(s: RuntimeModel) -> (RuntimeModel, Result<(), RuntimeError>) {
    if s.frames.len() == 0 {
        (s, Err(RuntimeError::NoStackFrame))
    } else {
        let f = s.frames.last();
        rt_decref_all(RuntimeModel { frames: s.frames.drop_last(), ..s }, f.stack)
    }
}

/// The address bound to the local `name` in the last frame.
pub open spec fn rt_get_local(s: RuntimeModel, name: Seq<char>) -> Result<Option<MemoryAddress>, RuntimeError> {
    if s.frames.len() == 0 {
        Err(RuntimeError::NoStackFrame)
    } else {
        Ok(ns_get(s.frames.last().values, name))
    }
}

/// The local `name` of the last frame bound to `a`.
pub open spec fn rt_bind_local(s: RuntimeModel, name: Seq<char>, a: MemoryAddress) -> (RuntimeModel, Result<(), RuntimeError>) {
    if s.frames.len() == 0 {
        (s, Err(RuntimeError::NoStackFrame))
    } else {
        let f = s.frames.last();
        (with_top_frame(s, FrameModel { values: ns_insert(f.values, name, a), ..f }), Ok(()))
    }
}

/// The method `name` of the type at `t`: its own, else its supertype's, following
/// at most `fuel` supertypes.
pub open spec fn lookup_method(m: MemoryModel, t: MemoryAddress, name: Seq<char>, fuel: nat) -> Result<
    Option<MemoryAddress>,
    RuntimeError,
>
    decreases fuel,
{
    match mem_get(m, t as int) {
        None => Err(RuntimeError::InvalidAddress(t)),
        Some(obj) => match obj.structure {
            StructureModel::Type { methods, supertype, .. } => match ns_get(methods, name) {
                Some(a) => Ok(Some(a)),
                None => match supertype {
                    None => Ok(None),
                    Some(sup) => if fuel == 0 {
                        Ok(None)
                    } else {
                        lookup_method(m, sup, name, (fuel - 1) as nat)
                    },
                },
            },
            _ => Ok(None),
        },
    }
}

/// The method `name` of the type at `t`, searched along its chain of supertypes,
/// which in a memory of n cells is at most n long unless it loops.
pub open spec fn rt_method_of(s: RuntimeModel, t: MemoryAddress, name: Seq<char>) -> Result<Option<MemoryAddress>, RuntimeError> {
    lookup_method(s.mem, t, name, s.mem.cells.len())
}

/// The address of the module object `module`.
pub open spec fn rt_find_module(s: RuntimeModel, module: Seq<char>) -> Result<MemoryAddress, RuntimeError> {
    match ns_get(s.modules, module) {
        None => Err(RuntimeError::UnknownModule),
        Some(a) => match rt_get(s, a) {
            None => Err(RuntimeError::InvalidAddress(a)),
            Some(obj) => match obj.structure {
                StructureModel::Module { .. } => Ok(a),
                _ => Err(RuntimeError::NotAModule(a)),
            },
        },
    }
}

/// The object bound to `name` in the module `module`.
pub open spec fn rt_find_in_module(s: RuntimeModel, module: Seq<char>, name: Seq<char>) -> Result<
    Option<MemoryAddress>,
    RuntimeError,
> {
    match rt_find_module(s, module) {
        Err(e) => Err(e),
        Ok(a) => match rt_get(s, a).unwrap().structure {
            StructureModel::Module { objects, .. } => Ok(ns_get(objects, name)),
            _ => Err(RuntimeError::NotAModule(a)),
        },
    }
}

/// Which name table of an object a binding goes to.
#[derive(Debug, Clone, Copy, PartialEq, Eq, Structural)]
pub enum Table {
    ModuleObjects,
    TypeMethods,
    TypeFunctions,
}

/// The object `obj` with `name` bound to `value` in its table `table`.
pub open spec fn obj_with_binding(obj: ObjModel, table: Table, name: Seq<char>, value: MemoryAddress) -> Result<
    ObjModel,
    RuntimeError,
> {
    match (table, obj.structure) {
        (Table::ModuleObjects, StructureModel::Module { name: n, objects }) => Ok(
            ObjModel {
                type_addr: obj.type_addr,
                structure: StructureModel::Module { name: n, objects: ns_insert(objects, name, value) },
            },
        ),
        (Table::TypeMethods, StructureModel::Type { name: n, methods, functions, supertype }) => Ok(
            ObjModel {
                type_addr: obj.type_addr,
                structure: StructureModel::Type {
                    name: n,
                    methods: ns_insert(methods, name, value),
                    functions,
                    supertype,
                },
            },
        ),
        (Table::TypeFunctions, StructureModel::Type { name: n, methods, functions, supertype }) => Ok(
            ObjModel {
                type_addr: obj.type_addr,
                structure: StructureModel::Type {
                    name: n,
                    methods,
                    functions: ns_insert(functions, name, value),
                    supertype,
                },
            },
        ),
        (Table::ModuleObjects, _) => Err(RuntimeError::NotAModule(0)),
        (_, _) => Err(RuntimeError::NotAType(0)),
    }
}

/// `name` bound to `value` in the table `table` of the object at `a`.
pub open spec fn rt_bind_in(s: RuntimeModel, a: MemoryAddress, table: Table, name: Seq<char>, value: MemoryAddress) -> (
    RuntimeModel,
    Result<(), RuntimeError>,
) {
    match rt_get(s, a) {
        None => (s, Err(RuntimeError::InvalidAddress(a))),
        Some(obj) => match obj_with_binding(obj, table, name, value) {
            Err(e) => (
                s,
                Err(
                    if table == Table::ModuleObjects {
                        RuntimeError::NotAModule(a)
                    } else {
                        RuntimeError::NotAType(a)
                    },
                ),
            ),
            Ok(o) => rt_write(s, a, o),
        },
    }
}

/// The object at `addr` added to the module `module` under `name`, which must be new there.
pub open spec fn rt_add_to_module(s: RuntimeModel, module: Seq<char>, name: Seq<char>, addr: MemoryAddress) -> (
    RuntimeModel,
    Result<(), RuntimeError>,
) {
    match rt_find_in_module(s, module, name) {
        Err(e) => (s, Err(e)),
        Ok(Some(_)) => (s, Err(RuntimeError::NameExists)),
        Ok(None) => rt_bind_in(s, rt_find_module(s, module)->Ok_0, Table::ModuleObjects, name, addr),
    }
}

/// A new type `name` with supertype `supertype`, added to the module `module`.
pub open spec fn rt_create_type(
    s: RuntimeModel,
    module: Seq<char>,
    name: Seq<char>,
    supertype: Option<MemoryAddress>,
) -> (RuntimeModel, Result<MemoryAddress, RuntimeError>) {
    let (s1, r1) = rt_alloc(s, type_obj(s.special.type_type, name, supertype));
    match r1 {
        Err(e) => (s1, Err(e)),
        Ok(t) => {
            let (s2, r2) = rt_add_to_module(s1, module, name, t);
            match r2 {
                Err(e) => (s2, Err(e)),
                Ok(_) => (s2, Ok(t)),
            }
        },
    }
}

/// A native function object.
pub open spec fn callable_obj(s: RuntimeModel, code: NativeFunction, name: Option<Seq<char>>) -> ObjModel {
    ObjModel {
        type_addr: s.special.callable_type,
        structure: StructureModel::NativeCallable { code, name },
    }
}

/// A new function object with native code `code`, bound under `name` in the
/// table `table` of the type at `t`.
pub open spec fn rt_register(s: RuntimeModel, t: MemoryAddress, table: Table, name: Seq<char>, code: NativeFunction) -> (
    RuntimeModel,
    Result<(), RuntimeError>,
) {
    let (s1, r1) = rt_alloc(s, callable_obj(s, code, Some(name)));
    match r1 {
        Err(e) => (s1, Err(e)),
        Ok(f) => rt_bind_in(s1, t, table, name, f),
    }
}

/// The data of the builtin object at `a`.
pub open spec fn rt_raw(s: RuntimeModel, a: MemoryAddress) -> Result<DataModel, RuntimeError> {
    match rt_get(s, a) {
        None => Err(RuntimeError::InvalidAddress(a)),
        Some(obj) => match obj.structure {
            StructureModel::Object { raw, .. } => Ok(raw),
            _ => Err(RuntimeError::NotAnObject(a)),
        },
    }
}

/// The type address of the object at `a`.
pub open spec fn rt_type_of(s: RuntimeModel, a: MemoryAddress) -> Result<MemoryAddress, RuntimeError> {
    match rt_get(s, a) {
        None => Err(RuntimeError::InvalidAddress(a)),
        Some(obj) => Ok(obj.type_addr),
    }
}

/// The runtime with `text` printed.
pub open spec fn rt_print(s: RuntimeModel, text: Seq<char>) -> RuntimeModel {
    RuntimeModel { output: s.output.push(text), ..s }
}

/// Allocation keeps the runtime consistent and leaves every other live object as it was.
pub proof fn lemma_rt_alloc(s: RuntimeModel, obj: ObjModel)
    requires
        rt_wf(s),
    ensures
        rt_wf(rt_alloc(s, obj).0),
        rt_alloc(s, obj).1 matches Ok(a) ==> rt_get(rt_alloc(s, obj).0, a) == Some(obj) && rt_get(s, a) is None,
        rt_alloc(s, obj).1 matches Ok(a) ==> forall|b: MemoryAddress| b != a ==> rt_get(rt_alloc(s, obj).0, b) == rt_get(s, b),
{
    if !(s.mem.free.len() == 0 && s.mem.cells.len() >= usize::MAX) {
        lemma_allocate(s.mem, obj);
        let a = spec_allocate(s.mem, obj).1;
        assert forall|b: MemoryAddress| b != a implies rt_get(rt_alloc(s, obj).0, b) == rt_get(s, b) by {
            assert(b as int != a as int);
        }
    }
}

/// Writing keeps the runtime consistent.
pub proof fn lemma_rt_write(s: RuntimeModel, a: MemoryAddress, obj: ObjModel)
    requires
        rt_wf(s),
    ensures
        rt_wf(rt_write(s, a, obj).0),
{
    if spec_write(s.mem, a, obj) is Ok {
        lemma_update_live(s.mem, a as int, CellModel { data: Some(obj), ..s.mem.cells[a as int] });
    }
}

/// Taking a reference off an object keeps the runtime consistent.
pub proof fn lemma_rt_decref_wf(s: RuntimeModel, a: MemoryAddress)
    requires
        rt_wf(s),
    ensures
        rt_wf(rt_decref(s, a).0),
{
    if let Some(obj) = rt_get(s, a) {
        if let StructureModel::Object { raw, refcount } = obj.structure {
            let count = if refcount > 0 {
                (refcount - 1) as usize
            } else {
                0usize
            };
            let o2 = ObjModel { type_addr: obj.type_addr, structure: StructureModel::Object { raw, refcount: count } };
            lemma_rt_write(s, a, o2);
            let s1 = rt_write(s, a, o2).0;
            if count == 0 && spec_deallocate(s1.mem, a) is Ok {
                lemma_deallocate(s1.mem, a);
            }
        }
    }
}

/// Taking a reference off a live object succeeds and leaves every other
/// object as it was.
pub proof fn lemma_decref_other(s: RuntimeModel, a: MemoryAddress, b: MemoryAddress)
    requires
        rt_wf(s),
        rt_get(s, a) is Some,
        b != a,
    ensures
        rt_decref(s, a).1 is Ok,
        rt_get(rt_decref(s, a).0, b) == rt_get(s, b),
{
    let obj = rt_get(s, a).unwrap();
    if let StructureModel::Object { raw, refcount } = obj.structure {
        let count = if refcount > 0 {
            (refcount - 1) as usize
        } else {
            0usize
        };
        let o2 = ObjModel { type_addr: obj.type_addr, structure: StructureModel::Object { raw, refcount: count } };
        lemma_rt_write(s, a, o2);
        let s1 = rt_write(s, a, o2).0;
        assert(rt_get(s1, b) == rt_get(s, b));
        if count == 0 {
            assert(spec_deallocate(s1.mem, a) is Ok);
            lemma_deallocate(s1.mem, a);
        }
    }
}

impl Runtime {
    /// Allocates `obj` and returns its address.
    pub fn allocate_and_write(&mut self, obj: PyObject) -> (r: Result<MemoryAddress, RuntimeError>)
        requires
            rt_wf(old(self)@),
        ensures
            rt_wf(final(self)@),
            (final(self)@, r) == rt_alloc(old(self)@, obj@),
    {
        proof {
            lemma_rt_alloc(self@, obj@);
        }
        if self.memory.recently_deallocated_indexes.len() == 0 && self.memory.memory.len() == usize::MAX {
            return Err(RuntimeError::OutOfMemory);
        }
        let a = self.memory.allocate_and_write(obj);
        Ok(a)
    }

    /// The live object at `addr`.
    pub fn get_pyobj_byaddr(&self, addr: MemoryAddress) -> (r: Result<&PyObject, RuntimeError>)
        requires
            rt_wf(self@),
        ensures
            match r {
                Ok(o) => rt_get(self@, addr) == Some(o@),
                Err(e) => rt_get(self@, addr) is None && e == RuntimeError::InvalidAddress(addr),
            },
    {
        self.memory.get(addr)
    }

    /// Replaces the live object at `addr`.
    pub fn write(&mut self, addr: MemoryAddress, obj: PyObject) -> (r: Result<(), RuntimeError>)
        requires
            rt_wf(old(self)@),
        ensures
            rt_wf(final(self)@),
            (final(self)@, r) == rt_write(old(self)@, addr, obj@),
    {
        let ghost o = obj@;
        let r = self.memory.write(addr, obj);
        proof {
            lemma_rt_write(old(self)@, addr, o);
            match spec_write(old(self)@.mem, addr, o) {
                Ok(m) => {
                    assert(self@ == with_mem(old(self)@, m));
                    assert(r == Ok::<(), RuntimeError>(()));
                },
                Err(e) => {
                    assert(self@ == old(self)@);
                },
            }
        }
        r
    }

    /// Makes the live cell `addr` constant.
    pub fn make_const(&mut self, addr: MemoryAddress) -> (r: Result<(), RuntimeError>)
        requires
            rt_wf(old(self)@),
        ensures
            rt_wf(final(self)@),
            match spec_make_const(old(self)@.mem, addr) {
                Ok(m) => r == Ok::<(), RuntimeError>(()) && final(self)@ == with_mem(old(self)@, m),
                Err(e) => r == Err::<(), RuntimeError>(e) && final(self)@ == old(self)@,
            },
    {
        self.memory.make_const(addr)
    }

    /// How many cells exist and how many hold a live object.
    pub fn get_statistics(&self) -> (r: MemoryStatistics)
        requires
            rt_wf(self@),
        ensures
            r == spec_statistics(self@.mem),
    {
        self.memory.get_statistics()
    }

    /// A new, empty stack frame on top.
    pub fn new_stack_frame(&mut self)
        ensures
            final(self)@.mem == old(self)@.mem,
            final(self)@ == rt_new_frame(old(self)@),
    {
        self.stack.push(StackFrame { values: Namespace::new(), stack: Vec::new(), current_function: 0 });
        assert(self@.frames =~= rt_new_frame(old(self)@).frames);
    }

    /// Pushes `value` onto the operand stack of the last frame.
    pub fn push_onto_stack(&mut self, value: MemoryAddress) -> (r: Result<(), RuntimeError>)
        ensures
            final(self)@.mem == old(self)@.mem,
            (final(self)@, r) == rt_push(old(self)@, value),
    {
        let n = self.stack.len();
        if n == 0 {
            return Err(RuntimeError::NoStackFrame);
        }
        self.stack[n - 1].stack.push(value);
        assert(self@.frames =~= rt_push(old(self)@, value).0.frames);
        Ok(())
    }

    /// Pops the top of the operand stack of the last frame.
    pub fn pop_stack(&mut self) -> (r: Result<MemoryAddress, RuntimeError>)
        ensures
            final(self)@.mem == old(self)@.mem,
            (final(self)@, r) == rt_pop(old(self)@),
    {
        let n = self.stack.len();
        if n == 0 {
            return Err(RuntimeError::NoStackFrame);
        }
        match self.stack[n - 1].stack.pop() {
            Some(a) => {
                assert(self@.frames =~= rt_pop(old(self)@).0.frames);
                Ok(a)
            },
            None => {
                assert(self@.frames =~= old(self)@.frames);
                Err(RuntimeError::EmptyStack)
            },
        }
    }

    /// The top of the operand stack of the last frame.
    pub fn top_stack(&self) -> (r: Result<MemoryAddress, RuntimeError>)
        ensures
            r == rt_top(self@),
    {
        let n = self.stack.len();
        if n == 0 {
            return Err(RuntimeError::NoStackFrame);
        }
        let m = self.stack[n - 1].stack.len();
        if m == 0 {
            return Err(RuntimeError::EmptyStack);
        }
        Ok(self.stack[n - 1].stack[m - 1])
    }

    /// The entry of the operand stack of the last frame at `offset` from its top.
    pub fn get_stack_offset(&self, offset: isize) -> (r: Result<MemoryAddress, RuntimeError>)
        ensures
            r == rt_stack_at(self@, offset as int),
    {
        let n = self.stack.len();
        if n == 0 {
            return Err(RuntimeError::NoStackFrame);
        }
        let m = self.stack[n - 1].stack.len();
        if offset > 0 {
            return Err(RuntimeError::NoSuchStackEntry);
        }
        let down: usize = if offset == isize::MIN {
            (isize::MAX as usize) + 1
        } else {
            (-offset) as usize
        };
        if m == 0 || down > m - 1 {
            return Err(RuntimeError::NoSuchStackEntry);
        }
        Ok(self.stack[n - 1].stack[m - 1 - down])
    }

    /// The address bound to the local `name` of the last frame.
    pub fn get_local(&self, name: &str) -> (r: Result<Option<MemoryAddress>, RuntimeError>)
        ensures
            r == rt_get_local(self@, name@),
    {
        let n = self.stack.len();
        if n == 0 {
            return Err(RuntimeError::NoStackFrame);
        }
        Ok(self.stack[n - 1].values.get(name))
    }

    /// Binds the local `name` of the last frame to `addr`.
    pub fn bind_local(&mut self, name: &str, addr: MemoryAddress) -> (r: Result<(), RuntimeError>)
        ensures
            final(self)@.mem == old(self)@.mem,
            (final(self)@, r) == rt_bind_local(old(self)@, name@, addr),
    {
        let n = self.stack.len();
        if n == 0 {
            return Err(RuntimeError::NoStackFrame);
        }
        self.stack[n - 1].values.insert(name, addr);
        assert(self@.frames =~= rt_bind_local(old(self)@, name@, addr).0.frames);
        Ok(())
    }

    /// The program counter.
    pub fn get_pc(&self) -> (r: usize)
        ensures
            r == self@.pc,
    {
        self.prog_counter
    }

    /// Sets the program counter and returns it.
    pub fn set_pc(&mut self, pc: usize) -> (r: usize)
        ensures
            final(self)@ == (RuntimeModel { pc, ..old(self)@ }),
            r == pc,
    {
        self.prog_counter = pc;
        pc
    }

    /// Moves the program counter by `delta` and returns it.
    pub fn jump_pc(&mut self, delta: isize) -> (r: Result<usize, RuntimeError>)
        ensures
            0 <= old(self)@.pc + delta <= usize::MAX ==> r == Ok::<usize, RuntimeError>(
                (old(self)@.pc + delta) as usize,
            ) && final(self)@ == (RuntimeModel { pc: (old(self)@.pc + delta) as usize, ..old(self)@ }),
            !(0 <= old(self)@.pc + delta <= usize::MAX) ==> r == Err::<usize, RuntimeError>(
                RuntimeError::Overflow,
            ) && final(self)@ == old(self)@,
    {
        if delta >= 0 {
            let d = delta as usize;
            if self.prog_counter > usize::MAX - d {
                return Err(RuntimeError::Overflow);
            }
            self.prog_counter = self.prog_counter + d;
        } else {
            let d = if delta == isize::MIN {
                (isize::MAX as usize) + 1
            } else {
                (-delta) as usize
            };
            if self.prog_counter < d {
                return Err(RuntimeError::Overflow);
            }
            self.prog_counter = self.prog_counter - d;
        }
        Ok(self.prog_counter)
    }
}


/// The cell of a live constant object.
pub open spec fn const_cell(obj: ObjModel) -> CellModel {
    CellModel { data: Some(obj), valid: true, is_const: true }
}

/// The cells of a new runtime: the type of types, `NoneType` and `None`, the
/// type and value `NotImplemented`, the type and value `StopIteration`, the
/// types of functions and of modules, the builtin module and the main module;
/// all but the builtin module are constant.
pub open spec fn initial_cells() -> Seq<CellModel> {
    seq![
        const_cell(type_obj(0, "type"@, None)),
        const_cell(type_obj(0, "NoneType"@, None)),
        const_cell(ObjModel { type_addr: 1, structure: StructureModel::NoneObject }),
        const_cell(type_obj(0, "NotImplemented"@, None)),
        const_cell(ObjModel { type_addr: 3, structure: StructureModel::NotImplemented }),
        const_cell(type_obj(0, "StopIteration"@, None)),
        const_cell(ObjModel { type_addr: 5, structure: StructureModel::NotImplemented }),
        const_cell(type_obj(0, "function"@, None)),
        const_cell(type_obj(0, "module"@, None)),
        CellModel {
            data: Some(
                ObjModel {
                    type_addr: 8,
                    structure: StructureModel::Module { name: BUILTIN_MODULE@, objects: Seq::empty() },
                },
            ),
            valid: true,
            is_const: false,
        },
        const_cell(
            ObjModel { type_addr: 8, structure: StructureModel::Module { name: MAIN_MODULE@, objects: Seq::empty() } },
        ),
    ]
}

/// A new runtime: one empty frame, the nine special objects, and the builtin
/// and main modules, both empty.
pub open spec fn initial_runtime() -> RuntimeModel {
    RuntimeModel {
        consts: Seq::empty(),
        frames: seq![FrameModel { values: Seq::empty(), stack: Seq::empty(), current_function: 0 }],
        mem: MemoryModel { cells: initial_cells(), free: Seq::empty() },
        builtins: BuiltinTypeAddresses { int: 0, float: 0, boolean: 0, string: 0, list: 0, true_val: 0, false_val: 0 },
        special: SpecialValues {
            type_type: 0,
            none_type: 1,
            none_value: 2,
            not_implemented_type: 3,
            not_implemented_value: 4,
            stop_iteration_type: 5,
            stop_iteration_value: 6,
            callable_type: 7,
            module_type: 8,
        },
        modules: seq![(BUILTIN_MODULE@, 9usize), (MAIN_MODULE@, 10usize)],
        pc: 0,
        output: Seq::empty(),
    }
}

/// An empty type named `name` whose type is the type at `type_type`.
fn new_type_object(type_type: MemoryAddress, name: &str) -> (r: PyObject)
    ensures
        r@ == type_obj(type_type, name@, None),
{
    let r = PyObject {
        type_addr: type_type,
        structure: PyObjectStructure::Type {
            name: String::from_str(name),
            methods: Namespace::new(),
            functions: Namespace::new(),
            supertype: None,
        },
    };
    r
}

impl Runtime {
    /// A new runtime with its special objects and the empty builtin and main modules.
    #[verifier::rlimit(60)]
    pub fn new() -> (r: Runtime)
        ensures
            rt_wf(r@),
            r@ == initial_runtime(),
    {
        let mut frames: Vec<StackFrame> = Vec::new();
        frames.push(StackFrame { values: Namespace::new(), stack: Vec::new(), current_function: 0 });
        let mut memory = Memory::new();
        let type_type = memory.allocate_and_write(new_type_object(0, "type"));
        let none_type = memory.allocate_and_write(new_type_object(type_type, "NoneType"));
        let none_value = memory.allocate_and_write(
            PyObject { type_addr: none_type, structure: PyObjectStructure::NoneObject },
        );
        let not_implemented_type = memory.allocate_and_write(new_type_object(type_type, "NotImplemented"));
        let not_implemented_value = memory.allocate_and_write(
            PyObject { type_addr: not_implemented_type, structure: PyObjectStructure::NotImplemented },
        );
        let stop_iteration_type = memory.allocate_and_write(new_type_object(type_type, "StopIteration"));
        let stop_iteration_value = memory.allocate_and_write(
            PyObject { type_addr: stop_iteration_type, structure: PyObjectStructure::NotImplemented },
        );
        let callable_type = memory.allocate_and_write(new_type_object(type_type, "function"));
        let module_type = memory.allocate_and_write(new_type_object(type_type, "module"));
        let builtin_module = memory.allocate_and_write(
            PyObject {
                type_addr: module_type,
                structure: PyObjectStructure::Module {
                    name: String::from_str(BUILTIN_MODULE),
                    objects: Namespace::new(),
                },
            },
        );
        let main_module = memory.allocate_and_write(
            PyObject {
                type_addr: module_type,
                structure: PyObjectStructure::Module { name: String::from_str(MAIN_MODULE), objects: Namespace::new() },
            },
        );
        let _ = memory.make_const(type_type);
        let _ = memory.make_const(none_type);
        let _ = memory.make_const(none_value);
        let _ = memory.make_const(not_implemented_type);
        let _ = memory.make_const(not_implemented_value);
        let _ = memory.make_const(callable_type);
        let _ = memory.make_const(stop_iteration_type);
        let _ = memory.make_const(stop_iteration_value);
        let _ = memory.make_const(module_type);
        let _ = memory.make_const(main_module);
        let mut modules = Namespace::new();
        modules.insert(BUILTIN_MODULE, builtin_module);
        proof {
            reveal_strlit("__builtin__");
            reveal_strlit("__main__");
            assert(BUILTIN_MODULE@ != MAIN_MODULE@) by {
                assert(BUILTIN_MODULE@.len() != MAIN_MODULE@.len());
            }
            assert(modules@ =~= seq![(BUILTIN_MODULE@, builtin_module)]);
            assert(!is_first_index(modules@, MAIN_MODULE@, 0));
            assert(!(exists|i: int| is_first_index(modules@, MAIN_MODULE@, i)));
        }
        modules.insert(MAIN_MODULE, main_module);
        let r = Runtime {
            program_consts: Vec::new(),
            stack: frames,
            memory,
            builtin_type_addrs: BuiltinTypeAddresses {
                int: 0,
                float: 0,
                boolean: 0,
                string: 0,
                list: 0,
                true_val: 0,
                false_val: 0,
            },
            special_values: SpecialValues {
                type_type,
                none_type,
                none_value,
                not_implemented_type,
                not_implemented_value,
                stop_iteration_type,
                stop_iteration_value,
                callable_type,
                module_type,
            },
            modules,
            prog_counter: 0,
            output: Vec::new(),
        };
        assert(r@.mem.cells =~= initial_cells());
        assert(r@.frames =~= initial_runtime().frames);
        assert(r@.output =~= Seq::<Seq<char>>::empty());
        assert(r@.modules =~= seq![(BUILTIN_MODULE@, 9usize), (MAIN_MODULE@, 10usize)]);
        assert(r@.mem.free =~= Seq::<MemoryAddress>::empty());
        assert(r@.consts =~= Seq::<MemoryAddress>::empty());
        assert(r@.mem == initial_runtime().mem);
        r
    }
}


impl Runtime {
    /// One more reference counted on the object at `addr`.
    pub fn increase_refcount(&mut self, addr: MemoryAddress) -> (r: Result<(), RuntimeError>)
        requires
            rt_wf(old(self)@),
        ensures
            rt_wf(final(self)@),
            (final(self)@, r) == rt_incref(old(self)@, addr),
    {
        let obj = self.memory.get(addr);
        let (type_addr, count, raw) = match obj {
            Err(e) => {
                return Err(e);
            },
            Ok(o) => match &o.structure {
                PyObjectStructure::Object { raw_data, refcount } => (o.type_addr, *refcount, copy_data(raw_data)),
                _ => {
                    return Ok(());
                },
            },
        };
        if count == usize::MAX {
            return Err(RuntimeError::Overflow);
        }
        self.write(
            addr,
            PyObject { type_addr, structure: PyObjectStructure::Object { raw_data: raw, refcount: count + 1 } },
        )
    }

    /// One reference fewer on the object at `addr`, freeing it when none is left.
    pub fn decrease_refcount(&mut self, addr: MemoryAddress) -> (r: Result<(), RuntimeError>)
        requires
            rt_wf(old(self)@),
        ensures
            rt_wf(final(self)@),
            (final(self)@, r) == rt_decref(old(self)@, addr),
    {
        let obj = self.memory.get(addr);
        let (type_addr, count, raw) = match obj {
            Err(e) => {
                return Err(e);
            },
            Ok(o) => match &o.structure {
                PyObjectStructure::Object { raw_data, refcount } => (o.type_addr, *refcount, copy_data(raw_data)),
                _ => {
                    return Ok(());
                },
            },
        };
        let new_count = if count > 0 {
            count - 1
        } else {
            0
        };
        let r1 = self.write(
            addr,
            PyObject { type_addr, structure: PyObjectStructure::Object { raw_data: raw, refcount: new_count } },
        );
        if new_count == 0 {
            let ghost s1 = self@;
            let r2 = self.memory.deallocate(addr);
            proof {
                match spec_deallocate(s1.mem, addr) {
                    Ok(m) => {
                        assert(self@ == with_mem(s1, m));
                    },
                    Err(e) => {
                        assert(self@ == s1);
                    },
                }
            }
            r2
        } else {
            r1
        }
    }

    /// The reference count of the object at `addr`.
    pub fn get_refcount(&self, addr: MemoryAddress) -> (r: Result<usize, RuntimeError>)
        requires
            rt_wf(self@),
        ensures
            match rt_get(self@, addr) {
                None => r == Err::<usize, RuntimeError>(RuntimeError::InvalidAddress(addr)),
                Some(obj) => match obj.structure {
                    StructureModel::Object { refcount, .. } => r == Ok::<usize, RuntimeError>(refcount),
                    _ => r == Err::<usize, RuntimeError>(RuntimeError::NotAnObject(addr)),
                },
            },
    {
        match self.memory.get(addr) {
            Err(e) => Err(e),
            Ok(o) => match &o.structure {
                PyObjectStructure::Object { refcount, .. } => Ok(*refcount),
                _ => Err(RuntimeError::NotAnObject(addr)),
            },
        }
    }

    /// One reference fewer on each address of `addrs`, in order.
    pub fn decrease_refcounts(&mut self, addrs: &Vec<MemoryAddress>) -> (r: Result<(), RuntimeError>)
        requires
            rt_wf(old(self)@),
        ensures
            rt_wf(final(self)@),
            (final(self)@, r) == rt_decref_all(old(self)@, addrs@),
    {
        let mut i: usize = 0;
        let ghost s0 = self@;
        assert(addrs@.take(0).len() == 0);
        while i < addrs.len()
            invariant
                i <= addrs.len(),
                rt_wf(self@),
                s0 == old(self)@,
                (self@, Ok::<(), RuntimeError>(())) == rt_decref_all(s0, addrs@.take(i as int)),
            decreases addrs.len() - i,
        {
            assert(addrs@.take(i as int + 1).drop_last() =~= addrs@.take(i as int));
            assert(addrs@.take(i as int + 1).last() == addrs@[i as int]);
            let r = self.decrease_refcount(addrs[i]);
            assert(rt_decref_all(s0, addrs@.take(i as int + 1)) == (self@, r));
            if r.is_err() {
                proof {
                    lemma_decref_all_stops(s0, addrs@, i as int);
                }
                return r;
            }
            i = i + 1;
        }
        assert(addrs@.take(i as int) =~= addrs@);
        Ok(())
    }

    /// One reference more on each address of `addrs`, in order.
    pub fn increase_refcounts(&mut self, addrs: &Vec<MemoryAddress>) -> (r: Result<(), RuntimeError>)
        requires
            rt_wf(old(self)@),
        ensures
            rt_wf(final(self)@),
            (final(self)@, r) == rt_incref_all(old(self)@, addrs@),
    {
        let mut i: usize = 0;
        let ghost s0 = self@;
        assert(addrs@.take(0).len() == 0);
        while i < addrs.len()
            invariant
                i <= addrs.len(),
                rt_wf(self@),
                s0 == old(self)@,
                (self@, Ok::<(), RuntimeError>(())) == rt_incref_all(s0, addrs@.take(i as int)),
            decreases addrs.len() - i,
        {
            assert(addrs@.take(i as int + 1).drop_last() =~= addrs@.take(i as int));
            assert(addrs@.take(i as int + 1).last() == addrs@[i as int]);
            let r = self.increase_refcount(addrs[i]);
            assert(rt_incref_all(s0, addrs@.take(i as int + 1)) == (self@, r));
            if r.is_err() {
                proof {
                    lemma_incref_all_stops(s0, addrs@, i as int);
                }
                return r;
            }
            i = i + 1;
        }
        assert(addrs@.take(i as int) =~= addrs@);
        Ok(())
    }

    /// Removes the last frame, with one reference fewer on each address left on its stack.
    pub fn pop_stack_frame(&mut self) -> (r: Result<(), RuntimeError>)
        requires
            rt_wf(old(self)@),
        ensures
            rt_wf(final(self)@),
            (final(self)@, r) == rt_pop_frame(old(self)@),
    {
        match self.stack.pop() {
            None => Err(RuntimeError::NoStackFrame),
            Some(frame) => {
                assert(self@.frames =~= old(self)@.frames.drop_last());
                self.decrease_refcounts(&frame.stack)
            },
        }
    }
}

/// After an error at index `i`, decreasing the counts of all of `addrs` gives that error.
proof fn lemma_decref_all_stops(s: RuntimeModel, addrs: Seq<MemoryAddress>, i: int)
    requires
        0 <= i < addrs.len(),
        rt_decref_all(s, addrs.take(i + 1)).1 is Err,
    ensures
        rt_decref_all(s, addrs) == rt_decref_all(s, addrs.take(i + 1)),
    decreases addrs.len() - i,
{
    if i + 1 == addrs.len() {
        assert(addrs.take(i + 1) =~= addrs);
    } else {
        assert(addrs.take(i + 2).drop_last() =~= addrs.take(i + 1));
        lemma_decref_all_stops(s, addrs, i + 1);
    }
}

/// After an error at index `i`, increasing the counts of all of `addrs` gives that error.
proof fn lemma_incref_all_stops(s: RuntimeModel, addrs: Seq<MemoryAddress>, i: int)
    requires
        0 <= i < addrs.len(),
        rt_incref_all(s, addrs.take(i + 1)).1 is Err,
    ensures
        rt_incref_all(s, addrs) == rt_incref_all(s, addrs.take(i + 1)),
    decreases addrs.len() - i,
{
    if i + 1 == addrs.len() {
        assert(addrs.take(i + 1) =~= addrs);
    } else {
        assert(addrs.take(i + 2).drop_last() =~= addrs.take(i + 1));
        lemma_incref_all_stops(s, addrs, i + 1);
    }
}

/// A copy of builtin data.
pub fn copy_data(d: &BuiltInTypeData) -> (r: BuiltInTypeData)
    ensures
        r@ == d@,
{
    match d {
        BuiltInTypeData::Int(i) => BuiltInTypeData::Int(*i),
        BuiltInTypeData::Float(f) => BuiltInTypeData::Float(Float(f.0.clone())),
        BuiltInTypeData::String(s) => BuiltInTypeData::String(s.clone()),
        BuiltInTypeData::List(v) => BuiltInTypeData::List(v.clone()),
    }
}


impl Runtime {
    /// The method `method_name` of the type at `type_addr`, searched along its supertypes.
    pub fn get_type_method_addr_byname(&self, type_addr: MemoryAddress, method_name: &str) -> (r: Result<
        Option<MemoryAddress>,
        RuntimeError,
    >)
        requires
            rt_wf(self@),
        ensures
            r == rt_method_of(self@, type_addr, method_name@),
    {
        let mut t = type_addr;
        let mut fuel: usize = self.memory.memory.len();
        loop
            invariant
                rt_wf(self@),
                rt_method_of(self@, type_addr, method_name@) == lookup_method(
                    self@.mem,
                    t,
                    method_name@,
                    fuel as nat,
                ),
            decreases fuel,
        {
            match self.memory.get(t) {
                Err(e) => {
                    return Err(e);
                },
                Ok(o) => match &o.structure {
                    PyObjectStructure::Type { methods, supertype, .. } => match methods.get(method_name) {
                        Some(a) => {
                            return Ok(Some(a));
                        },
                        None => match supertype {
                            None => {
                                return Ok(None);
                            },
                            Some(sup) => {
                                if fuel == 0 {
                                    return Ok(None);
                                }
                                t = *sup;
                                fuel = fuel - 1;
                            },
                        },
                    },
                    _ => {
                        return Ok(None);
                    },
                },
            }
        }
    }

    /// The address of the module object `module`.
    pub fn find_module_addr(&self, module: &str) -> (r: Result<MemoryAddress, RuntimeError>)
        requires
            rt_wf(self@),
        ensures
            r == rt_find_module(self@, module@),
    {
        match self.modules.get(module) {
            None => Err(RuntimeError::UnknownModule),
            Some(a) => match self.memory.get(a) {
                Err(e) => Err(e),
                Ok(o) => match &o.structure {
                    PyObjectStructure::Module { .. } => Ok(a),
                    _ => Err(RuntimeError::NotAModule(a)),
                },
            },
        }
    }

    /// The module object `module`.
    pub fn find_module(&self, module: &str) -> (r: Result<&PyObject, RuntimeError>)
        requires
            rt_wf(self@),
        ensures
            match rt_find_module(self@, module@) {
                Ok(a) => r is Ok && rt_get(self@, a) == Some(r->Ok_0@),
                Err(e) => r is Err && r->Err_0 == e,
            },
    {
        match self.find_module_addr(module) {
            Err(e) => Err(e),
            Ok(a) => self.memory.get(a),
        }
    }

    /// The object bound to `name` in the module `module`.
    pub fn find_in_module(&self, module: &str, name: &str) -> (r: Result<Option<MemoryAddress>, RuntimeError>)
        requires
            rt_wf(self@),
        ensures
            r == rt_find_in_module(self@, module@, name@),
    {
        match self.find_module_addr(module) {
            Err(e) => Err(e),
            Ok(a) => match self.memory.get(a) {
                Err(e) => Err(e),
                Ok(o) => match &o.structure {
                    PyObjectStructure::Module { objects, .. } => Ok(objects.get(name)),
                    _ => Err(RuntimeError::NotAModule(a)),
                },
            },
        }
    }

    /// Binds `name` to `value` in the table `table` of the object at `addr`.
    pub fn bind_in(&mut self, addr: MemoryAddress, table: Table, name: &str, value: MemoryAddress) -> (r: Result<
        (),
        RuntimeError,
    >)
        requires
            rt_wf(old(self)@),
        ensures
            rt_wf(final(self)@),
            (final(self)@, r) == rt_bind_in(old(self)@, addr, table, name@, value),
    {
        if addr >= self.memory.memory.len() || !self.memory.memory[addr].valid {
            return Err(RuntimeError::InvalidAddress(addr));
        }
        let ghost s0 = self@;
        let ghost obj0 = rt_get(s0, addr).unwrap();
        assert(s0.mem.cells[addr as int] == self.memory.memory@[addr as int]@);
        let mut d: Option<PyObject> = None;
        std::mem::swap(&mut d, &mut self.memory.memory[addr].data);
        let obj = match d {
            Some(o) => o,
            None => {
                return Err(RuntimeError::InvalidAddress(addr));
            },
        };
        assert(obj@ == obj0);
        let PyObject { type_addr, structure } = obj;
        let result: Result<PyObjectStructure, PyObjectStructure> = match structure {
            PyObjectStructure::Module { name: n, objects } => {
                if table == Table::ModuleObjects {
                    let mut objects = objects;
                    objects.insert(name, value);
                    Ok(PyObjectStructure::Module { name: n, objects })
                } else {
                    Err(PyObjectStructure::Module { name: n, objects })
                }
            },
            PyObjectStructure::Type { name: n, methods, functions, supertype } => {
                if table == Table::TypeMethods {
                    let mut methods = methods;
                    methods.insert(name, value);
                    Ok(PyObjectStructure::Type { name: n, methods, functions, supertype })
                } else if table == Table::TypeFunctions {
                    let mut functions = functions;
                    functions.insert(name, value);
                    Ok(PyObjectStructure::Type { name: n, methods, functions, supertype })
                } else {
                    Err(PyObjectStructure::Type { name: n, methods, functions, supertype })
                }
            },
            other => Err(other),
        };
        match result {
            Ok(st) => {
                let new_obj = PyObject { type_addr, structure: st };
                assert(obj_with_binding(obj0, table, name@, value) == Ok::<ObjModel, RuntimeError>(new_obj@));
                let ghost c = CellModel { data: Some(new_obj@), ..s0.mem.cells[addr as int] };
                self.memory.memory[addr].data = Some(new_obj);
                proof {
                    assert(self@.mem.cells =~= s0.mem.cells.update(addr as int, c));
                    lemma_update_live(s0.mem, addr as int, c);
                }
                Ok(())
            },
            Err(st) => {
                let old_obj = PyObject { type_addr, structure: st };
                assert(old_obj@ == obj0);
                assert(obj_with_binding(obj0, table, name@, value) is Err);
                self.memory.memory[addr].data = Some(old_obj);
                assert(self@.mem.cells =~= s0.mem.cells);
                if table == Table::ModuleObjects {
                    Err(RuntimeError::NotAModule(addr))
                } else {
                    Err(RuntimeError::NotAType(addr))
                }
            },
        }
    }
}


impl Runtime {
    /// Adds the object at `pyobject_addr` to the module `module` under `name`.
    pub fn add_to_module(&mut self, module: &str, name: &str, pyobject_addr: MemoryAddress) -> (r: Result<
        (),
        RuntimeError,
    >)
        requires
            rt_wf(old(self)@),
        ensures
            rt_wf(final(self)@),
            (final(self)@, r) == rt_add_to_module(old(self)@, module@, name@, pyobject_addr),
    {
        match self.find_in_module(module, name) {
            Err(e) => Err(e),
            Ok(Some(_)) => Err(RuntimeError::NameExists),
            Ok(None) => {
                let m = self.find_module_addr(module);
                match m {
                    Ok(a) => self.bind_in(a, Table::ModuleObjects, name, pyobject_addr),
                    Err(e) => Err(e),
                }
            },
        }
    }

    /// Creates the type `name` with supertype `supertype` and adds it to the module `module`.
    pub fn create_type(&mut self, module: &str, name: &str, supertype: Option<MemoryAddress>) -> (r: Result<
        MemoryAddress,
        RuntimeError,
    >)
        requires
            rt_wf(old(self)@),
        ensures
            rt_wf(final(self)@),
            (final(self)@, r) == rt_create_type(old(self)@, module@, name@, supertype),
    {
        let created = PyObject {
            type_addr: self.special_values.type_type,
            structure: PyObjectStructure::Type {
                name: String::from_str(name),
                methods: Namespace::new(),
                functions: Namespace::new(),
                supertype,
            },
        };
        assert(created@ == type_obj(self@.special.type_type, name@, supertype));
        match self.allocate_and_write(created) {
            Err(e) => Err(e),
            Ok(t) => match self.add_to_module(module, name, t) {
                Err(e) => Err(e),
                Ok(_) => Ok(t),
            },
        }
    }

    /// A new function object with native code `code`.
    pub fn create_callable_pyobj(&mut self, code: NativeFunction, name: Option<String>) -> (r: Result<
        MemoryAddress,
        RuntimeError,
    >)
        requires
            rt_wf(old(self)@),
        ensures
            rt_wf(final(self)@),
            (final(self)@, r) == rt_alloc(
                old(self)@,
                callable_obj(
                    old(self)@,
                    code,
                    match name {
                        Some(n) => Some(n@),
                        None => None,
                    },
                ),
            ),
    {
        let obj = PyObject {
            type_addr: self.special_values.callable_type,
            structure: PyObjectStructure::NativeCallable { code, name },
        };
        self.allocate_and_write(obj)
    }

    /// A new function object with native code `code`, bound under `name` in the
    /// table `table` of the type at `type_addr`.
    pub fn register_on_addr(&mut self, type_addr: MemoryAddress, table: Table, name: &str, code: NativeFunction) -> (r:
        Result<(), RuntimeError>)
        requires
            rt_wf(old(self)@),
        ensures
            rt_wf(final(self)@),
            (final(self)@, r) == rt_register(old(self)@, type_addr, table, name@, code),
    {
        match self.create_callable_pyobj(code, Some(String::from_str(name))) {
            Err(e) => Err(e),
            Ok(f) => self.bind_in(type_addr, table, name, f),
        }
    }

    /// Registers `code` as the method `name` of the type at `type_addr`.
    pub fn register_bounded_func_on_addr(&mut self, type_addr: MemoryAddress, name: &str, code: NativeFunction) -> (r:
        Result<(), RuntimeError>)
        requires
            rt_wf(old(self)@),
        ensures
            rt_wf(final(self)@),
            (final(self)@, r) == rt_register(old(self)@, type_addr, Table::TypeMethods, name@, code),
    {
        self.register_on_addr(type_addr, Table::TypeMethods, name, code)
    }

    /// Registers `code` as the function `name` of the type at `type_addr` (such as its `__new__`).
    pub fn register_type_unbounded_func(&mut self, type_addr: MemoryAddress, name: &str, code: NativeFunction) -> (r:
        Result<(), RuntimeError>)
        requires
            rt_wf(old(self)@),
        ensures
            rt_wf(final(self)@),
            (final(self)@, r) == rt_register(old(self)@, type_addr, Table::TypeFunctions, name@, code),
    {
        self.register_on_addr(type_addr, Table::TypeFunctions, name, code)
    }

    /// Registers `code` as the method `name` of the type `tname` of the module `module_name`.
    pub fn register_bounded_func(&mut self, module_name: &str, tname: &str, name: &str, code: NativeFunction) -> (r:
        Result<(), RuntimeError>)
        requires
            rt_wf(old(self)@),
        ensures
            rt_wf(final(self)@),
            match rt_find_in_module(old(self)@, module_name@, tname@) {
                Err(e) => r == Err::<(), RuntimeError>(e) && final(self)@ == old(self)@,
                Ok(None) => r == Err::<(), RuntimeError>(RuntimeError::NotAType(0)) && final(self)@
                    == old(self)@,
                Ok(Some(t)) => (final(self)@, r) == rt_register(old(self)@, t, Table::TypeMethods, name@, code),
            },
    {
        match self.find_in_module(module_name, tname) {
            Err(e) => Err(e),
            Ok(None) => Err(RuntimeError::NotAType(0)),
            Ok(Some(t)) => self.register_on_addr(t, Table::TypeMethods, name, code),
        }
    }

    /// The data of the builtin object at `addr`.
    pub fn get_raw_data_of_pyobj(&self, addr: MemoryAddress) -> (r: Result<&BuiltInTypeData, RuntimeError>)
        requires
            rt_wf(self@),
        ensures
            match rt_raw(self@, addr) {
                Ok(d) => r is Ok && r->Ok_0@ == d,
                Err(e) => r is Err && r->Err_0 == e,
            },
    {
        match self.memory.get(addr) {
            Err(e) => Err(e),
            Ok(o) => match &o.structure {
                PyObjectStructure::Object { raw_data, .. } => Ok(raw_data),
                _ => Err(RuntimeError::NotAnObject(addr)),
            },
        }
    }

    /// The type address of the object at `addr`.
    pub fn get_pyobj_type_addr(&self, addr: MemoryAddress) -> (r: Result<MemoryAddress, RuntimeError>)
        requires
            rt_wf(self@),
        ensures
            r == rt_type_of(self@, addr),
    {
        match self.memory.get(addr) {
            Err(e) => Err(e),
            Ok(o) => Ok(o.type_addr),
        }
    }

    /// The name of the type at `addr`.
    pub fn get_type_name(&self, addr: MemoryAddress) -> (r: Result<&str, RuntimeError>)
        requires
            rt_wf(self@),
        ensures
            match rt_get(self@, addr) {
                None => r is Err && r->Err_0 == RuntimeError::InvalidAddress(addr),
                Some(obj) => match obj.structure {
                    StructureModel::Type { name, .. } => r is Ok && r->Ok_0@ == name,
                    _ => r is Err && r->Err_0 == RuntimeError::NotAType(addr),
                },
            },
    {
        match self.memory.get(addr) {
            Err(e) => Err(e),
            Ok(o) => match &o.structure {
                PyObjectStructure::Type { name, .. } => Ok(name.as_str()),
                _ => Err(RuntimeError::NotAType(addr)),
            },
        }
    }

    /// The name of the type of the object at `addr`.
    pub fn get_pyobj_type_name(&self, addr: MemoryAddress) -> (r: Result<&str, RuntimeError>)
        requires
            rt_wf(self@),
        ensures
            match rt_type_of(self@, addr) {
                Err(e) => r is Err && r->Err_0 == e,
                Ok(t) => match rt_get(self@, t) {
                    None => r is Err && r->Err_0 == RuntimeError::InvalidAddress(t),
                    Some(obj) => match obj.structure {
                        StructureModel::Type { name, .. } => r is Ok && r->Ok_0@ == name,
                        _ => r is Err && r->Err_0 == RuntimeError::NotAType(t),
                    },
                },
            },
    {
        match self.get_pyobj_type_addr(addr) {
            Err(e) => Err(e),
            Ok(t) => self.get_type_name(t),
        }
    }

    /// A new object of the type at `type_addr` with structure `structure`.
    pub fn allocate_type_byaddr_raw_struct(&mut self, type_addr: MemoryAddress, structure: PyObjectStructure) -> (r:
        Result<MemoryAddress, RuntimeError>)
        requires
            rt_wf(old(self)@),
        ensures
            rt_wf(final(self)@),
            (final(self)@, r) == rt_alloc(old(self)@, ObjModel { type_addr, structure: structure@ }),
    {
        self.allocate_and_write(PyObject { type_addr, structure })
    }

    /// A new object of the type at `type_addr` holding `raw_data`.
    pub fn allocate_type_byaddr_raw(&mut self, type_addr: MemoryAddress, raw_data: BuiltInTypeData) -> (r: Result<
        MemoryAddress,
        RuntimeError,
    >)
        requires
            rt_wf(old(self)@),
        ensures
            rt_wf(final(self)@),
            (final(self)@, r) == rt_alloc(old(self)@, builtin_obj(type_addr, raw_data@)),
    {
        self.allocate_and_write(
            PyObject { type_addr, structure: PyObjectStructure::Object { raw_data, refcount: 0 } },
        )
    }

    /// A new object of the builtin type named `tname` holding `raw_data`.
    pub fn allocate_builtin_type_byname_raw(&mut self, tname: &str, raw_data: BuiltInTypeData) -> (r: Result<
        MemoryAddress,
        RuntimeError,
    >)
        requires
            rt_wf(old(self)@),
        ensures
            rt_wf(final(self)@),
            match rt_find_in_module(old(self)@, BUILTIN_MODULE@, tname@) {
                Err(e) => r == Err::<MemoryAddress, RuntimeError>(e) && final(self)@ == old(self)@,
                Ok(None) => r == Err::<MemoryAddress, RuntimeError>(RuntimeError::NoSuchFunction)
                    && final(self)@ == old(self)@,
                Ok(Some(t)) => (final(self)@, r) == rt_alloc(old(self)@, builtin_obj(t, raw_data@)),
            },
    {
        match self.find_in_module(BUILTIN_MODULE, tname) {
            Err(e) => Err(e),
            Ok(None) => Err(RuntimeError::NoSuchFunction),
            Ok(Some(t)) => self.allocate_type_byaddr_raw(t, raw_data),
        }
    }

    /// Records `value` as a program constant and makes its cell constant.
    pub fn store_const(&mut self, value: MemoryAddress) -> (r: Result<(), RuntimeError>)
        requires
            rt_wf(old(self)@),
        ensures
            rt_wf(final(self)@),
            match spec_make_const(old(self)@.mem, value) {
                Ok(m) => r == Ok::<(), RuntimeError>(()) && final(self)@ == (RuntimeModel {
                    consts: old(self)@.consts.push(value),
                    mem: m,
                    ..old(self)@
                }),
                Err(e) => r == Err::<(), RuntimeError>(e) && final(self)@ == (RuntimeModel {
                    consts: old(self)@.consts.push(value),
                    ..old(self)@
                }),
            },
    {
        self.program_consts.push(value);
        self.make_const(value)
    }

    /// The program constant with index `index`.
    pub fn get_const(&self, index: usize) -> (r: Option<MemoryAddress>)
        ensures
            r == (if index < self@.consts.len() {
                Some(self@.consts[index as int])
            } else {
                None
            }),
    {
        if index < self.program_consts.len() {
            Some(self.program_consts[index])
        } else {
            None
        }
    }

    /// Hands over the lines printed so far, in order, and keeps none.
    pub fn take_output(&mut self) -> (r: Vec<String>)
        ensures
            r@.map_values(|t: String| t@) == old(self)@.output,
            final(self)@ == (RuntimeModel { output: Seq::empty(), ..old(self)@ }),
    {
        let mut out: Vec<String> = Vec::new();
        std::mem::swap(&mut out, &mut self.output);
        assert(self@.output =~= Seq::<Seq<char>>::empty());
        out
    }

    /// Records a line of printed text.
    pub fn print(&mut self, text: String)
        ensures
            final(self)@ == rt_print(old(self)@, text@),
    {
        self.output.push(text);
        assert(self@.output =~= old(self)@.output.push(text@));
    }
}

} // verus!
