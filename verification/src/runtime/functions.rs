//! Function objects looked up by address and by name, and module bindings
//! found through a module's address.

use vstd::prelude::*;
use vstd::string::*;
use crate::runtime::error::RuntimeError;
use crate::runtime::machine::{Runtime, RuntimeModel, Table, rt_bind_in, rt_get, rt_wf};
use crate::runtime::memory::{MemoryModel, mem_get};
use crate::runtime::namespace::{MemoryAddress, ns_get};
use crate::runtime::object::{PyObject, PyObjectStructure, StructureModel};

verus! {

/// The function object that a call of the object at `a` runs: a native or
/// user-defined function itself, or the constructor `__new__` of a type.
pub open spec fn rt_function_addr(s: RuntimeModel, a: MemoryAddress) -> Result<MemoryAddress, RuntimeError> {
    match rt_get(s, a) {
        None => Err(RuntimeError::InvalidAddress(a)),
        Some(obj) => match obj.structure {
            StructureModel::NativeCallable { .. } => Ok(a),
            StructureModel::UserDefinedFunction { .. } => Ok(a),
            StructureModel::Type { functions, .. } => match ns_get(functions, "__new__"@) {
                None => Err(RuntimeError::NoConstructor),
                Some(c) => Ok(c),
            },
            _ => Err(RuntimeError::NotCallable(a)),
        },
    }
}

/// The entry `name` of the function table of the type at `t`: its own, else
/// its supertype's, following at most `fuel` supertypes.
pub open spec fn lookup_function(m: MemoryModel, t: MemoryAddress, name: Seq<char>, fuel: nat) -> Result<
    Option<MemoryAddress>,
    RuntimeError,
>
    decreases fuel,
{
    match mem_get(m, t as int) {
        None => Err(RuntimeError::InvalidAddress(t)),
        Some(obj) => match obj.structure {
            StructureModel::Type { functions, supertype, .. } => match ns_get(functions, name) {
                Some(a) => Ok(Some(a)),
                None => match supertype {
                    None => Ok(None),
                    Some(sup) => if fuel == 0 {
                        Ok(None)
                    } else {
                        lookup_function(m, sup, name, (fuel - 1) as nat)
                    },
                },
            },
            _ => Ok(None),
        },
    }
}

/// The entry `name` of the function table of the type at `t`, searched along
/// its chain of supertypes, which in a memory of n cells is at most n long
/// unless it loops.
pub open spec fn rt_function_of(s: RuntimeModel, t: MemoryAddress, name: Seq<char>) -> Result<
    Option<MemoryAddress>,
    RuntimeError,
> {
    lookup_function(s.mem, t, name, s.mem.cells.len())
}

/// The name that the object at `a` goes by: a function's own name, a type's
/// name, and `unknown` for a nameless function and for any other object.
pub open spec fn rt_function_name(s: RuntimeModel, a: MemoryAddress) -> Result<Seq<char>, RuntimeError> {
    match rt_get(s, a) {
        None => Err(RuntimeError::InvalidAddress(a)),
        Some(obj) => match obj.structure {
            StructureModel::NativeCallable { name, .. } => match name {
                Some(n) => Ok(n),
                None => Ok("unknown"@),
            },
            StructureModel::Type { name, .. } => Ok(name),
            _ => Ok("unknown"@),
        },
    }
}

/// The object bound to `name` in the module object at `module_addr`.
pub open spec fn rt_find_in_module_addr(s: RuntimeModel, module_addr: MemoryAddress, name: Seq<char>) -> Result<
    Option<MemoryAddress>,
    RuntimeError,
> {
    match rt_get(s, module_addr) {
        None => Err(RuntimeError::InvalidAddress(module_addr)),
        Some(obj) => match obj.structure {
            StructureModel::Module { objects, .. } => Ok(ns_get(objects, name)),
            _ => Err(RuntimeError::NotAModule(module_addr)),
        },
    }
}

impl Runtime {
    /// The function object that a call of the object at `addr` runs.
    pub fn try_load_function_addr(&self, addr: MemoryAddress) -> (r: Result<MemoryAddress, RuntimeError>)
        requires
            rt_wf(self@),
        ensures
            r == rt_function_addr(self@, addr),
    {
        match self.get_pyobj_byaddr(addr) {
            Err(e) => Err(e),
            Ok(obj) => match &obj.structure {
                PyObjectStructure::NativeCallable { .. } => Ok(addr),
                PyObjectStructure::UserDefinedFunction { .. } => Ok(addr),
                PyObjectStructure::Type { functions, .. } => match functions.get("__new__") {
                    None => Err(RuntimeError::NoConstructor),
                    Some(c) => Ok(c),
                },
                _ => Err(RuntimeError::NotCallable(addr)),
            },
        }
    }

    /// The function object that a call of the object at `addr` runs, itself.
    pub fn try_load_function(&self, addr: MemoryAddress) -> (r: Result<&PyObject, RuntimeError>)
        requires
            rt_wf(self@),
        ensures
            match rt_function_addr(self@, addr) {
                Err(e) => r is Err && r->Err_0 == e,
                Ok(f) => match rt_get(self@, f) {
                    Some(o) => r is Ok && r->Ok_0@ == o,
                    None => r is Err && r->Err_0 == RuntimeError::InvalidAddress(f),
                },
            },
    {
        match self.try_load_function_addr(addr) {
            Err(e) => Err(e),
            Ok(f) => self.get_pyobj_byaddr(f),
        }
    }

    /// The entry `method_name` of the function table of the type at
    /// `type_addr`, searched along its supertypes.
    pub fn get_method_addr_byname(&self, type_addr: MemoryAddress, method_name: &str) -> (r: Result<
        Option<MemoryAddress>,
        RuntimeError,
    >)
        requires
            rt_wf(self@),
        ensures
            r == rt_function_of(self@, type_addr, method_name@),
    {
        let mut t = type_addr;
        let mut fuel: usize = self.memory.memory.len();
        loop
            invariant
                rt_wf(self@),
                rt_function_of(self@, type_addr, method_name@) == lookup_function(
                    self@.mem,
                    t,
                    method_name@,
                    fuel as nat,
                ),
            decreases fuel,
        {
            match self.memory.get(t) {
                Err(e) => {
                    return Err(e);
                },
                Ok(o) => match &o.structure {
                    PyObjectStructure::Type { functions, supertype, .. } => match functions.get(method_name) {
                        Some(a) => {
                            return Ok(Some(a));
                        },
                        None => match supertype {
                            None => {
                                return Ok(None);
                            },
                            Some(sup) => {
                                if fuel == 0 {
                                    return Ok(None);
                                }
                                t = *sup;
                                fuel = fuel - 1;
                            },
                        },
                    },
                    _ => {
                        return Ok(None);
                    },
                },
            }
        }
    }

    /// The name that the object at `addr` goes by.
    pub fn get_function_name(&self, addr: MemoryAddress) -> (r: Result<String, RuntimeError>)
        requires
            rt_wf(self@),
        ensures
            match rt_function_name(self@, addr) {
                Ok(n) => r is Ok && r->Ok_0@ == n,
                Err(e) => r is Err && r->Err_0 == e,
            },
    {
        match self.get_pyobj_byaddr(addr) {
            Err(e) => Err(e),
            Ok(obj) => match &obj.structure {
                PyObjectStructure::NativeCallable { name, .. } => match name {
                    Some(n) => Ok(n.clone()),
                    None => Ok(String::from_str("unknown")),
                },
                PyObjectStructure::Type { name, .. } => Ok(name.clone()),
                _ => Ok(String::from_str("unknown")),
            },
        }
    }

    /// Binds the function object at `callable_addr` under `name` in the
    /// function table of the type at `type_addr`.
    pub fn register_method_addr_on_type(&mut self, type_addr: MemoryAddress, name: &str, callable_addr: MemoryAddress) -> (r:
        Result<(), RuntimeError>)
        requires
            rt_wf(old(self)@),
        ensures
            rt_wf(final(self)@),
            (final(self)@, r) == rt_bind_in(old(self)@, type_addr, Table::TypeFunctions, name@, callable_addr),
    {
        self.bind_in(type_addr, Table::TypeFunctions, name, callable_addr)
    }

    /// The object bound to `name` in the module object at `module_addr`.
    pub fn find_in_module_addr(&self, module_addr: MemoryAddress, name: &str) -> (r: Result<
        Option<MemoryAddress>,
        RuntimeError,
    >)
        requires
            rt_wf(self@),
        ensures
            r == rt_find_in_module_addr(self@, module_addr, name@),
    {
        match self.get_pyobj_byaddr(module_addr) {
            Err(e) => Err(e),
            Ok(obj) => match &obj.structure {
                PyObjectStructure::Module { objects, .. } => Ok(objects.get(name)),
                _ => Err(RuntimeError::NotAModule(module_addr)),
            },
        }
    }
}

} // verus!
