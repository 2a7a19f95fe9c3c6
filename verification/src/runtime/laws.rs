//! What holds of the runtime's operations taken together.

use vstd::prelude::*;
use crate::runtime::error::RuntimeError;
use crate::runtime::machine::{
    RuntimeModel, rt_method_of, lookup_method, rt_bind_local, rt_decref, rt_get, rt_get_local, rt_incref, rt_pop, rt_push, rt_wf,
};
use crate::runtime::memory::{MemoryModel, mem_get, mem_wf, spec_allocate, spec_deallocate};
use crate::runtime::namespace::{MemoryAddress, lemma_ns_insert_get, ns_get};
use crate::runtime::object::{ObjModel, StructureModel};

verus! {

/// A value pushed onto the operand stack is the one popped next, and the pop
/// gives back the runtime as it was before the push.
pub proof fn law_push_then_pop(s: RuntimeModel, a: MemoryAddress)
    requires
        s.frames.len() > 0,
    ensures
        rt_pop(rt_push(s, a).0).1 == Ok::<MemoryAddress, RuntimeError>(a),
        rt_pop(rt_push(s, a).0).0 == s,
{
    let s1 = rt_push(s, a).0;
    assert(s1.frames.last().stack.drop_last() =~= s.frames.last().stack);
    assert(rt_pop(s1).0.frames =~= s.frames);
}

/// A local read after it was bound gives the address bound; binding one name
/// leaves every other local as it was.
pub proof fn law_bind_then_get_local(s: RuntimeModel, name: Seq<char>, a: MemoryAddress, other: Seq<char>)
    requires
        s.frames.len() > 0,
    ensures
        rt_get_local(rt_bind_local(s, name, a).0, name) == Ok::<Option<MemoryAddress>, RuntimeError>(Some(a)),
        other != name ==> rt_get_local(rt_bind_local(s, name, a).0, other) == rt_get_local(s, other),
{
    lemma_ns_insert_get(s.frames.last().values, name, a, name);
    lemma_ns_insert_get(s.frames.last().values, name, a, other);
}

/// One reference counted and then released on an object that has references
/// leaves the runtime as it was.
pub proof fn law_incref_then_decref(s: RuntimeModel, a: MemoryAddress)
    requires
        rt_wf(s),
        rt_get(s, a) matches Some(obj) && obj.structure matches StructureModel::Object { refcount, .. } && 0
            < refcount < usize::MAX,
    ensures
        rt_incref(s, a).1 is Ok,
        rt_decref(rt_incref(s, a).0, a) == (s, Ok::<(), RuntimeError>(())),
{
    let obj = rt_get(s, a).unwrap();
    let s1 = rt_incref(s, a).0;
    let s2 = rt_decref(s1, a).0;
    assert(s2.mem.cells =~= s.mem.cells);
    assert(s2.mem == s.mem);
}

/// A freed cell is the one that the next allocation writes.
pub proof fn law_allocation_reuses_freed_cell(m: MemoryModel, a: MemoryAddress, obj: ObjModel)
    requires
        mem_wf(m),
        mem_get(m, a as int) is Some,
        !m.cells[a as int].is_const,
    ensures
        spec_allocate(spec_deallocate(m, a)->Ok_0, obj).1 == a,
        mem_get(spec_allocate(spec_deallocate(m, a)->Ok_0, obj).0, a as int) == Some(obj),
{
}

/// A constant cell is never freed.
pub proof fn law_constant_cells_stay(m: MemoryModel, a: MemoryAddress)
    requires
        0 <= a < m.cells.len(),
        m.cells[a as int].is_const,
    ensures
        spec_deallocate(m, a) == Ok::<MemoryModel, RuntimeError>(m),
{
}


/// A type's own method is the one found under its name.
pub proof fn law_own_method_found(s: RuntimeModel, t: MemoryAddress, name: Seq<char>, m: MemoryAddress)
    requires
        rt_get(s, t) matches Some(obj) && obj.structure matches StructureModel::Type { methods, .. } && ns_get(
            methods,
            name,
        ) == Some(m),
    ensures
        rt_method_of(s, t, name) == Ok::<Option<MemoryAddress>, RuntimeError>(Some(m)),
{
}

/// A type without a method of some name has the one of its supertype.
pub proof fn law_method_inherited(s: RuntimeModel, t: MemoryAddress, sup: MemoryAddress, name: Seq<char>, m: MemoryAddress)
    requires
        rt_get(s, t) matches Some(obj) && obj.structure matches StructureModel::Type { methods, supertype, .. }
            && ns_get(methods, name) is None && supertype == Some(sup),
        rt_get(s, sup) matches Some(obj) && obj.structure matches StructureModel::Type { methods, .. } && ns_get(
            methods,
            name,
        ) == Some(m),
    ensures
        rt_method_of(s, t, name) == Ok::<Option<MemoryAddress>, RuntimeError>(Some(m)),
{
    let n = s.mem.cells.len();
    assert(n > 0);
    assert(lookup_method(s.mem, sup, name, (n - 1) as nat) == Ok::<Option<MemoryAddress>, RuntimeError>(Some(m)));
    assert(lookup_method(s.mem, t, name, n) == lookup_method(s.mem, sup, name, (n - 1) as nat));
}
} // verus!
