//! The object memory: a vector of cells, each holding one object, with the
//! list of freed cells that the next allocations reuse, most recent first.

use vstd::prelude::*;
use crate::runtime::error::RuntimeError;
use crate::runtime::namespace::MemoryAddress;
use crate::runtime::object::{BuiltInTypeData, ObjModel, PyObject, PyObjectStructure, builtin_obj};

verus! {

/// One cell of memory.
pub struct MemoryCell {
    pub data: Option<PyObject>,
    pub valid: bool,
    pub is_const: bool,
}

/// The value of a cell.
pub struct CellModel {
    pub data: Option<ObjModel>,
    pub valid: bool,
    pub is_const: bool,
}

impl View for MemoryCell {
    type V = CellModel;

    open spec fn view(&self) -> CellModel {
        CellModel {
            data: match &self.data {
                Some(o) => Some(o@),
                None => None,
            },
            valid: self.valid,
            is_const: self.is_const,
        }
    }
}

/// The object memory.
pub struct Memory {
    pub memory: Vec<MemoryCell>,
    pub recently_deallocated_indexes: Vec<MemoryAddress>,
}

/// The value of the memory: its cells and the freed addresses, the next to reuse last.
pub struct MemoryModel {
    pub cells: Seq<CellModel>,
    pub free: Seq<MemoryAddress>,
}

impl View for Memory {
    type V = MemoryModel;

    open spec fn view(&self) -> MemoryModel {
        MemoryModel {
            cells: self.memory@.map_values(|c: MemoryCell| c@),
            free: self.recently_deallocated_indexes@,
        }
    }
}

/// How many cells of memory exist and how many of them hold a live object.
#[derive(Debug, Clone, Copy, PartialEq, Eq, Structural)]
pub struct MemoryStatistics {
    pub allocated_slots: usize,
    pub slots_in_use: usize,
}

/// The number of cells that hold a live object.
pub open spec fn count_valid(cells: Seq<CellModel>) -> nat
    decreases cells.len(),
{
    if cells.len() == 0 {
        0
    } else {
        count_valid(cells.drop_last()) + if cells.last().valid {
            1nat
        } else {
            0nat
        }
    }
}

/// The memory is consistent: the freed addresses are distinct freed cells that
/// are not constant, every live cell holds an object, and every cell is either
/// live or freed.
pub open spec fn mem_wf(m: MemoryModel) -> bool {
    &&& forall|i: int|
        0 <= i < m.free.len() ==> {
            &&& (#[trigger] m.free[i]) < m.cells.len()
            &&& !m.cells[m.free[i] as int].valid
            &&& !m.cells[m.free[i] as int].is_const
        }
    &&& forall|i: int, j: int| 0 <= i < j < m.free.len() ==> m.free[i] != m.free[j]
    &&& forall|a: int| 0 <= a < m.cells.len() && (#[trigger] m.cells[a]).valid ==> m.cells[a].data is Some
    &&& count_valid(m.cells) + m.free.len() == m.cells.len()
}

/// The object at `a`, when `a` is a live cell.
pub open spec fn mem_get(m: MemoryModel, a: int) -> Option<ObjModel> {
    if 0 <= a < m.cells.len() && m.cells[a].valid {
        m.cells[a].data
    } else {
        None
    }
}

/// The memory with `obj` written in a cell: the most recently freed one, or a new one at the end.
pub open spec fn spec_allocate(m: MemoryModel, obj: ObjModel) -> (MemoryModel, MemoryAddress) {
    let cell = CellModel { data: Some(obj), valid: true, is_const: false };
    if m.free.len() > 0 {
        let a = m.free.last();
        (MemoryModel { cells: m.cells.update(a as int, cell), free: m.free.drop_last() }, a)
    } else {
        (MemoryModel { cells: m.cells.push(cell), free: m.free }, m.cells.len() as MemoryAddress)
    }
}

/// The memory with the live cell `a` freed; a constant cell stays as it is.
pub open spec fn spec_deallocate(m: MemoryModel, a: MemoryAddress) -> Result<MemoryModel, RuntimeError> {
    if a >= m.cells.len() {
        Err(RuntimeError::InvalidAddress(a))
    } else if m.cells[a as int].is_const {
        Ok(m)
    } else if !m.cells[a as int].valid {
        Err(RuntimeError::AlreadyFreed(a))
    } else {
        Ok(
            MemoryModel {
                cells: m.cells.update(
                    a as int,
                    CellModel { valid: false, ..m.cells[a as int] },
                ),
                free: m.free.push(a),
            },
        )
    }
}

/// The memory with the object in the live cell `a` replaced by `obj`.
pub open spec fn spec_write(m: MemoryModel, a: MemoryAddress, obj: ObjModel) -> Result<
    MemoryModel,
    RuntimeError,
> {
    if mem_get(m, a as int) is None {
        Err(RuntimeError::InvalidAddress(a))
    } else {
        Ok(
            MemoryModel {
                cells: m.cells.update(a as int, CellModel { data: Some(obj), ..m.cells[a as int] }),
                free: m.free,
            },
        )
    }
}

/// The memory with the live cell `a` made constant: it is never freed afterwards.
pub open spec fn spec_make_const(m: MemoryModel, a: MemoryAddress) -> Result<MemoryModel, RuntimeError> {
    if mem_get(m, a as int) is None {
        Err(RuntimeError::InvalidAddress(a))
    } else {
        Ok(
            MemoryModel {
                cells: m.cells.update(a as int, CellModel { is_const: true, ..m.cells[a as int] }),
                free: m.free,
            },
        )
    }
}

/// Replacing one cell changes the live count by the change of that cell alone.
pub proof fn lemma_count_update(cells: Seq<CellModel>, a: int, c: CellModel)
    requires
        0 <= a < cells.len(),
    ensures
        count_valid(cells.update(a, c)) + (if cells[a].valid {
            1int
        } else {
            0int
        }) == count_valid(cells) + (if c.valid {
            1int
        } else {
            0int
        }),
    decreases cells.len(),
{
    let u = cells.update(a, c);
    if a == cells.len() - 1 {
        assert(u.drop_last() =~= cells.drop_last());
    } else {
        lemma_count_update(cells.drop_last(), a, c);
        assert(u.drop_last() =~= cells.drop_last().update(a, c));
    }
}

/// Appending a cell adds it to the live count when it is live.
pub proof fn lemma_count_push(cells: Seq<CellModel>, c: CellModel)
    ensures
        count_valid(cells.push(c)) == count_valid(cells) + if c.valid {
            1nat
        } else {
            0nat
        },
{
    assert(cells.push(c).drop_last() =~= cells);
}

/// The live count is at most the number of cells.
pub proof fn lemma_count_le(cells: Seq<CellModel>)
    ensures
        count_valid(cells) <= cells.len(),
    decreases cells.len(),
{
    if cells.len() > 0 {
        lemma_count_le(cells.drop_last());
    }
}

/// Allocation keeps the memory consistent, writes the object at the address it
/// returns, and leaves every other cell as it was.
pub proof fn lemma_allocate(m: MemoryModel, obj: ObjModel)
    requires
        mem_wf(m),
        m.free.len() == 0 ==> m.cells.len() < usize::MAX,
    ensures
        mem_wf(spec_allocate(m, obj).0),
        mem_get(spec_allocate(m, obj).0, spec_allocate(m, obj).1 as int) == Some(obj),
        mem_get(m, spec_allocate(m, obj).1 as int) is None,
        forall|b: int| b != spec_allocate(m, obj).1 ==> mem_get(spec_allocate(m, obj).0, b) == mem_get(m, b),
{
    let (m2, a) = spec_allocate(m, obj);
    let cell = CellModel { data: Some(obj), valid: true, is_const: false };
    if m.free.len() > 0 {
        let k = m.free.len() - 1;
        assert(m.free[k] == a);
        lemma_count_update(m.cells, a as int, cell);
        assert forall|i: int| 0 <= i < m2.free.len() implies {
            &&& (#[trigger] m2.free[i]) < m2.cells.len()
            &&& !m2.cells[m2.free[i] as int].valid
            &&& !m2.cells[m2.free[i] as int].is_const
        } by {
            assert(m2.free[i] == m.free[i]);
            assert(m.free[i] != m.free[k]);
        }
    } else {
        lemma_count_push(m.cells, cell);
    }
}

/// Freeing a cell keeps the memory consistent.
pub proof fn lemma_deallocate(m: MemoryModel, a: MemoryAddress)
    requires
        mem_wf(m),
        spec_deallocate(m, a) is Ok,
    ensures
        mem_wf(spec_deallocate(m, a)->Ok_0),
        forall|b: int| b != a ==> mem_get(spec_deallocate(m, a)->Ok_0, b) == mem_get(m, b),
{
    if !m.cells[a as int].is_const {
        let m2 = spec_deallocate(m, a)->Ok_0;
        let c = CellModel { valid: false, ..m.cells[a as int] };
        lemma_count_update(m.cells, a as int, c);
        lemma_count_le(m.cells);
        assert forall|i: int| 0 <= i < m.free.len() implies m.free[i] != a by {
            assert(!m.cells[m.free[i] as int].valid);
        }
        assert forall|i: int| 0 <= i < m2.free.len() implies {
            &&& (#[trigger] m2.free[i]) < m2.cells.len()
            &&& !m2.cells[m2.free[i] as int].valid
            &&& !m2.cells[m2.free[i] as int].is_const
        } by {
            if i < m.free.len() {
                assert(m2.free[i] == m.free[i]);
            }
        }
    }
}

/// Writing or making constant a live cell keeps the memory consistent.
pub proof fn lemma_update_live(m: MemoryModel, a: int, c: CellModel)
    requires
        mem_wf(m),
        0 <= a < m.cells.len(),
        m.cells[a].valid,
        c.valid,
        c.data is Some,
    ensures
        mem_wf(MemoryModel { cells: m.cells.update(a, c), free: m.free }),
{
    let m2 = MemoryModel { cells: m.cells.update(a, c), free: m.free };
    lemma_count_update(m.cells, a, c);
    assert forall|i: int| 0 <= i < m2.free.len() implies {
        &&& (#[trigger] m2.free[i]) < m2.cells.len()
        &&& !m2.cells[m2.free[i] as int].valid
        &&& !m2.cells[m2.free[i] as int].is_const
    } by {
        assert(m.free[i] != a);
    }
}

/// The statistics of a memory.
pub open spec fn spec_statistics(m: MemoryModel) -> MemoryStatistics {
    MemoryStatistics {
        allocated_slots: m.cells.len() as usize,
        slots_in_use: count_valid(m.cells) as usize,
    }
}

/// Every cell of a consistent memory is either in use or waiting to be reused.
pub proof fn law_slots_in_use_and_free(m: MemoryModel)
    requires
        mem_wf(m),
    ensures
        count_valid(m.cells) + m.free.len() == m.cells.len(),
{
}

impl Memory {
    /// An empty memory.
    pub fn new() -> (r: Memory)
        ensures
            r@.cells.len() == 0,
            r@.free.len() == 0,
            mem_wf(r@),
    {
        let r = Memory { memory: Vec::new(), recently_deallocated_indexes: Vec::new() };
        assert(r@.cells =~= Seq::<CellModel>::empty());
        r
    }

    /// The object at `address`.
    pub fn get(&self, address: MemoryAddress) -> (r: Result<&PyObject, RuntimeError>)
        requires
            mem_wf(self@),
        ensures
            match r {
                Ok(o) => mem_get(self@, address as int) == Some(o@),
                Err(e) => mem_get(self@, address as int) is None && e == RuntimeError::InvalidAddress(
                    address,
                ),
            },
    {
        if address >= self.memory.len() {
            return Err(RuntimeError::InvalidAddress(address));
        }
        let cell = &self.memory[address];
        assert(self@.cells[address as int] == cell@);
        if cell.valid {
            match &cell.data {
                Some(o) => Ok(o),
                None => Err(RuntimeError::InvalidAddress(address)),
            }
        } else {
            Err(RuntimeError::InvalidAddress(address))
        }
    }

    /// Replaces the object at the live address `address`.
    pub fn write(&mut self, address: MemoryAddress, data: PyObject) -> (r: Result<(), RuntimeError>)
        requires
            mem_wf(old(self)@),
        ensures
            mem_wf(final(self)@),
            match spec_write(old(self)@, address, data@) {
                Ok(m) => r == Ok::<(), RuntimeError>(()) && final(self)@ == m,
                Err(e) => r == Err::<(), RuntimeError>(e) && final(self)@ == old(self)@,
            },
    {
        if address >= self.memory.len() || !self.memory[address].valid {
            return Err(RuntimeError::InvalidAddress(address));
        }
        let ghost m = self@;
        let ghost c = CellModel { data: Some(data@), ..m.cells[address as int] };
        self.memory[address].data = Some(data);
        proof {
            assert(self@.cells =~= m.cells.update(address as int, c));
            lemma_update_live(m, address as int, c);
        }
        Ok(())
    }

    /// Makes the live cell `address` constant, so that it is never freed.
    pub fn make_const(&mut self, address: MemoryAddress) -> (r: Result<(), RuntimeError>)
        requires
            mem_wf(old(self)@),
        ensures
            mem_wf(final(self)@),
            match spec_make_const(old(self)@, address) {
                Ok(m) => r == Ok::<(), RuntimeError>(()) && final(self)@ == m,
                Err(e) => r == Err::<(), RuntimeError>(e) && final(self)@ == old(self)@,
            },
    {
        if address >= self.memory.len() || !self.memory[address].valid {
            return Err(RuntimeError::InvalidAddress(address));
        }
        let ghost m = self@;
        let ghost c = CellModel { is_const: true, ..m.cells[address as int] };
        self.memory[address].is_const = true;
        proof {
            assert(self@.cells =~= m.cells.update(address as int, c));
            lemma_update_live(m, address as int, c);
        }
        Ok(())
    }

    /// Frees the cell `address`, unless it is constant.
    pub fn deallocate(&mut self, address: MemoryAddress) -> (r: Result<(), RuntimeError>)
        requires
            mem_wf(old(self)@),
        ensures
            mem_wf(final(self)@),
            match spec_deallocate(old(self)@, address) {
                Ok(m) => r == Ok::<(), RuntimeError>(()) && final(self)@ == m,
                Err(e) => r == Err::<(), RuntimeError>(e) && final(self)@ == old(self)@,
            },
    {
        if address >= self.memory.len() {
            return Err(RuntimeError::InvalidAddress(address));
        }
        if self.memory[address].is_const {
            return Ok(());
        }
        if !self.memory[address].valid {
            return Err(RuntimeError::AlreadyFreed(address));
        }
        let ghost m = self@;
        self.memory[address].valid = false;
        self.recently_deallocated_indexes.push(address);
        proof {
            let c = CellModel { valid: false, ..m.cells[address as int] };
            assert(self@.cells =~= m.cells.update(address as int, c));
            lemma_deallocate(m, address);
        }
        Ok(())
    }

    /// Writes `data` in a free cell (the most recently freed one, else a new
    /// one) and returns its address.
    pub fn allocate_and_write(&mut self, data: PyObject) -> (r: MemoryAddress)
        requires
            mem_wf(old(self)@),
            old(self)@.free.len() == 0 ==> old(self)@.cells.len() < usize::MAX,
        ensures
            mem_wf(final(self)@),
            (final(self)@, r) == spec_allocate(old(self)@, data@),
    {
        let ghost m = self@;
        let ghost obj = data@;
        proof {
            lemma_allocate(m, obj);
        }
        match self.recently_deallocated_indexes.pop() {
            Some(address) => {
                assert(address == m.free.last());
                self.memory.set(address, MemoryCell { data: Some(data), valid: true, is_const: false });
                assert(self@.cells =~= spec_allocate(m, obj).0.cells);
                assert(self@.free =~= spec_allocate(m, obj).0.free);
                address
            },
            None => {
                self.memory.push(MemoryCell { data: Some(data), valid: true, is_const: false });
                assert(self@.cells =~= spec_allocate(m, obj).0.cells);
                self.memory.len() - 1
            },
        }
    }

    /// Writes a fresh object of the type at `type_addr` holding `data`, with no
    /// references counted, and returns its address.
    pub fn allocate_and_write_builtin(&mut self, type_addr: MemoryAddress, data: BuiltInTypeData) -> (r:
        MemoryAddress)
        requires
            mem_wf(old(self)@),
            old(self)@.free.len() == 0 ==> old(self)@.cells.len() < usize::MAX,
        ensures
            mem_wf(final(self)@),
            (final(self)@, r) == spec_allocate(old(self)@, builtin_obj(type_addr, data@)),
    {
        self.allocate_and_write(
            PyObject { type_addr, structure: PyObjectStructure::Object { raw_data: data, refcount: 0 } },
        )
    }

    /// How many cells exist and how many hold a live object.
    pub fn get_statistics(&self) -> (r: MemoryStatistics)
        requires
            mem_wf(self@),
        ensures
            r == spec_statistics(self@),
            r.slots_in_use + self@.free.len() == r.allocated_slots,
    {
        let n = self.memory.len();
        let mut in_use: usize = 0;
        let mut i: usize = 0;
        proof {
            lemma_count_le(self@.cells);
        }
        while i < n
            invariant
                n == self@.cells.len(),
                i <= n,
                in_use == count_valid(self@.cells.take(i as int)),
                in_use <= i,
            decreases n - i,
        {
            assert(self@.cells.take(i as int + 1).drop_last() =~= self@.cells.take(i as int));
            if self.memory[i].valid {
                in_use = in_use + 1;
            }
            i = i + 1;
        }
        assert(self@.cells.take(n as int) =~= self@.cells);
        MemoryStatistics { allocated_slots: n, slots_in_use: in_use }
    }
}

} // verus!
