//! Name tables: an ordered list of (name, address) bindings.

use vstd::prelude::*;
use vstd::string::*;
use crate::text::str_equal;

verus! {

pub type MemoryAddress = usize;

/// One binding of a name table.
pub struct NameEntry {
    pub name: String,
    pub addr: MemoryAddress,
}

/// A name table. A name is bound at most once; binding it again replaces its address.
pub struct Namespace {
    pub entries: Vec<NameEntry>,
}

/// The bindings of a name table, in order.
pub type NamespaceModel = Seq<(Seq<char>, MemoryAddress)>;

impl View for Namespace {
    type V = NamespaceModel;

    open spec fn view(&self) -> NamespaceModel {
        self.entries@.map_values(|e: NameEntry| (e.name@, e.addr))
    }
}

/// Whether `i` is the index of the first binding of `name`.
pub open spec fn is_first_index(ns: NamespaceModel, name: Seq<char>, i: int) -> bool {
    &&& 0 <= i < ns.len()
    &&& ns[i].0 == name
    &&& forall|j: int| 0 <= j < i ==> ns[j].0 != name
}

/// The index of the first binding of `name`.
pub open spec fn ns_index(ns: NamespaceModel, name: Seq<char>) -> Option<int> {
    if exists|i: int| is_first_index(ns, name, i) {
        Some(choose|i: int| is_first_index(ns, name, i))
    } else {
        None
    }
}

/// The address bound to `name`.
pub open spec fn ns_get(ns: NamespaceModel, name: Seq<char>) -> Option<MemoryAddress> {
    match ns_index(ns, name) {
        Some(i) => Some(ns[i].1),
        None => None,
    }
}

/// The table with `name` bound to `addr`: in place when it is bound, else at the end.
pub open spec fn ns_insert(ns: NamespaceModel, name: Seq<char>, addr: MemoryAddress) -> NamespaceModel {
    match ns_index(ns, name) {
        Some(i) => ns.update(i, (name, addr)),
        None => ns.push((name, addr)),
    }
}

/// `ns_index` is the first index that binds the name, and `None` when no index does.
pub proof fn lemma_ns_index(ns: NamespaceModel, name: Seq<char>)
    ensures
        ns_index(ns, name) matches Some(i) ==> is_first_index(ns, name, i),
        ns_index(ns, name) is None ==> forall|j: int| 0 <= j < ns.len() ==> ns[j].0 != name,
{
    if ns_index(ns, name) is None {
        assert forall|j: int| 0 <= j < ns.len() implies ns[j].0 != name by {
            if ns[j].0 == name {
                let k = first_binding(ns, name, j);
                assert(is_first_index(ns, name, k));
            }
        }
    }
}

/// A first binding exists below every binding.
proof fn first_binding(ns: NamespaceModel, name: Seq<char>, j: int) -> (k: int)
    requires
        0 <= j < ns.len(),
        ns[j].0 == name,
    ensures
        is_first_index(ns, name, k),
        k <= j,
    decreases j,
{
    if exists|m: int| 0 <= m < j && ns[m].0 == name {
        let m = choose|m: int| 0 <= m < j && ns[m].0 == name;
        first_binding(ns, name, m)
    } else {
        j
    }
}

/// The first binding of a name is unique.
proof fn lemma_first_unique(ns: NamespaceModel, name: Seq<char>, i: int)
    requires
        is_first_index(ns, name, i),
    ensures
        ns_index(ns, name) == Some(i),
{
    let k = choose|k: int| is_first_index(ns, name, k);
    assert(is_first_index(ns, name, k));
    if k < i {
        assert(ns[k].0 != name);
    }
    if i < k {
        assert(ns[i].0 != name);
    }
}

/// Binding a name leaves every other binding as it was.
pub proof fn lemma_ns_insert_get(ns: NamespaceModel, name: Seq<char>, addr: MemoryAddress, other: Seq<char>)
    ensures
        ns_get(ns_insert(ns, name, addr), other) == if other == name {
            Some(addr)
        } else {
            ns_get(ns, other)
        },
{
    lemma_ns_index(ns, name);
    lemma_ns_index(ns, other);
    let ns2 = ns_insert(ns, name, addr);
    match ns_index(ns, name) {
        Some(i) => {
            assert(ns2.len() == ns.len());
            if other == name {
                lemma_first_unique(ns2, other, i);
            } else {
                match ns_index(ns, other) {
                    Some(k) => {
                        assert(k != i);
                        lemma_first_unique(ns2, other, k);
                    },
                    None => {
                        lemma_ns_index(ns2, other);
                        if ns_index(ns2, other) is Some {
                            let k = ns_index(ns2, other)->0;
                            assert(ns2[k].0 == ns[k].0);
                        }
                    },
                }
            }
        },
        None => {
            if other == name {
                lemma_first_unique(ns2, other, ns.len() as int);
            } else {
                match ns_index(ns, other) {
                    Some(k) => {
                        lemma_first_unique(ns2, other, k);
                    },
                    None => {
                        lemma_ns_index(ns2, other);
                        if ns_index(ns2, other) is Some {
                            let k = ns_index(ns2, other)->0;
                            assert(k < ns.len());
                            assert(ns2[k].0 == ns[k].0);
                        }
                    },
                }
            }
        },
    }
}

impl Namespace {
    /// An empty table.
    pub fn new() -> (r: Namespace)
        ensures
            r@ == Seq::<(Seq<char>, MemoryAddress)>::empty(),
    {
        let r = Namespace { entries: Vec::new() };
        assert(r@ =~= Seq::<(Seq<char>, MemoryAddress)>::empty());
        r
    }

    /// The index of the binding of `name`.
    pub fn index_of(&self, name: &str) -> (r: Option<usize>)
        ensures
            match ns_index(self@, name@) {
                Some(i) => r == Some(i as usize),
                None => r is None,
            },
    {
        let ghost v = self@;
        let mut i: usize = 0;
        while i < self.entries.len()
            invariant
                i <= self.entries.len(),
                v == self@,
                v.len() == self.entries@.len(),
                forall|j: int| 0 <= j < i ==> v[j].0 != name@,
            decreases self.entries.len() - i,
        {
            assert(v[i as int].0 == self.entries@[i as int].name@);
            if str_equal(self.entries[i].name.as_str(), name) {
                proof {
                    lemma_first_unique(v, name@, i as int);
                }
                return Some(i);
            }
            i = i + 1;
        }
        proof {
            lemma_ns_index(v, name@);
            if ns_index(v, name@) is Some {
                let k = ns_index(v, name@)->0;
                assert(v[k].0 == name@);
            }
        }
        None
    }

    /// The address bound to `name`.
    pub fn get(&self, name: &str) -> (r: Option<MemoryAddress>)
        ensures
            r == ns_get(self@, name@),
    {
        proof {
            lemma_ns_index(self@, name@);
        }
        let idx = self.index_of(name);
        let n = self.entries.len();
        match idx {
            Some(i) => {
                assert(ns_index(self@, name@) is Some);
                let ghost k = ns_index(self@, name@)->0;
                assert(is_first_index(self@, name@, k));
                assert(self@.len() == n);
                assert(idx == Some(k as usize));
                assert(k == i as int);
                assert(self@[i as int].1 == self.entries@[i as int].addr);
                Some(self.entries[i].addr)
            },
            None => None,
        }
    }

    /// Binds `name` to `addr`.
    pub fn insert(&mut self, name: &str, addr: MemoryAddress)
        ensures
            final(self)@ == ns_insert(old(self)@, name@, addr),
    {
        proof {
            lemma_ns_index(self@, name@);
        }
        let ghost v = self@;
        let idx = self.index_of(name);
        let n = self.entries.len();
        match idx {
            Some(i) => {
                assert(ns_index(v, name@) is Some);
                let ghost k = ns_index(v, name@)->0;
                assert(is_first_index(v, name@, k));
                assert(v.len() == n);
                assert(idx == Some(k as usize));
                assert(k == i as int);
                self.entries.set(i, NameEntry { name: String::from_str(name), addr });
                assert(self@ =~= v.update(i as int, (name@, addr)));
            },
            None => {
                self.entries.push(NameEntry { name: String::from_str(name), addr });
                assert(self@ =~= v.push((name@, addr)));
            },
        }
    }
}

} // verus!
