//! Model of the store's component registry: maps a component type's stable
//! key to its numeric registry index and declared storage layout.

use vstd::prelude::*;

verus! {

use crate::storage::StorageKind;

/// The component registry: assigns each component type (identified by a
/// caller-chosen stable key) a registry index, and records the storage
/// layout declared when the type was first registered.
pub struct ComponentRegistry {
    /// The registered type keys; `keys[i]` was assigned index `i`.
    pub keys: Vec<u64>,
    /// `kinds[i]` is the storage layout declared for `keys[i]`.
    pub kinds: Vec<StorageKind>,
}

impl ComponentRegistry {
    /// Well-formedness: one layout per key, and no key registered twice.
    pub open spec fn wf(self) -> bool {
        &&& self.keys@.len() == self.kinds@.len()
        &&& forall|i: int, j: int| 0 <= i < j < self.keys@.len() ==> self.keys@[i] != self.keys@[j]
    }

    /// Whether the type with key `type_key` has been registered.
    pub open spec fn spec_registered(self, type_key: u64) -> bool {
        self.keys@.contains(type_key)
    }

    /// The registry index assigned to `type_key` (meaningful when
    /// registered).
    pub open spec fn spec_index_of(self, type_key: u64) -> int {
        self.keys@.index_of(type_key)
    }

    /// The storage layout recorded for `type_key` (meaningful when
    /// registered).
    pub open spec fn spec_kind_of(self, type_key: u64) -> StorageKind {
        self.kinds@[self.spec_index_of(type_key)]
    }

    /// An empty registry.
    pub fn new() -> (r: Self)
        ensures
            r.wf(),
            r.keys@ == Seq::<u64>::empty(),
    {
        ComponentRegistry { keys: Vec::new(), kinds: Vec::new() }
    }

    /// Resolves the registry index of the component type with key
    /// `type_key`, registering the type with layout `kind` if the registry
    /// has never seen it. Idempotent: once a type is registered, every later
    /// call returns the same index, leaves the registry unchanged, and
    /// ignores the `kind` argument (the layout declared first wins).
    pub fn init_component(&mut self, type_key: u64, kind: StorageKind) -> (index: usize)
        requires
            old(self).wf(),
        ensures
            final(self).wf(),
            final(self).spec_registered(type_key),
            index as int == final(self).spec_index_of(type_key),
            index < final(self).keys@.len(),
            old(self).spec_registered(type_key) ==> *final(self) == *old(self),
            !old(self).spec_registered(type_key) ==> {
                &&& final(self).keys@ == old(self).keys@.push(type_key)
                &&& final(self).kinds@ == old(self).kinds@.push(kind)
                &&& index as int == old(self).keys@.len()
            },
            forall|k: u64|
                final(self).spec_registered(k) <==> (old(self).spec_registered(k) || k
                    == type_key),
            forall|k: u64|
                old(self).spec_registered(k) ==> final(self).spec_kind_of(k) == old(
                    self,
                ).spec_kind_of(k),
    {
        let n = self.keys.len();
        let mut i: usize = 0;
        while i < n
            invariant
                self.wf(),
                n == self.keys@.len(),
                0 <= i <= n,
                forall|k: int| 0 <= k < i ==> self.keys@[k] != type_key,
            decreases n - i,
        {
            if self.keys[i] == type_key {
                proof {
                    assert(self.keys@[i as int] == type_key);
                    let j = self.keys@.index_of(type_key);
                    assert(0 <= j < self.keys@.len() && self.keys@[j] == type_key);
                    if j != i as int {
                        assert(false);
                    }
                }
                return i;
            }
            i += 1;
        }
        self.keys.push(type_key);
        self.kinds.push(kind);
        proof {
            let m = old(self).keys@.len() as int;
            assert(self.keys@[m] == type_key);
            assert(self.spec_index_of(type_key) == m) by {
                let j = self.keys@.index_of(type_key);
                assert(0 <= j < self.keys@.len() && self.keys@[j] == type_key);
                if j < m {
                    assert(old(self).keys@[j] == type_key);
                }
            }
            assert forall|k: u64|
                self.spec_registered(k) <==> (old(self).spec_registered(k) || k == type_key) by {
                if self.spec_registered(k) {
                    let j = choose|j: int| 0 <= j < self.keys@.len() && self.keys@[j] == k;
                    if j < m {
                        assert(old(self).keys@[j] == k);
                    } else {
                        assert(k == type_key);
                    }
                }
                if old(self).spec_registered(k) {
                    let j = choose|j: int|
                        0 <= j < old(self).keys@.len() && old(self).keys@[j] == k;
                    assert(self.keys@[j] == k);
                }
            }
            assert forall|k: u64|
                old(self).spec_registered(k) implies self.spec_kind_of(k) == old(
                self,
            ).spec_kind_of(k) by {
                let i0 = old(self).keys@.index_of(k);
                assert(0 <= i0 < old(self).keys@.len() && old(self).keys@[i0] == k);
                let j0 = self.keys@.index_of(k);
                assert(self.keys@[i0] == k);
                assert(0 <= j0 < self.keys@.len() && self.keys@[j0] == k);
                if j0 == m {
                    assert(old(self).keys@[i0] != type_key);
                    assert(false);
                }
                if i0 != j0 {
                    assert(old(self).keys@[i0] != old(self).keys@[j0]);
                }
            }
        }
        n
    }

    /// How many component types are registered.
    pub fn len(&self) -> (r: usize)
        ensures
            r == self.keys@.len(),
    {
        self.keys.len()
    }

    /// The storage layout recorded at a registry index.
    pub fn storage_kind(&self, index: usize) -> (k: StorageKind)
        requires
            self.wf(),
            index < self.keys@.len(),
        ensures
            k == self.kinds@[index as int],
    {
        self.kinds[index]
    }
}

} // verus!
