//! Model of the entity store's two physical component layouts.
//!
//! A component type is stored in exactly one of two ways:
//!
//! * dense / table layout: all entities of an archetype hold the component in
//!   one contiguous column, indexable by physical row ([`DenseTable`]);
//! * sparse layout: an associative set maps entity identity directly to the
//!   component value ([`SparseSet`]).
//!
//! [`ArchetypeChunk`] is the per-archetype bookkeeping both layouts share:
//! the ordered entity list and, for the dense layout, the mapping from
//! archetype-local index to physical table row.

use vstd::prelude::*;

verus! {

/// The physical layout a component type is stored in. Declared once per
/// component type at registration and fixed for the type's lifetime.
#[derive(Clone, Copy, PartialEq, Eq, Structural, Debug)]
pub enum StorageKind {
    /// Dense columnar storage: contiguous per-archetype columns.
    Table,
    /// Associative storage keyed by entity identity.
    SparseSet,
}

/// Associative storage for one component type: maps entity identity to the
/// entity's current component value.
pub struct SparseSet<T> {
    /// The entities that currently hold the component, each at most once.
    pub entities: Vec<u64>,
    /// `values[i]` is the component value of `entities[i]`.
    pub values: Vec<T>,
}

impl<T> SparseSet<T> {
    /// Well-formedness: one value per entity, and no entity listed twice.
    pub open spec fn wf(self) -> bool {
        &&& self.entities@.len() == self.values@.len()
        &&& forall|i: int, j: int|
            0 <= i < j < self.entities@.len() ==> self.entities@[i] != self.entities@[j]
    }

    /// Whether `entity` currently holds the component.
    pub open spec fn spec_contains(self, entity: u64) -> bool {
        self.entities@.contains(entity)
    }

    /// The component value held by `entity` (meaningful when present).
    pub open spec fn spec_at(self, entity: u64) -> T {
        self.values@[self.entities@.index_of(entity)]
    }

    /// An empty sparse set: no entity holds the component.
    pub fn new() -> (r: Self)
        ensures
            r.wf(),
            r.entities@ == Seq::<u64>::empty(),
            r.values@ == Seq::<T>::empty(),
    {
        SparseSet { entities: Vec::new(), values: Vec::new() }
    }

    /// How many entities hold the component.
    pub fn len(&self) -> (r: usize)
        ensures
            r == self.entities@.len(),
    {
        self.entities.len()
    }

    /// Gives `entity` the component value `value`. The filter engine itself
    /// never mutates storage; this exists so that callers can build a store.
    pub fn insert(&mut self, entity: u64, value: T)
        requires
            old(self).wf(),
            !old(self).spec_contains(entity),
        ensures
            final(self).wf(),
            final(self).entities@ == old(self).entities@.push(entity),
            forall|e: u64|
                final(self).spec_contains(e) <==> (old(self).spec_contains(e) || e == entity),
            final(self).spec_at(entity) == value,
            forall|e: u64|
                old(self).spec_contains(e) ==> final(self).spec_at(e) == old(self).spec_at(e),
    {
        self.entities.push(entity);
        self.values.push(value);
        proof {
            let n = old(self).entities@.len() as int;
            assert forall|e: u64|
                self.spec_contains(e) <==> (old(self).spec_contains(e) || e == entity) by {
                if self.spec_contains(e) {
                    let i = choose|i: int|
                        0 <= i < self.entities@.len() && self.entities@[i] == e;
                    if i < n {
                        assert(old(self).entities@[i] == e);
                    } else {
                        assert(e == entity);
                    }
                }
                if old(self).spec_contains(e) {
                    let i = choose|i: int|
                        0 <= i < old(self).entities@.len() && old(self).entities@[i] == e;
                    assert(self.entities@[i] == e);
                }
                if e == entity {
                    assert(self.entities@[n] == e);
                }
            }
            assert(self.spec_at(entity) == value) by {
                let i = self.entities@.index_of(entity);
                assert(self.entities@[n] == entity);
                assert(0 <= i < self.entities@.len() && self.entities@[i] == entity);
                if i != n {
                    assert(old(self).entities@[i] == entity);
                    assert(old(self).spec_contains(entity));
                }
            }
            assert forall|e: u64|
                old(self).spec_contains(e) implies self.spec_at(e) == old(self).spec_at(e) by {
                let i = old(self).entities@.index_of(e);
                assert(0 <= i < old(self).entities@.len() && old(self).entities@[i] == e);
                let j = self.entities@.index_of(e);
                assert(self.entities@[i] == e);
                assert(0 <= j < self.entities@.len() && self.entities@[j] == e);
                if j == n {
                    assert(old(self).spec_contains(entity));
                    assert(false);
                }
                if i != j {
                    assert(old(self).entities@[i] != old(self).entities@[j]);
                }
            }
        }
    }

    /// Looks `entity` up: the current component value, if the entity holds
    /// the component.
    pub fn get(&self, entity: u64) -> (r: Option<&T>)
        requires
            self.wf(),
        ensures
            match r {
                Some(v) => self.spec_contains(entity) && *v == self.spec_at(entity),
                None => !self.spec_contains(entity),
            },
    {
        let n = self.entities.len();
        let mut i: usize = 0;
        while i < n
            invariant
                self.wf(),
                n == self.entities@.len(),
                0 <= i <= n,
                forall|k: int| 0 <= k < i ==> self.entities@[k] != entity,
            decreases n - i,
        {
            if self.entities[i] == entity {
                proof {
                    assert(self.entities@[i as int] == entity);
                    let j = self.entities@.index_of(entity);
                    assert(0 <= j < self.entities@.len() && self.entities@[j] == entity);
                    if j < i as int {
                        assert(false);
                    }
                    if (i as int) < j {
                        assert(self.entities@[i as int] != self.entities@[j]);
                    }
                }
                return Some(&self.values[i]);
            }
            i += 1;
        }
        None
    }
}

/// One dense column: the contiguous per-table storage of a single component
/// type, addressed by physical row.
pub struct DenseTable<T> {
    /// The component the column stores, as its registry index.
    pub component_index: usize,
    /// The column's rows: `rows[r]` is the value in physical row `r`.
    pub rows: Vec<T>,
}

impl<T> DenseTable<T> {
    /// Whether this table holds a column for the component with the given
    /// registry index.
    pub open spec fn spec_has_column(self, component_index: usize) -> bool {
        component_index == self.component_index
    }

    /// A column for component `component_index` holding `rows`.
    pub fn new(component_index: usize, rows: Vec<T>) -> (r: Self)
        ensures
            r.component_index == component_index,
            r.rows == rows,
    {
        DenseTable { component_index, rows }
    }

    /// Resolves the column for a component: its row data, if this table
    /// stores that component.
    pub fn get_column(&self, component_index: usize) -> (r: Option<&Vec<T>>)
        ensures
            match r {
                Some(c) => self.spec_has_column(component_index) && *c == self.rows,
                None => !self.spec_has_column(component_index),
            },
    {
        if component_index == self.component_index {
            Some(&self.rows)
        } else {
            None
        }
    }
}

/// Per-archetype bookkeeping shared by both layouts: the archetype's ordered
/// entity list and its archetype-local-index to physical-row mapping.
pub struct ArchetypeChunk {
    /// The entities of the archetype, in iteration order.
    pub entities: Vec<u64>,
    /// `entity_table_rows[i]` is the physical table row of `entities[i]`
    /// (meaningful for the dense layout).
    pub entity_table_rows: Vec<usize>,
    /// Which table the archetype's dense columns live in.
    pub table_id: usize,
}

impl ArchetypeChunk {
    /// Well-formedness: one table row per entity.
    pub open spec fn wf(self) -> bool {
        self.entities@.len() == self.entity_table_rows@.len()
    }

    /// The number of entities in the archetype.
    pub open spec fn spec_len(self) -> int {
        self.entities@.len() as int
    }

    /// An archetype over the given entities, rows and table.
    pub fn new(entities: Vec<u64>, entity_table_rows: Vec<usize>, table_id: usize) -> (r: Self)
        requires
            entities@.len() == entity_table_rows@.len(),
        ensures
            r.wf(),
            r.entities == entities,
            r.entity_table_rows == entity_table_rows,
            r.table_id == table_id,
    {
        ArchetypeChunk { entities, entity_table_rows, table_id }
    }

    /// The number of entities in the archetype.
    pub fn len(&self) -> (r: usize)
        ensures
            r == self.spec_len(),
    {
        self.entities.len()
    }
}

} // verus!
