//! The filter fetch engine: per-storage-layout value access, fetch-and-test,
//! and the per-query-execution protocol for a [`crate::Check`] descriptor.
//!
//! Per query execution, the host planner:
//! 1. resolves the filtered component against the registry
//!    ([`CheckState::init`]);
//! 2. validates and registers read access (see [`crate::access`]);
//! 3. initialises per-layout fetch state once per physical chunk
//!    ([`CheckFetch::set_archetype`], [`CheckFetch::set_table`]);
//! 4. fetches and tests once per candidate entity
//!    ([`CheckFetch::archetype_filter_fetch`],
//!    [`CheckFetch::table_filter_fetch`]), admitting the entity exactly when
//!    the predicate holds of its current component value.

use vstd::prelude::*;

verus! {

use core::marker::PhantomData;
use vstd::pervasive::arbitrary;
use vstd::pervasive::unreached;
use crate::Predicate;
use crate::registry::ComponentRegistry;
use crate::storage::ArchetypeChunk;
use crate::storage::DenseTable;
use crate::storage::SparseSet;
use crate::storage::StorageKind;

/// Per-query state of a [`crate::Check`] filter: the filtered component's
/// registry index and its declared storage layout, resolved once per query.
pub struct CheckState {
    /// The registry index of the filtered component type.
    pub component_index: usize,
    /// The component type's storage layout, as first registered.
    pub storage: StorageKind,
}

impl CheckState {
    /// Resolves the filtered component type against the registry, registering
    /// it with layout `kind` if the registry has never seen it. Repeated
    /// initialisation across queries is idempotent: the index is stable and
    /// the layout recorded at first registration wins.
    pub fn init(registry: &mut ComponentRegistry, type_key: u64, kind: StorageKind) -> (r: Self)
        requires
            old(registry).wf(),
        ensures
            final(registry).wf(),
            final(registry).spec_registered(type_key),
            r.component_index as int == final(registry).spec_index_of(type_key),
            r.storage == final(registry).spec_kind_of(type_key),
            old(registry).spec_registered(type_key) ==> *final(registry) == *old(registry),
            !old(registry).spec_registered(type_key) ==> {
                &&& r.storage == kind
                &&& final(registry).keys@ == old(registry).keys@.push(type_key)
                &&& r.component_index as int == old(registry).keys@.len()
            },
    {
        let component_index = registry.init_component(type_key, kind);
        let storage = registry.storage_kind(component_index);
        CheckState { component_index, storage }
    }

    /// Whether a storage chunk described by `set_contains_index` (the host's
    /// "does this chunk hold the component with this registry index?" oracle)
    /// matches this filter.
    pub fn matches_component_set<F: Fn(usize) -> bool>(&self, set_contains_index: &F) -> (r: bool)
        requires
            call_requires(*set_contains_index, (self.component_index,)),
        ensures
            call_ensures(*set_contains_index, (self.component_index,), r),
    {
        set_contains_index(self.component_index)
    }
}

/// The per-chunk cached handles of a [`CheckFetch`]: a tagged union over the
/// two storage layouts, selected once per chunk, so that per-entity fetching
/// involves no layout dispatch beyond this tag.
pub enum FetchChunk<'w, T> {
    /// Dense layout, before any chunk has been visited.
    DensePending,
    /// Sparse layout, before any chunk has been visited: the component's
    /// sparse set, resolved once per query execution.
    SparsePending { sparse_set: &'w SparseSet<T> },
    /// Dense layout, iterating a table directly: the cached column.
    Table { table_components: &'w Vec<T> },
    /// Dense layout, iterating an archetype: the cached archetype-index to
    /// table-row mapping and the cached column.
    Dense { entity_table_rows: &'w Vec<usize>, table_components: &'w Vec<T> },
    /// Sparse layout, iterating an archetype: the cached entity list and the
    /// sparse set.
    Sparse { entities: &'w Vec<u64>, sparse_set: &'w SparseSet<T> },
}

/// The fetch machinery of a [`crate::Check`] filter for one query execution:
/// holds the per-chunk cached storage handles, and evaluates the predicate
/// `Pred` against the filtered component's current value per entity.
pub struct CheckFetch<'w, T, Pred: Predicate<T>> {
    /// Carries the predicate type; a `Check` filter has no runtime state of
    /// its own.
    pub pred_marker: PhantomData<Pred>,
    /// The cached handles of the chunk currently iterated.
    pub chunk: FetchChunk<'w, T>,
}

impl<'w, T, Pred: Predicate<T>> CheckFetch<'w, T, Pred> {
    /// Whether a chunk set by [`Self::set_archetype`] is cached, so that
    /// [`Self::archetype_fetch`] may be called.
    pub open spec fn ready_archetype(self) -> bool {
        match self.chunk {
            FetchChunk::Dense { .. } => true,
            FetchChunk::Sparse { .. } => true,
            _ => false,
        }
    }

    /// Whether a column is cached (by [`Self::set_table`] or by
    /// [`Self::set_archetype`] on the dense layout), so that
    /// [`Self::table_fetch`] may be called.
    pub open spec fn ready_table(self) -> bool {
        match self.chunk {
            FetchChunk::Table { .. } => true,
            FetchChunk::Dense { .. } => true,
            _ => false,
        }
    }

    /// The cached column (meaningful when `ready_table`).
    pub open spec fn column_view(self) -> Seq<T> {
        match self.chunk {
            FetchChunk::Table { table_components } => table_components@,
            FetchChunk::Dense { table_components, .. } => table_components@,
            _ => Seq::empty(),
        }
    }

    /// The sparse set this fetch reads (meaningful on the sparse layout).
    pub open spec fn sparse_view(self) -> SparseSet<T> {
        match self.chunk {
            FetchChunk::SparsePending { sparse_set } => *sparse_set,
            FetchChunk::Sparse { sparse_set, .. } => *sparse_set,
            _ => arbitrary(),
        }
    }

    /// How many candidate entities the cached archetype chunk has.
    pub open spec fn chunk_len(self) -> int {
        match self.chunk {
            FetchChunk::Dense { entity_table_rows, .. } => entity_table_rows@.len() as int,
            FetchChunk::Sparse { entities, .. } => entities@.len() as int,
            _ => 0,
        }
    }

    /// Internal consistency of the cached handles: every cached row index
    /// lies within the cached column, and every cached entity is present in
    /// the sparse set. Established by chunk initialisation from the store's
    /// invariants; fetching relies on it.
    pub open spec fn wf(self) -> bool {
        match self.chunk {
            FetchChunk::Dense { entity_table_rows, table_components } => forall|i: int|
                0 <= i < entity_table_rows@.len() ==> (entity_table_rows@[i] as int)
                    < table_components@.len(),
            FetchChunk::Sparse { entities, sparse_set } => sparse_set.wf() && forall|i: int|
                0 <= i < entities@.len() ==> sparse_set.spec_contains(entities@[i]),
            FetchChunk::SparsePending { sparse_set } => sparse_set.wf(),
            _ => true,
        }
    }

    /// The filtered component's current value for the candidate entity at
    /// archetype-local index `i` of the cached chunk.
    pub open spec fn value_at(self, i: int) -> T {
        match self.chunk {
            FetchChunk::Dense { entity_table_rows, table_components } => table_components@[
                entity_table_rows@[i] as int],
            FetchChunk::Sparse { entities, sparse_set } => sparse_set.spec_at(entities@[i]),
            _ => arbitrary(),
        }
    }

    /// Whether the candidate entity at archetype-local index `i` is admitted:
    /// the predicate holds of its current component value.
    pub open spec fn admits(self, i: int) -> bool {
        Pred::spec_test(self.value_at(i))
    }

    /// Creates the fetch state for one query execution. On the sparse layout
    /// the component's sparse set must be handed in, resolved once from the
    /// store; the dense layout resolves its handles per chunk instead.
    pub fn init(state: &CheckState, sparse_set: Option<&'w SparseSet<T>>) -> (r: Self)
        requires
            state.storage == StorageKind::SparseSet ==> sparse_set.is_some()
                && sparse_set.unwrap().wf(),
        ensures
            r.wf(),
            state.storage == StorageKind::Table ==> r.chunk is DensePending,
            state.storage == StorageKind::SparseSet ==> r.chunk is SparsePending
                && r.sparse_view() == *sparse_set.unwrap(),
    {
        match state.storage {
            StorageKind::Table => CheckFetch { pred_marker: PhantomData, chunk: FetchChunk::DensePending },
            StorageKind::SparseSet => {
                let s = match sparse_set {
                    Some(s) => s,
                    None => unreached(),
                };
                CheckFetch { pred_marker: PhantomData, chunk: FetchChunk::SparsePending { sparse_set: s } }
            },
        }
    }

    /// Whether this filter can be iterated in fully dense mode (no per-row
    /// gap checks): true exactly for the dense/table layout. A pure
    /// optimisation signal for the planner.
    pub fn is_dense(state: &CheckState) -> (r: bool)
        ensures
            r == (state.storage == StorageKind::Table),
    {
        match state.storage {
            StorageKind::Table => true,
            StorageKind::SparseSet => false,
        }
    }

    /// Whether admission is decided purely by archetype membership plus this
    /// filter's per-entity test, without change detection: always true.
    pub fn is_archetypal() -> (r: bool)
        ensures
            r,
    {
        true
    }

    /// Caches the handles for one archetype chunk, branching once on the
    /// component's storage layout. Cached handles of a previous chunk are
    /// replaced and never reused.
    ///
    /// Dense layout: resolves the archetype's table and the component's
    /// column in it, plus the archetype-index to table-row mapping. Sparse
    /// layout: caches the archetype's entity list beside the sparse set
    /// resolved at [`Self::init`].
    pub fn set_archetype(
        &mut self,
        state: &CheckState,
        archetype: &'w ArchetypeChunk,
        tables: &'w Vec<DenseTable<T>>,
    )
        requires
            archetype.wf(),
            state.storage == StorageKind::Table ==> {
                &&& (archetype.table_id as int) < tables@.len()
                &&& tables@[archetype.table_id as int].spec_has_column(state.component_index)
                &&& forall|i: int|
                    0 <= i < archetype.entity_table_rows@.len() ==> (
                    archetype.entity_table_rows@[i] as int) < tables@[archetype.table_id as int].rows@.len()
            },
            state.storage == StorageKind::SparseSet ==> {
                &&& (old(self).chunk is SparsePending || old(self).chunk is Sparse)
                &&& old(self).sparse_view().wf()
                &&& forall|i: int|
                    0 <= i < archetype.entities@.len() ==> old(self).sparse_view().spec_contains(
                        archetype.entities@[i],
                    )
            },
        ensures
            final(self).wf(),
            final(self).ready_archetype(),
            final(self).chunk_len() == archetype.spec_len(),
            state.storage == StorageKind::Table ==> final(self).ready_table() && forall|i: int|
                0 <= i < archetype.spec_len() ==> final(self).value_at(i) == tables@[archetype.table_id as int].rows@[
                    archetype.entity_table_rows@[i] as int],
            state.storage == StorageKind::SparseSet ==> final(self).sparse_view() == old(
                self,
            ).sparse_view() && forall|i: int|
                0 <= i < archetype.spec_len() ==> final(self).value_at(i) == old(
                    self,
                ).sparse_view().spec_at(archetype.entities@[i]),
    {
        match state.storage {
            StorageKind::Table => {
                let table = &tables[archetype.table_id];
                let column = match table.get_column(state.component_index) {
                    Some(c) => c,
                    None => unreached(),
                };
                self.chunk = FetchChunk::Dense {
                    entity_table_rows: &archetype.entity_table_rows,
                    table_components: column,
                };
            },
            StorageKind::SparseSet => {
                let s = match &self.chunk {
                    FetchChunk::SparsePending { sparse_set } => *sparse_set,
                    FetchChunk::Sparse { sparse_set, .. } => *sparse_set,
                    _ => unreached(),
                };
                self.chunk = FetchChunk::Sparse { entities: &archetype.entities, sparse_set: s };
            },
        }
    }

    /// Caches the component's column for one table chunk (dense layout
    /// only). Cached handles of a previous chunk are replaced.
    pub fn set_table(&mut self, state: &CheckState, table: &'w DenseTable<T>)
        requires
            table.spec_has_column(state.component_index),
        ensures
            final(self).wf(),
            final(self).chunk is Table,
            final(self).ready_table(),
            final(self).column_view() == table.rows@,
    {
        let column = match table.get_column(state.component_index) {
            Some(c) => c,
            None => unreached(),
        };
        self.chunk = FetchChunk::Table { table_components: column };
    }

    /// Fetch-and-test for the candidate entity at archetype-local index
    /// `archetype_index` of the cached chunk: true exactly when the predicate
    /// holds of the entity's current component value.
    ///
    /// Dense path: maps the archetype-local index to a physical row and
    /// indexes the cached column. Sparse path: maps the index to an entity
    /// and looks it up in the sparse set; absence there would break the
    /// store's invariant, which well-formedness rules out.
    pub fn archetype_fetch(&self, archetype_index: usize) -> (r: bool)
        requires
            self.wf(),
            self.ready_archetype(),
            (archetype_index as int) < self.chunk_len(),
        ensures
            r == self.admits(archetype_index as int),
    {
        match &self.chunk {
            FetchChunk::Dense { entity_table_rows, table_components } => {
                let table_row = entity_table_rows[archetype_index];
                Pred::test(&table_components[table_row])
            },
            FetchChunk::Sparse { entities, sparse_set } => {
                let entity = entities[archetype_index];
                match sparse_set.get(entity) {
                    Some(value) => Pred::test(value),
                    None => unreached(),
                }
            },
            _ => unreached(),
        }
    }

    /// Fetch-and-test by physical table row (dense layout only): true
    /// exactly when the predicate holds of the value in that row of the
    /// cached column.
    pub fn table_fetch(&self, table_row: usize) -> (r: bool)
        requires
            self.ready_table(),
            (table_row as int) < self.column_view().len(),
        ensures
            r == Pred::spec_test(self.column_view()[table_row as int]),
    {
        match &self.chunk {
            FetchChunk::Table { table_components } => Pred::test(&table_components[table_row]),
            FetchChunk::Dense { table_components, .. } => Pred::test(&table_components[table_row]),
            _ => unreached(),
        }
    }

    /// The admit/reject boolean the planner consumes per candidate entity;
    /// identical to [`Self::archetype_fetch`], as a filter contributes no
    /// output value.
    pub fn archetype_filter_fetch(&self, archetype_index: usize) -> (r: bool)
        requires
            self.wf(),
            self.ready_archetype(),
            (archetype_index as int) < self.chunk_len(),
        ensures
            r == self.admits(archetype_index as int),
    {
        self.archetype_fetch(archetype_index)
    }

    /// The admit/reject boolean by physical table row; identical to
    /// [`Self::table_fetch`].
    pub fn table_filter_fetch(&self, table_row: usize) -> (r: bool)
        requires
            self.ready_table(),
            (table_row as int) < self.column_view().len(),
        ensures
            r == Pred::spec_test(self.column_view()[table_row as int]),
    {
        self.table_fetch(table_row)
    }
}

/// The filtered component's current value for the entity at archetype-local
/// index `i`, as the store's physical layout determines it: by table row on
/// the dense layout, by entity identity on the sparse layout.
pub open spec fn spec_row_value<T>(
    state: CheckState,
    archetype: ArchetypeChunk,
    tables: Seq<DenseTable<T>>,
    sparse_set: SparseSet<T>,
    i: int,
) -> T {
    if state.storage == StorageKind::Table {
        tables[archetype.table_id as int].rows@[archetype.entity_table_rows@[i] as int]
    } else {
        sparse_set.spec_at(archetype.entities@[i])
    }
}

/// The entities among the archetype's first `n` that a `Check` filter with
/// predicate `Pred` admits, in archetype order.
pub open spec fn spec_admitted<T, Pred: Predicate<T>>(
    state: CheckState,
    archetype: ArchetypeChunk,
    tables: Seq<DenseTable<T>>,
    sparse_set: SparseSet<T>,
    n: int,
) -> Seq<u64>
    decreases n,
{
    if n <= 0 {
        Seq::empty()
    } else {
        spec_admitted::<T, Pred>(state, archetype, tables, sparse_set, n - 1) + (
        if Pred::spec_test(spec_row_value(state, archetype, tables, sparse_set, n - 1)) {
            seq![archetype.entities@[n - 1]]
        } else {
            Seq::empty()
        })
    }
}

/// Runs a `Check` filter over one archetype chunk, as the planner does:
/// initialises the per-layout fetch state once, then fetches-and-tests each
/// candidate entity in order. Returns exactly the admitted entities.
pub fn filter_archetype<'w, T, Pred: Predicate<T>>(
    state: &CheckState,
    archetype: &'w ArchetypeChunk,
    tables: &'w Vec<DenseTable<T>>,
    sparse_set: &'w SparseSet<T>,
) -> (admitted: Vec<u64>)
    requires
        archetype.wf(),
        state.storage == StorageKind::Table ==> {
            &&& (archetype.table_id as int) < tables@.len()
            &&& tables@[archetype.table_id as int].spec_has_column(state.component_index)
            &&& forall|i: int|
                0 <= i < archetype.entity_table_rows@.len() ==> (
                archetype.entity_table_rows@[i] as int) < tables@[archetype.table_id as int].rows@.len()
        },
        state.storage == StorageKind::SparseSet ==> {
            &&& sparse_set.wf()
            &&& forall|i: int|
                0 <= i < archetype.entities@.len() ==> sparse_set.spec_contains(
                    archetype.entities@[i],
                )
        },
    ensures
        admitted@ == spec_admitted::<T, Pred>(
            *state,
            *archetype,
            tables@,
            *sparse_set,
            archetype.spec_len(),
        ),
{
    let sparse_arg: Option<&'w SparseSet<T>> = match state.storage {
        StorageKind::Table => None,
        StorageKind::SparseSet => Some(sparse_set),
    };
    let mut fetch: CheckFetch<'w, T, Pred> = CheckFetch::init(state, sparse_arg);
    fetch.set_archetype(state, archetype, tables);
    let n = archetype.len();
    let mut admitted: Vec<u64> = Vec::new();
    let mut i: usize = 0;
    while i < n
        invariant
            fetch.wf(),
            fetch.ready_archetype(),
            n == archetype.spec_len(),
            archetype.wf(),
            fetch.chunk_len() == n as int,
            0 <= i <= n,
            forall|k: int|
                0 <= k < n ==> fetch.value_at(k) == spec_row_value(
                    *state,
                    *archetype,
                    tables@,
                    *sparse_set,
                    k,
                ),
            admitted@ == spec_admitted::<T, Pred>(
                *state,
                *archetype,
                tables@,
                *sparse_set,
                i as int,
            ),
        decreases n - i,
    {
        if fetch.archetype_filter_fetch(i) {
            admitted.push(archetype.entities[i]);
        }
        proof {
            let s_prev = spec_admitted::<T, Pred>(*state, *archetype, tables@, *sparse_set, i as int);
            let s_next = spec_admitted::<T, Pred>(*state, *archetype, tables@, *sparse_set, i as int + 1);
            if Pred::spec_test(spec_row_value(*state, *archetype, tables@, *sparse_set, i as int)) {
                assert(s_next == s_prev + seq![archetype.entities@[i as int]]);
                assert(admitted@ == s_prev.push(archetype.entities@[i as int]));
                assert(s_prev.push(archetype.entities@[i as int]) =~= s_prev + seq![
                    archetype.entities@[i as int],
                ]);
            } else {
                assert(s_next == s_prev + Seq::<u64>::empty());
                assert(s_prev + Seq::<u64>::empty() =~= s_prev);
            }
        }
        i += 1;
    }
    admitted
}

/// Dense and sparse storage are observationally equivalent: an archetype
/// stored in each layout, over the same entities in the same order and with
/// the same component value per entity, is filtered to the same admitted
/// entities by the same predicate.
pub proof fn lemma_dense_sparse_equivalence<T, Pred: Predicate<T>>(
    dense_state: CheckState,
    dense_arch: ArchetypeChunk,
    tables: Seq<DenseTable<T>>,
    sparse_state: CheckState,
    sparse_arch: ArchetypeChunk,
    sparse_set: SparseSet<T>,
    n: int,
)
    requires
        dense_state.storage == StorageKind::Table,
        sparse_state.storage == StorageKind::SparseSet,
        dense_arch.entities@ == sparse_arch.entities@,
        forall|i: int|
            0 <= i < n ==> spec_row_value(dense_state, dense_arch, tables, sparse_set, i)
                == spec_row_value(sparse_state, sparse_arch, tables, sparse_set, i),
    ensures
        spec_admitted::<T, Pred>(dense_state, dense_arch, tables, sparse_set, n)
            == spec_admitted::<T, Pred>(sparse_state, sparse_arch, tables, sparse_set, n),
    decreases n,
{
    if n > 0 {
        lemma_dense_sparse_equivalence::<T, Pred>(
            dense_state,
            dense_arch,
            tables,
            sparse_state,
            sparse_arch,
            sparse_set,
            n - 1,
        );
    }
}

/// Membership in the admitted entities is exactly per-entity admission: an
/// entity is in the filtered result of the archetype's first `n` candidates
/// if and only if it stands at some index below `n` whose component value
/// satisfies the predicate.
pub proof fn lemma_admitted_membership<T, Pred: Predicate<T>>(
    state: CheckState,
    archetype: ArchetypeChunk,
    tables: Seq<DenseTable<T>>,
    sparse_set: SparseSet<T>,
    n: int,
    e: u64,
)
    ensures
        spec_admitted::<T, Pred>(state, archetype, tables, sparse_set, n).contains(e) <==> exists|
            i: int,
        |
            0 <= i < n && archetype.entities@[i] == e && Pred::spec_test(
                spec_row_value(state, archetype, tables, sparse_set, i),
            ),
    decreases n,
{
    if n > 0 {
        lemma_admitted_membership::<T, Pred>(state, archetype, tables, sparse_set, n - 1, e);
        let prev = spec_admitted::<T, Pred>(state, archetype, tables, sparse_set, n - 1);
        let cur = spec_admitted::<T, Pred>(state, archetype, tables, sparse_set, n);
        if Pred::spec_test(spec_row_value(state, archetype, tables, sparse_set, n - 1)) {
            assert(cur == prev + seq![archetype.entities@[n - 1]]);
            if cur.contains(e) {
                let j = choose|j: int| 0 <= j < cur.len() && cur[j] == e;
                if j < prev.len() {
                    assert(prev[j] == e);
                } else {
                    assert(e == archetype.entities@[n - 1]);
                }
            }
            if prev.contains(e) {
                let j = choose|j: int| 0 <= j < prev.len() && prev[j] == e;
                assert(cur[j] == e);
            }
            if e == archetype.entities@[n - 1] {
                assert(cur[cur.len() - 1] == e);
            }
        } else {
            assert(cur == prev + Seq::<u64>::empty());
            assert(cur =~= prev);
        }
    }
}

} // verus!
