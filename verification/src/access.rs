//! Access bookkeeping against the host store's conflict-tracking structures.
//!
//! A `Check` filter only ever reads the filtered component. Before a query
//! runs, the filter must (a) verify that no term of the same query already
//! holds exclusive (write) access to the component, and (b) register its own
//! shared read with the query's logical access set and with the archetype's
//! physical access set. The sets themselves belong to the host store
//! (`bevy_ecs`); Verus refuses to declare their generic types directly
//! (their type parameter is bound by the host's `SparseSetIndex` trait), so
//! this module holds each in a struct of its own, reaches it through trusted
//! wrappers whose contracts state what the host's source shows, and proves
//! the validation and registration logic on top of them.

use vstd::prelude::*;

verus! {

use bevy_ecs::archetype::Archetype;
use bevy_ecs::archetype::ArchetypeComponentId;
use bevy_ecs::component::ComponentId;
use bevy_ecs::query::Access;
use bevy_ecs::query::FilteredAccess;
use crate::impls::CheckState;

#[verifier::external_type_specification]
#[verifier::external_body]
pub struct ExArchetypeComponentId(ArchetypeComponentId);

#[verifier::external_type_specification]
#[verifier::external_body]
pub struct ExArchetype(Archetype);

/// A query's logical access set: which components the query reads and
/// writes, keyed by component registry index. Holds the host store's
/// `FilteredAccess<ComponentId>`.
#[verifier::external_body]
pub struct QueryAccess {
    inner: FilteredAccess<ComponentId>,
}

/// An archetype-level physical access set, keyed by archetype-component
/// index, consumed by the host scheduler for parallel-execution safety.
/// Holds the host store's `Access<ArchetypeComponentId>`.
#[verifier::external_body]
pub struct ArchetypeAccess {
    inner: Access<ArchetypeComponentId>,
}

/// The component indices a query's logical access set holds any access to
/// (the `FilteredAccess` read-write set).
pub uninterp spec fn readable_ids_of(access: QueryAccess) -> Set<int>;

/// The component indices a query's logical access set holds exclusive
/// (write) access to.
pub uninterp spec fn write_ids_of(access: QueryAccess) -> Set<int>;

/// Whether a query's logical access set claims read access to everything
/// (the host grants this to whole-world borrows; never to a filter).
pub uninterp spec fn reads_all_of(access: QueryAccess) -> bool;

/// Whether an archetype-level access set claims read access to everything.
pub uninterp spec fn arch_reads_all_of(access: ArchetypeAccess) -> bool;

/// The archetype-component indices an archetype-level access set holds any
/// access to.
pub uninterp spec fn arch_readable_ids_of(access: ArchetypeAccess) -> Set<int>;

/// The archetype-component indices an archetype-level access set holds
/// exclusive (write) access to.
pub uninterp spec fn arch_write_ids_of(access: ArchetypeAccess) -> Set<int>;

/// The component indices present in an archetype.
pub uninterp spec fn arch_component_ids_of(archetype: Archetype) -> Set<int>;

/// The archetype-component index an archetype pairs with a component index
/// it contains (what `Archetype::get_archetype_component_id` returns, as an
/// index).
pub uninterp spec fn arch_component_index_of(archetype: Archetype, component_index: int) -> int;

/// The numeric index of an `ArchetypeComponentId` (what its
/// `SparseSetIndex::sparse_set_index` returns).
pub uninterp spec fn acid_index(id: ArchetypeComponentId) -> int;

/// Relies on `FilteredAccess::default`: a fresh access set holds no access
/// to anything.
#[verifier::external_body]
fn fa_default() -> (r: QueryAccess)
    ensures
        readable_ids_of(r) == Set::<int>::empty(),
        write_ids_of(r) == Set::<int>::empty(),
        !reads_all_of(r),
{
    QueryAccess { inner: FilteredAccess::default() }
}

/// Relies on `FilteredAccess::access` and `Access::has_read`: whether the
/// set holds read access to the component with the given registry index
/// (true for everything when the set reads all).
#[verifier::external_body]
fn fa_has_read(access: &QueryAccess, component_index: usize) -> (r: bool)
    ensures
        r == (reads_all_of(*access) || readable_ids_of(*access).contains(component_index as int)),
{
    access.inner.access().has_read(ComponentId::new(component_index))
}

/// Relies on `FilteredAccess::access` and `Access::has_write`: whether the
/// set holds exclusive access to the component with the given registry index
/// (`has_write` reads the write bitset).
#[verifier::external_body]
fn fa_has_write(access: &QueryAccess, component_index: usize) -> (r: bool)
    ensures
        r == write_ids_of(*access).contains(component_index as int),
{
    access.inner.access().has_write(ComponentId::new(component_index))
}

/// Relies on `FilteredAccess::add_read`: inserts the component's index into
/// the read-write set (and the with-filter); the write set is untouched.
#[verifier::external_body]
fn fa_add_read(access: &mut QueryAccess, component_index: usize)
    ensures
        readable_ids_of(*final(access)) == readable_ids_of(*old(access)).insert(
            component_index as int,
        ),
        write_ids_of(*final(access)) == write_ids_of(*old(access)),
        reads_all_of(*final(access)) == reads_all_of(*old(access)),
{
    access.inner.add_read(ComponentId::new(component_index));
}

/// Relies on `FilteredAccess::add_write`: inserts the component's index into
/// both the read-write set and the write set (and the with-filter).
#[verifier::external_body]
fn fa_add_write(access: &mut QueryAccess, component_index: usize)
    ensures
        readable_ids_of(*final(access)) == readable_ids_of(*old(access)).insert(
            component_index as int,
        ),
        write_ids_of(*final(access)) == write_ids_of(*old(access)).insert(component_index as int),
        reads_all_of(*final(access)) == reads_all_of(*old(access)),
{
    access.inner.add_write(ComponentId::new(component_index));
}

/// Relies on `Access::default`: a fresh archetype-level access set holds no
/// access to anything.
#[verifier::external_body]
fn arch_default() -> (r: ArchetypeAccess)
    ensures
        arch_readable_ids_of(r) == Set::<int>::empty(),
        arch_write_ids_of(r) == Set::<int>::empty(),
        !arch_reads_all_of(r),
{
    ArchetypeAccess { inner: Access::default() }
}

/// Relies on `Access::has_read` and `ArchetypeComponentId::new`: whether the
/// set holds read access to the archetype-component with the given index
/// (true for everything when the set reads all).
#[verifier::external_body]
fn arch_has_read(access: &ArchetypeAccess, archetype_component_index: usize) -> (r: bool)
    ensures
        r == (arch_reads_all_of(*access) || arch_readable_ids_of(*access).contains(
            archetype_component_index as int,
        )),
{
    access.inner.has_read(ArchetypeComponentId::new(archetype_component_index))
}

/// Relies on `Access::add_read`: inserts the id's index into the read-write
/// set; the write set is untouched.
#[verifier::external_body]
fn arch_add_read(access: &mut ArchetypeAccess, id: ArchetypeComponentId)
    ensures
        arch_readable_ids_of(*final(access)) == arch_readable_ids_of(*old(access)).insert(
            acid_index(id),
        ),
        arch_write_ids_of(*final(access)) == arch_write_ids_of(*old(access)),
        arch_reads_all_of(*final(access)) == arch_reads_all_of(*old(access)),
{
    access.inner.add_read(id);
}

/// Relies on `Archetype::get_archetype_component_id`: `Some` exactly when
/// the archetype contains the component, and then the id the archetype pairs
/// with it.
#[verifier::external_body]
fn archetype_component_lookup(archetype: &Archetype, component_index: usize) -> (r: Option<
    ArchetypeComponentId,
>)
    ensures
        r.is_some() <==> arch_component_ids_of(*archetype).contains(component_index as int),
        r.is_some() ==> acid_index(r.unwrap()) == arch_component_index_of(
            *archetype,
            component_index as int,
        ),
{
    archetype.get_archetype_component_id(ComponentId::new(component_index))
}

impl QueryAccess {
    /// A fresh logical access set: no component is read or written.
    pub fn new() -> (r: QueryAccess)
        ensures
            readable_ids_of(r) == Set::<int>::empty(),
            write_ids_of(r) == Set::<int>::empty(),
            !reads_all_of(r),
    {
        fa_default()
    }

    /// Declares exclusive (write) access to a component, as another term of
    /// the same query would: the component joins both the readable set and
    /// the write set.
    pub fn declare_write(&mut self, component_index: usize)
        ensures
            readable_ids_of(*final(self)) == readable_ids_of(*old(self)).insert(
                component_index as int,
            ),
            write_ids_of(*final(self)) == write_ids_of(*old(self)).insert(component_index as int),
            reads_all_of(*final(self)) == reads_all_of(*old(self)),
    {
        fa_add_write(self, component_index);
    }

    /// Whether the set holds read access to the component with the given
    /// registry index.
    pub fn has_read(&self, component_index: usize) -> (r: bool)
        ensures
            r == (reads_all_of(*self) || readable_ids_of(*self).contains(component_index as int)),
    {
        fa_has_read(self, component_index)
    }
}

impl ArchetypeAccess {
    /// A fresh archetype-level access set: nothing is read or written.
    pub fn new() -> (r: ArchetypeAccess)
        ensures
            arch_readable_ids_of(r) == Set::<int>::empty(),
            arch_write_ids_of(r) == Set::<int>::empty(),
            !arch_reads_all_of(r),
    {
        arch_default()
    }

    /// Whether the set holds read access to the archetype-component with the
    /// given index.
    pub fn has_read(&self, archetype_component_index: usize) -> (r: bool)
        ensures
            r == (arch_reads_all_of(*self) || arch_readable_ids_of(*self).contains(
                archetype_component_index as int,
            )),
    {
        arch_has_read(self, archetype_component_index)
    }
}

/// A read was requested for a component to which the same query already
/// holds exclusive access: a caller programming error, reported at query
/// construction and never recovered from.
#[derive(Clone, Copy, PartialEq, Eq, Structural, Debug)]
pub struct AccessConflict {
    /// The registry index of the component with conflicting access.
    pub component_index: usize,
}

/// Validates and registers this filter's shared read on the query's logical
/// access set. Fails exactly when the query already holds exclusive access
/// to the filtered component — shared access cannot coincide with exclusive
/// access — and then leaves the set unchanged. On success the component is
/// added to the set's reads; the set's writes are unchanged either way.
pub fn update_component_access(state: &CheckState, access: &mut QueryAccess) -> (r: Result<
    (),
    AccessConflict,
>)
    ensures
        r is Err <==> write_ids_of(*old(access)).contains(state.component_index as int),
        r is Err ==> *final(access) == *old(access) && r == Err::<(), AccessConflict>(
            AccessConflict { component_index: state.component_index },
        ),
        r is Ok ==> readable_ids_of(*final(access)) == readable_ids_of(*old(access)).insert(
            state.component_index as int,
        ),
        write_ids_of(*final(access)) == write_ids_of(*old(access)),
        reads_all_of(*final(access)) == reads_all_of(*old(access)),
{
    if fa_has_write(access, state.component_index) {
        Err(AccessConflict { component_index: state.component_index })
    } else {
        fa_add_read(access, state.component_index);
        Ok(())
    }
}

/// Registers this filter's shared read on an archetype's physical access
/// set: if the archetype contains the filtered component, the paired
/// archetype-component id is added to the set's reads; otherwise the set is
/// unchanged. The set's writes are unchanged either way.
pub fn update_archetype_component_access(
    state: &CheckState,
    archetype: &Archetype,
    access: &mut ArchetypeAccess,
)
    ensures
        arch_component_ids_of(*archetype).contains(state.component_index as int)
            ==> arch_readable_ids_of(*final(access)) == arch_readable_ids_of(*old(access)).insert(
            arch_component_index_of(*archetype, state.component_index as int),
        ),
        !arch_component_ids_of(*archetype).contains(state.component_index as int) ==> *final(access)
            == *old(access),
        arch_write_ids_of(*final(access)) == arch_write_ids_of(*old(access)),
        arch_reads_all_of(*final(access)) == arch_reads_all_of(*old(access)),
{
    match archetype_component_lookup(archetype, state.component_index) {
        Some(archetype_component_id) => {
            arch_add_read(access, archetype_component_id);
        },
        None => {},
    }
}

/// Read registration is idempotent at the access-set level: once a
/// component's read is declared, declaring it again leaves the set of
/// readable components as it was.
pub proof fn lemma_add_read_idempotent(reads: Set<int>, component_index: int)
    ensures
        reads.insert(component_index).insert(component_index) == reads.insert(component_index),
{
    assert(reads.insert(component_index).insert(component_index) =~= reads.insert(
        component_index,
    ));
}

} // verus!
