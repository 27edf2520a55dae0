//! Scenario tests for the fetch engine: both storage layouts, the driver,
//! and the registry protocol.

use bevy_mod_check_filter::impls::filter_archetype;
use bevy_mod_check_filter::impls::CheckFetch;
use bevy_mod_check_filter::impls::CheckState;
use bevy_mod_check_filter::registry::ComponentRegistry;
use bevy_mod_check_filter::storage::ArchetypeChunk;
use bevy_mod_check_filter::storage::DenseTable;
use bevy_mod_check_filter::storage::SparseSet;
use bevy_mod_check_filter::storage::StorageKind;
use bevy_mod_check_filter::projection::Checkable;
use bevy_mod_check_filter::projection::Compose;
use bevy_mod_check_filter::projection::Projected;
use bevy_mod_check_filter::Is;
use bevy_mod_check_filter::Predicate;

struct Health(u32);

/// Predicate admitting entities whose health is positive.
struct IsAlive;

impl Predicate<Health> for IsAlive {
    fn spec_test(t: Health) -> bool {
        t.0 > 0
    }

    fn test(t: &Health) -> bool {
        t.0 > 0
    }
}

const HEALTH_KEY: u64 = 7;

fn dense_state(registry: &mut ComponentRegistry) -> CheckState {
    CheckState::init(registry, HEALTH_KEY, StorageKind::Table)
}

fn sparse_state(registry: &mut ComponentRegistry) -> CheckState {
    CheckState::init(registry, HEALTH_KEY, StorageKind::SparseSet)
}

#[test]
fn component_registration_is_idempotent() {
    let mut registry = ComponentRegistry::new();
    let state_first = dense_state(&mut registry);
    let state_again = dense_state(&mut registry);
    assert_eq!(state_first.component_index, state_again.component_index);
    assert_eq!(registry.len(), 1);
    // A second type gets the next index; re-registering keeps the count.
    let other: usize = registry.init_component(99, StorageKind::SparseSet);
    assert_ne!(other, state_first.component_index);
    assert_eq!(registry.len(), 2);
    // The layout declared first wins, even if a later caller disagrees.
    let state_conflicting = sparse_state(&mut registry);
    assert_eq!(state_conflicting.storage, StorageKind::Table);
    assert_eq!(registry.len(), 2);
}

#[test]
fn sparse_set_lookup_finds_inserted_values() {
    let mut set: SparseSet<Health> = SparseSet::new();
    assert!(set.get(1).is_none());
    set.insert(1, Health(5));
    set.insert(9, Health(0));
    assert_eq!(set.len(), 2);
    assert_eq!(set.get(1).unwrap().0, 5);
    assert_eq!(set.get(9).unwrap().0, 0);
    assert!(set.get(2).is_none());
}

/// The end-to-end scenario on the dense layout: entities 1..=4 hold
/// `Health`; only entities 1 and 3 have positive health.
#[test]
fn dense_filter_admits_exactly_the_healthy_entities() {
    let mut registry = ComponentRegistry::new();
    let state = dense_state(&mut registry);
    let archetype = ArchetypeChunk::new(vec![1, 2, 3, 4], vec![0, 1, 2, 3], 0);
    let tables = vec![DenseTable::new(
        state.component_index,
        vec![Health(5), Health(0), Health(7), Health(0)],
    )];
    let unused: SparseSet<Health> = SparseSet::new();
    let admitted = filter_archetype::<Health, IsAlive>(&state, &archetype, &tables, &unused);
    assert_eq!(admitted, vec![1, 3]);
}

/// The same scenario on the sparse layout: the admitted entities are
/// identical, as the two layouts are observationally equivalent.
#[test]
fn sparse_filter_admits_exactly_the_healthy_entities() {
    let mut registry = ComponentRegistry::new();
    let state = sparse_state(&mut registry);
    let archetype = ArchetypeChunk::new(vec![1, 2, 3, 4], vec![0, 1, 2, 3], 0);
    let tables: Vec<DenseTable<Health>> = Vec::new();
    let mut sparse: SparseSet<Health> = SparseSet::new();
    sparse.insert(1, Health(5));
    sparse.insert(2, Health(0));
    sparse.insert(3, Health(7));
    sparse.insert(4, Health(0));
    let admitted = filter_archetype::<Health, IsAlive>(&state, &archetype, &tables, &sparse);
    assert_eq!(admitted, vec![1, 3]);
}

/// Dense rows may be permuted relative to archetype order; the row mapping
/// resolves them.
#[test]
fn dense_filter_follows_the_row_mapping() {
    let mut registry = ComponentRegistry::new();
    let state = dense_state(&mut registry);
    // Entity 1 sits in physical row 3, entity 2 in row 2, and so on.
    let archetype = ArchetypeChunk::new(vec![1, 2, 3, 4], vec![3, 2, 1, 0], 0);
    let tables = vec![DenseTable::new(
        state.component_index,
        vec![Health(0), Health(7), Health(0), Health(5)],
    )];
    let unused: SparseSet<Health> = SparseSet::new();
    let admitted = filter_archetype::<Health, IsAlive>(&state, &archetype, &tables, &unused);
    assert_eq!(admitted, vec![1, 3]);
}

#[test]
fn table_fetch_tests_rows_directly() {
    let mut registry = ComponentRegistry::new();
    let state = dense_state(&mut registry);
    let table = DenseTable::new(state.component_index, vec![Health(5), Health(0), Health(7)]);
    let mut fetch: CheckFetch<Health, IsAlive> = CheckFetch::init(&state, None);
    fetch.set_table(&state, &table);
    assert_eq!(fetch.table_fetch(0), true);
    assert_eq!(fetch.table_fetch(1), false);
    assert_eq!(fetch.table_filter_fetch(2), true);
}

#[test]
fn per_entity_fetch_and_test_on_both_layouts() {
    let mut registry = ComponentRegistry::new();
    let state = dense_state(&mut registry);
    let archetype = ArchetypeChunk::new(vec![10, 11], vec![1, 0], 0);
    let tables = vec![DenseTable::new(
        state.component_index,
        vec![Health(0), Health(3)],
    )];
    let mut fetch: CheckFetch<Health, IsAlive> = CheckFetch::init(&state, None);
    fetch.set_archetype(&state, &archetype, &tables);
    assert_eq!(fetch.archetype_fetch(0), true);
    assert_eq!(fetch.archetype_fetch(1), false);

    let mut registry_sparse = ComponentRegistry::new();
    let state_sparse = sparse_state(&mut registry_sparse);
    let mut sparse: SparseSet<Health> = SparseSet::new();
    sparse.insert(10, Health(3));
    sparse.insert(11, Health(0));
    let mut fetch_sparse: CheckFetch<Health, IsAlive> =
        CheckFetch::init(&state_sparse, Some(&sparse));
    let empty_tables: Vec<DenseTable<Health>> = Vec::new();
    fetch_sparse.set_archetype(&state_sparse, &archetype, &empty_tables);
    assert_eq!(fetch_sparse.archetype_filter_fetch(0), true);
    assert_eq!(fetch_sparse.archetype_filter_fetch(1), false);
}

#[test]
fn density_hint_reflects_the_storage_layout() {
    let mut registry = ComponentRegistry::new();
    let dense = dense_state(&mut registry);
    assert!(CheckFetch::<Health, IsAlive>::is_dense(&dense));
    let mut registry_sparse = ComponentRegistry::new();
    let sparse = sparse_state(&mut registry_sparse);
    assert!(!CheckFetch::<Health, IsAlive>::is_dense(&sparse));
    assert!(CheckFetch::<Health, IsAlive>::is_archetypal());
}

#[test]
fn matches_component_set_asks_about_the_resolved_component() {
    let mut registry = ComponentRegistry::new();
    let state = dense_state(&mut registry);
    let index: usize = state.component_index;
    assert!(state.matches_component_set(&(move |i: usize| i == index)));
    assert!(!state.matches_component_set(&(|i: usize| i == usize::MAX)));
}

/// Crossing into a new chunk re-runs per-chunk initialisation; handles
/// cached for the previous chunk are replaced and not reused.
#[test]
fn chunk_advancement_reinitialises_cached_handles() {
    let mut registry = ComponentRegistry::new();
    let state = dense_state(&mut registry);
    let first = ArchetypeChunk::new(vec![1, 2], vec![0, 1], 0);
    let second = ArchetypeChunk::new(vec![3, 4], vec![1, 0], 1);
    let tables = vec![
        DenseTable::new(state.component_index, vec![Health(5), Health(0)]),
        DenseTable::new(state.component_index, vec![Health(0), Health(9)]),
    ];
    let mut fetch: CheckFetch<Health, IsAlive> = CheckFetch::init(&state, None);
    fetch.set_archetype(&state, &first, &tables);
    assert_eq!(fetch.archetype_filter_fetch(0), true);
    assert_eq!(fetch.archetype_filter_fetch(1), false);
    fetch.set_archetype(&state, &second, &tables);
    assert_eq!(fetch.archetype_filter_fetch(0), true);
    assert_eq!(fetch.archetype_filter_fetch(1), false);
}

struct Vitals {
    poisoned: bool,
}

struct Creature {
    vitals: Vitals,
}

/// Field projection `Creature -> Vitals`.
struct VitalsField;

impl Checkable for VitalsField {
    type Component = Creature;
    type Checked = Vitals;

    fn spec_get(c: Creature) -> Vitals {
        c.vitals
    }

    fn get(c: &Creature) -> &Vitals {
        &c.vitals
    }
}

/// Field projection `Vitals -> bool`.
struct PoisonedField;

impl Checkable for PoisonedField {
    type Component = Vitals;
    type Checked = bool;

    fn spec_get(c: Vitals) -> bool {
        c.poisoned
    }

    fn get(c: &Vitals) -> &bool {
        &c.poisoned
    }
}

/// A projection chain composed with the boolean-equality predicate, driven
/// through the fetch engine: admits exactly the entities whose nested flag
/// is `true`.
#[test]
fn projected_boolean_predicate_filters_through_the_engine() {
    type PoisonPath = Compose<VitalsField, PoisonedField>;
    type IsPoisoned = Projected<PoisonPath, Is<true>>;

    let mut registry = ComponentRegistry::new();
    let state = CheckState::init(&mut registry, 21, StorageKind::Table);
    let archetype = ArchetypeChunk::new(vec![8, 9, 10], vec![0, 1, 2], 0);
    let tables = vec![DenseTable::new(
        state.component_index,
        vec![
            Creature { vitals: Vitals { poisoned: true } },
            Creature { vitals: Vitals { poisoned: false } },
            Creature { vitals: Vitals { poisoned: true } },
        ],
    )];
    let unused: SparseSet<Creature> = SparseSet::new();
    let admitted = filter_archetype::<Creature, IsPoisoned>(&state, &archetype, &tables, &unused);
    assert_eq!(admitted, vec![8, 10]);

    type NotPoisoned = bevy_mod_check_filter::Not<Creature, IsPoisoned>;
    let healthy = filter_archetype::<Creature, NotPoisoned>(&state, &archetype, &tables, &unused);
    assert_eq!(healthy, vec![9]);
}
