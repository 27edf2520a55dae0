//! Scenario tests for access bookkeeping: conflict detection over the host
//! store's real access structures.

use bevy_ecs::component::Component;
use bevy_ecs::component::TableStorage;
use bevy_mod_check_filter::access::update_archetype_component_access;
use bevy_mod_check_filter::access::update_component_access;
use bevy_mod_check_filter::access::AccessConflict;
use bevy_mod_check_filter::access::ArchetypeAccess;
use bevy_mod_check_filter::access::QueryAccess;
use bevy_mod_check_filter::impls::CheckState;
use bevy_mod_check_filter::registry::ComponentRegistry;
use bevy_mod_check_filter::storage::StorageKind;

struct Flag(bool);

impl Component for Flag {
    type Storage = TableStorage;
}

fn state_for(component_index: usize) -> CheckState {
    let mut registry = ComponentRegistry::new();
    let mut state = CheckState::init(&mut registry, 1, StorageKind::Table);
    // Point the state at the host-assigned index for this test.
    state.component_index = component_index;
    state
}

/// A query that both writes and filter-reads the same component must fail
/// with a conflict naming that component.
#[test]
fn filter_read_after_write_is_a_conflict() {
    let mut access = QueryAccess::new();
    access.declare_write(3);
    let state = state_for(3);
    let result = update_component_access(&state, &mut access);
    assert_eq!(result, Err(AccessConflict { component_index: 3 }));
}

/// A query that only filter-reads succeeds, even with several filters on the
/// same component; and reads never conflict with later reads.
#[test]
fn repeated_filter_reads_are_compatible() {
    let mut access = QueryAccess::new();
    let state = state_for(5);
    assert!(!access.has_read(5));
    assert_eq!(update_component_access(&state, &mut access), Ok(()));
    assert!(access.has_read(5));
    assert_eq!(update_component_access(&state, &mut access), Ok(()));
    let other = state_for(6);
    assert_eq!(update_component_access(&other, &mut access), Ok(()));
    assert!(access.has_read(5));
    assert!(access.has_read(6));
    assert!(!access.has_read(7));
}

/// A write to a different component does not conflict with this filter's
/// read.
#[test]
fn writes_elsewhere_do_not_conflict() {
    let mut access = QueryAccess::new();
    access.declare_write(4);
    let state = state_for(3);
    assert_eq!(update_component_access(&state, &mut access), Ok(()));
}

/// Registering the archetype-level read against a real host archetype: runs
/// for archetypes that do and do not contain the component.
#[test]
fn archetype_read_registration_handles_presence_and_absence() {
    let mut world = bevy_ecs::world::World::new();
    let component_id = world.init_component::<Flag>();
    world.spawn().insert(Flag(true));

    let state = state_for(component_id.index());
    let missing = state_for(component_id.index() + 1000);

    let mut seen_with: usize = 0;
    for archetype in world.archetypes().iter() {
        let mut access = ArchetypeAccess::new();
        update_archetype_component_access(&state, archetype, &mut access);
        update_archetype_component_access(&missing, archetype, &mut access);
        if archetype.contains(component_id) {
            seen_with += 1;
            let paired_index: usize = archetype
                .get_archetype_component_id(component_id)
                .unwrap()
                .index();
            assert!(access.has_read(paired_index));
        }
    }
    assert_eq!(seen_with, 1);
}
