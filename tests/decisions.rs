use creep_brain::machine::StateController;
use creep_brain::memory::{find_source_index, CreepMemory};
use creep_brain::roles::{
    builder_next_state, generalist_next_state, hauler_next_state, miner_next_state,
    upgrader_next_state, Specialisation,
};
use creep_brain::room::{AgentView, ObjectKind, RoomObject, RoomView};
use creep_brain::states::{HookCounters, ScreepState, StateName};
use creep_brain::utils::{
    find_base_structure_needing_energy, find_closest_storage, find_container_with_most_energy,
    find_energy, find_nearest_object, find_object_at_index, get_total_upgrade_energy,
    upgrade_controller, EnergyAuthority,
};

fn obj(id: u128, kind: ObjectKind, energy: u32, free: u32, range: u32) -> RoomObject {
    RoomObject { id, kind, energy, free, capacity: energy + free, range, damaged: false }
}

fn room(structures: Vec<RoomObject>, sources: Vec<RoomObject>, sites: Vec<RoomObject>) -> RoomView {
    RoomView { structures, sources, sites, around_sources: vec![], energy_available: 0 }
}

fn empty_agent() -> AgentView {
    AgentView { used: 0, free: 50 }
}

fn full_agent() -> AgentView {
    AgentView { used: 50, free: 0 }
}

#[test]
fn storage_outranks_source_for_empty_generalist() {
    let r = room(
        vec![obj(1, ObjectKind::Storage, 500, 100, 5)],
        vec![obj(2, ObjectKind::Source, 3000, 0, 1)],
        vec![],
    );
    let s = generalist_next_state(&empty_agent(), &r, &HookCounters::new());
    assert_eq!(s, ScreepState::Withdraw(creep_brain::states::WithdrawState::new(1)));
}

#[test]
fn empty_generalist_harvests_nearest_source_without_storage() {
    let r = room(
        vec![obj(1, ObjectKind::Storage, 0, 100, 5)],
        vec![obj(2, ObjectKind::Source, 3000, 0, 9), obj(3, ObjectKind::Source, 3000, 0, 4)],
        vec![],
    );
    let s = generalist_next_state(&empty_agent(), &r, &HookCounters::new());
    assert_eq!(s, ScreepState::Harvest(creep_brain::states::HarvestState::new(3)));
}

#[test]
fn generalist_refills_base_before_upgrading() {
    let mut r = room(
        vec![
            obj(9, ObjectKind::Controller, 0, 0, 3),
            obj(4, ObjectKind::Spawn, 300, 0, 7),
            obj(5, ObjectKind::Extension, 0, 50, 8),
        ],
        vec![],
        vec![],
    );
    r.energy_available = 300;
    let s = generalist_next_state(&full_agent(), &r, &HookCounters::new());
    assert_eq!(s, ScreepState::FeedStructure(creep_brain::states::FeedStructureState::new(5)));
    r.energy_available = 350;
    let s = generalist_next_state(&full_agent(), &r, &HookCounters::new());
    assert_eq!(s, ScreepState::Upgrade(creep_brain::states::UpgradeState::new(9)));
}

#[test]
fn generalist_builds_only_under_cap_with_an_upgrader() {
    let r = room(
        vec![obj(9, ObjectKind::Controller, 0, 0, 3)],
        vec![],
        vec![obj(20, ObjectKind::Site, 0, 0, 6), obj(21, ObjectKind::Site, 0, 0, 2)],
    );
    let c = HookCounters { building: 1, upgrading: 1 };
    let s = generalist_next_state(&full_agent(), &r, &c);
    assert_eq!(s, ScreepState::Build(creep_brain::states::BuildState::new(21)));
    let c = HookCounters { building: 2, upgrading: 1 };
    let s = generalist_next_state(&full_agent(), &r, &c);
    assert_eq!(s.get_state_name(), StateName::Upgrade);
    let c = HookCounters { building: 0, upgrading: 0 };
    let s = generalist_next_state(&full_agent(), &r, &c);
    assert_eq!(s.get_state_name(), StateName::Upgrade);
}

#[test]
fn empty_generalist_without_energy_idles() {
    let r = room(vec![obj(9, ObjectKind::Controller, 0, 0, 3)], vec![], vec![]);
    assert_eq!(generalist_next_state(&empty_agent(), &r, &HookCounters::new()).get_state_name(), StateName::Idle);
    assert_eq!(generalist_next_state(&full_agent(), &r, &HookCounters::new()).get_state_name(), StateName::Upgrade);
}

#[test]
fn generalist_idles_when_nothing_applies() {
    let r = room(vec![], vec![], vec![]);
    assert_eq!(generalist_next_state(&empty_agent(), &r, &HookCounters::new()).get_state_name(), StateName::Idle);
    assert_eq!(generalist_next_state(&full_agent(), &r, &HookCounters::new()).get_state_name(), StateName::Idle);
}

#[test]
fn choice_is_deterministic() {
    let r = room(
        vec![obj(1, ObjectKind::Container, 10, 10, 4), obj(9, ObjectKind::Controller, 0, 0, 3)],
        vec![obj(2, ObjectKind::Source, 3000, 0, 1)],
        vec![obj(20, ObjectKind::Site, 0, 0, 6)],
    );
    for role in [
        Specialisation::Generalist,
        Specialisation::Miner,
        Specialisation::Hauler,
        Specialisation::Builder,
        Specialisation::Upgrader,
    ] {
        for agent in [empty_agent(), full_agent()] {
            let mut a = StateController::new(CreepMemory::new(role));
            let mut b = StateController::new(CreepMemory::new(role));
            let c = HookCounters { building: 0, upgrading: 1 };
            let ra = a.choose_next_state(&agent, &r, &c, &vec![]);
            let rb = b.choose_next_state(&agent, &r, &c, &vec![]);
            assert_eq!(ra, rb);
            assert_eq!(a.memory, b.memory);
        }
    }
}

#[test]
fn miner_binds_to_least_loaded_source_and_keeps_it() {
    let mut r = room(
        vec![obj(31, ObjectKind::Container, 0, 2000, 1), obj(30, ObjectKind::Container, 0, 2000, 8)],
        vec![obj(2, ObjectKind::Source, 3000, 0, 1), obj(3, ObjectKind::Source, 3000, 0, 1)],
        vec![],
    );
    r.around_sources = vec![
        vec![obj(31, ObjectKind::Container, 0, 2000, 1), obj(30, ObjectKind::Container, 0, 2000, 9)],
        vec![obj(31, ObjectKind::Container, 0, 2000, 9), obj(30, ObjectKind::Container, 0, 2000, 1)],
    ];
    let mut other = CreepMemory::new(Specialisation::Miner);
    other.set_additional_data(0);
    let mems = vec![other];
    let mut m = StateController::new(CreepMemory::new(Specialisation::Miner));
    let s = m.choose_next_state(&empty_agent(), &r, &HookCounters::new(), &mems);
    assert_eq!(s, ScreepState::Harvest(creep_brain::states::HarvestState::new(3)));
    assert_eq!(m.memory.additional_data(), Some(1));
    let s = m.choose_next_state(&full_agent(), &r, &HookCounters::new(), &vec![]);
    assert_eq!(s, ScreepState::FeedStructure(creep_brain::states::FeedStructureState::new(30)));
    assert_eq!(m.memory.additional_data(), Some(1));
}

#[test]
fn miner_without_sources_idles() {
    let r = room(vec![], vec![], vec![]);
    assert_eq!(miner_next_state(&empty_agent(), &r, None).get_state_name(), StateName::Idle);
    assert_eq!(miner_next_state(&empty_agent(), &r, Some(0)).get_state_name(), StateName::Idle);
}

#[test]
fn source_index_prefers_fewest_then_lowest() {
    assert_eq!(find_source_index(0, &vec![]), None);
    assert_eq!(find_source_index(3, &vec![]), Some(0));
    let mut a = CreepMemory::new(Specialisation::Miner);
    a.set_additional_data(0);
    let mut b = CreepMemory::new(Specialisation::Miner);
    b.set_additional_data(2);
    let mut not_miner = CreepMemory::new(Specialisation::Hauler);
    not_miner.set_additional_data(1);
    assert_eq!(find_source_index(3, &vec![a, b, not_miner]), Some(1));
    assert_eq!(find_source_index(2, &vec![a, a, b]), Some(1));
}

#[test]
fn hauler_ladder_order() {
    let mut r = room(
        vec![
            obj(1, ObjectKind::Container, 100, 0, 2),
            obj(2, ObjectKind::Container, 300, 0, 9),
            obj(3, ObjectKind::Container, 300, 0, 1),
            obj(4, ObjectKind::Storage, 0, 1000, 5),
            obj(6, ObjectKind::Tower, 0, 500, 6),
        ],
        vec![],
        vec![],
    );
    assert_eq!(
        hauler_next_state(&empty_agent(), &r),
        ScreepState::Withdraw(creep_brain::states::WithdrawState::new(2))
    );
    assert_eq!(
        hauler_next_state(&full_agent(), &r),
        ScreepState::FeedStructure(creep_brain::states::FeedStructureState::new(4))
    );
    r.structures[3].free = 0;
    assert_eq!(
        hauler_next_state(&full_agent(), &r),
        ScreepState::FeedStructure(creep_brain::states::FeedStructureState::new(6))
    );
    r.structures[4].free = 0;
    assert_eq!(hauler_next_state(&full_agent(), &r).get_state_name(), StateName::Idle);
    let half = AgentView { used: 20, free: 30 };
    assert_eq!(hauler_next_state(&half, &r).get_state_name(), StateName::Idle);
    r.structures.push(obj(9, ObjectKind::Controller, 0, 0, 3));
    assert_eq!(
        hauler_next_state(&half, &r),
        ScreepState::Upgrade(creep_brain::states::UpgradeState::new(9))
    );
}

#[test]
fn hauler_and_base_feeding_pick_the_nearest() {
    let mut r = room(
        vec![
            obj(4, ObjectKind::Storage, 0, 1000, 9),
            obj(5, ObjectKind::Storage, 0, 1000, 2),
            obj(6, ObjectKind::Extension, 0, 50, 7),
            obj(7, ObjectKind::Spawn, 0, 300, 3),
        ],
        vec![],
        vec![],
    );
    assert_eq!(
        hauler_next_state(&full_agent(), &r),
        ScreepState::FeedStructure(creep_brain::states::FeedStructureState::new(5))
    );
    r.energy_available = 0;
    assert_eq!(
        find_base_structure_needing_energy(&r),
        Some(ScreepState::FeedStructure(creep_brain::states::FeedStructureState::new(7)))
    );
}

#[test]
fn builder_and_upgrader_never_harvest() {
    let r = room(
        vec![obj(9, ObjectKind::Controller, 0, 0, 3)],
        vec![obj(2, ObjectKind::Source, 3000, 0, 1)],
        vec![obj(20, ObjectKind::Site, 0, 0, 6)],
    );
    assert_eq!(builder_next_state(&empty_agent(), &r), ScreepState::Build(creep_brain::states::BuildState::new(20)));
    assert_eq!(upgrader_next_state(&empty_agent(), &r), ScreepState::Upgrade(creep_brain::states::UpgradeState::new(9)));
    let r2 = room(
        vec![obj(7, ObjectKind::Container, 40, 0, 3), obj(9, ObjectKind::Controller, 0, 0, 3)],
        vec![obj(2, ObjectKind::Source, 3000, 0, 1)],
        vec![],
    );
    assert_eq!(upgrader_next_state(&empty_agent(), &r2), ScreepState::Withdraw(creep_brain::states::WithdrawState::new(7)));
}

#[test]
fn energy_authority_limits_where_energy_comes_from() {
    let r = room(
        vec![obj(7, ObjectKind::Container, 40, 0, 3)],
        vec![obj(2, ObjectKind::Source, 3000, 0, 1)],
        vec![],
    );
    assert_eq!(find_energy(&r, &empty_agent(), EnergyAuthority::StorageOnly), None);
    assert_eq!(
        find_energy(&r, &empty_agent(), EnergyAuthority::StorageOrContainers),
        Some(ScreepState::Withdraw(creep_brain::states::WithdrawState::new(7)))
    );
    let r2 = room(vec![], vec![obj(2, ObjectKind::Source, 3000, 0, 1)], vec![]);
    assert_eq!(find_energy(&r2, &empty_agent(), EnergyAuthority::StorageOrContainers), None);
    assert_eq!(
        find_energy(&r2, &empty_agent(), EnergyAuthority::All),
        Some(ScreepState::Harvest(creep_brain::states::HarvestState::new(2)))
    );
    assert_eq!(find_energy(&r2, &full_agent(), EnergyAuthority::All), None);
}

#[test]
fn searches_break_ties_by_first_found() {
    let objs = vec![obj(1, ObjectKind::Source, 0, 0, 4), obj(2, ObjectKind::Source, 0, 0, 4)];
    assert_eq!(find_nearest_object(&objs), Some(1));
    assert_eq!(find_nearest_object(&vec![]), None);
    assert_eq!(find_object_at_index(&objs, 1), Some(2));
    assert_eq!(find_object_at_index(&objs, 2), None);
    let r = room(
        vec![
            obj(1, ObjectKind::Container, 200, 0, 4),
            obj(2, ObjectKind::Container, 200, 0, 1),
            obj(3, ObjectKind::Storage, 5, 0, 8),
            obj(4, ObjectKind::Storage, 5, 0, 2),
        ],
        vec![],
        vec![],
    );
    assert_eq!(find_container_with_most_energy(&r), Some(1));
    assert_eq!(find_closest_storage(&r), Some(4));
}

#[test]
fn total_upgrade_energy_sums_spawns_and_extensions() {
    let mut r = room(
        vec![
            obj(1, ObjectKind::Spawn, 100, 200, 1),
            obj(2, ObjectKind::Extension, 0, 50, 1),
            obj(3, ObjectKind::Extension, 50, 0, 1),
            obj(4, ObjectKind::Storage, 5000, 5000, 1),
        ],
        vec![],
        vec![],
    );
    assert_eq!(get_total_upgrade_energy(&r), 400);
    r.energy_available = 150;
    assert_eq!(
        find_base_structure_needing_energy(&r),
        Some(ScreepState::FeedStructure(creep_brain::states::FeedStructureState::new(1)))
    );
    r.energy_available = 400;
    assert_eq!(find_base_structure_needing_energy(&r), None);
    assert_eq!(get_total_upgrade_energy(&room(vec![], vec![], vec![])), 0);
    assert_eq!(upgrade_controller(&r), None);
}
