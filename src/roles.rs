//! Roles and their decision ladders. Each ladder tries its steps in order and
//! takes the first that applies, falling through to the idle state.

use vstd::prelude::*;
use crate::room::{
    find_nearest, id_at, id_of, nearest_index, richest_index, AgentView, RoomView, Selector,
};
use crate::states::{
    BuildState, FeedStructureState, HarvestState, HookCounters, IdleState, ScreepState,
    WithdrawState,
};
use crate::utils::{
    base_feed_spec, energy_spec, find_base_structure_needing_energy,
    find_closest_tower_needing_energy, find_container_with_most_energy, find_energy,
    find_nearest_construction_site, find_object_at_index, upgrade_controller, upgrade_spec,
    EnergyAuthority,
};

verus! {

/// The role a creep is given when it is spawned; it never changes afterwards.
#[derive(Clone, Copy, Debug, PartialEq, Eq, Structural)]
pub enum Specialisation {
    /// A creep whose stored role could not be read; it behaves as a generalist.
    Unknown,
    Generalist,
    /// The producer: harvests its bound source into the container nearest to it.
    Miner,
    /// The transporter: carries energy from containers to where it is spent.
    Hauler,
    Builder,
    Upgrader,
}

/// At most this many generalists build at once.
pub const BUILDER_CAP: u32 = 2;

pub open spec fn idle() -> ScreepState {
    ScreepState::Idle(IdleState)
}

/// Build the nearest construction site, if there is one.
pub open spec fn build_spec(room: RoomView) -> Option<ScreepState> {
    match id_at(room.sites@, nearest_index(room.sites@, Selector::Any)) {
        Some(id) => Some(ScreepState::Build(BuildState { site: id })),
        None => None,
    }
}

/// The generalist: when empty, get energy from anywhere, or idle if there is
/// none; else refill spawns and extensions, then build while few others do and
/// someone upgrades, then upgrade.
pub open spec fn generalist_spec(agent: AgentView, room: RoomView, c: HookCounters) -> ScreepState {
    if agent.used == 0 {
        match energy_spec(room, agent, EnergyAuthority::All) {
            Some(s) => s,
            None => idle(),
        }
    } else if let Some(s) = base_feed_spec(room) {
        s
    } else if c.building < BUILDER_CAP && c.upgrading > 0 && build_spec(room) is Some {
        build_spec(room)->0
    } else if let Some(s) = upgrade_spec(room) {
        s
    } else {
        idle()
    }
}

pub fn generalist_next_state(agent: &AgentView, room: &RoomView, c: &HookCounters) -> (r:
    ScreepState)
    ensures
        r == generalist_spec(*agent, *room, *c),
{
    if agent.used == 0 {
        return match find_energy(room, agent, EnergyAuthority::All) {
            Some(s) => s,
            None => ScreepState::Idle(IdleState),
        };
    }
    if let Some(s) = find_base_structure_needing_energy(room) {
        return s;
    }
    if c.building < BUILDER_CAP && c.upgrading > 0 {
        if let Some(site) = find_nearest_construction_site(room) {
            return ScreepState::Build(BuildState::new(site));
        }
    }
    if let Some(s) = upgrade_controller(room) {
        return s;
    }
    ScreepState::Idle(IdleState)
}

/// The container with room nearest to source `i`, if the room has one.
pub open spec fn source_container_spec(room: RoomView, i: u8) -> Option<u128> {
    if (i as int) < room.around_sources@.len() {
        let near = room.around_sources@[i as int]@;
        id_at(near, nearest_index(near, Selector::ContainerWithRoom))
    } else {
        None
    }
}

fn source_container(room: &RoomView, i: u8) -> (r: Option<u128>)
    ensures
        r == source_container_spec(*room, i),
{
    if (i as usize) < room.around_sources.len() {
        let near = &room.around_sources[i as usize];
        proof {
            crate::room::lemma_nearest_index_bounds(near@, Selector::ContainerWithRoom);
        }
        let k = find_nearest(near, Selector::ContainerWithRoom);
        id_of(near, k)
    } else {
        None
    }
}

/// The miner, bound to source `binding`: harvest it while empty; once carrying
/// energy, fill the container with room nearest to that source, else upgrade.
pub open spec fn miner_spec(agent: AgentView, room: RoomView, binding: Option<u8>) -> ScreepState {
    match binding {
        None => idle(),
        Some(i) => if agent.used == 0 {
            if (i as int) < room.sources@.len() {
                ScreepState::Harvest(HarvestState { source: room.sources@[i as int].id })
            } else {
                idle()
            }
        } else if let Some(id) = source_container_spec(room, i) {
            ScreepState::FeedStructure(FeedStructureState { structure: id })
        } else if let Some(s) = upgrade_spec(room) {
            s
        } else {
            idle()
        },
    }
}

pub fn miner_next_state(agent: &AgentView, room: &RoomView, binding: Option<u8>) -> (r:
    ScreepState)
    ensures
        r == miner_spec(*agent, *room, binding),
{
    let i = match binding {
        None => {
            return ScreepState::Idle(IdleState);
        },
        Some(i) => i,
    };
    if agent.used == 0 {
        return match find_object_at_index(&room.sources, i) {
            Some(id) => ScreepState::Harvest(HarvestState::new(id)),
            None => ScreepState::Idle(IdleState),
        };
    }
    if let Some(id) = source_container(room, i) {
        return ScreepState::FeedStructure(FeedStructureState::new(id));
    }
    if let Some(s) = upgrade_controller(room) {
        return s;
    }
    ScreepState::Idle(IdleState)
}

/// Withdraw from the container that holds the most energy.
pub open spec fn drain_spec(room: RoomView) -> Option<ScreepState> {
    match id_at(room.structures@, richest_index(room.structures@, Selector::ContainerWithEnergy)) {
        Some(id) => Some(ScreepState::Withdraw(WithdrawState { structure: id })),
        None => None,
    }
}

/// The hauler: while empty, drain the fullest container; once carrying energy,
/// fill the nearest storage with room, then spawns and extensions, then the
/// nearest tower that needs energy, then upgrade the controller.
pub open spec fn hauler_spec(agent: AgentView, room: RoomView) -> ScreepState {
    let st = room.structures@;
    if agent.used == 0 {
        match drain_spec(room) {
            Some(s) => s,
            None => idle(),
        }
    } else if let Some(id) = id_at(st, nearest_index(st, Selector::StorageWithRoom)) {
        ScreepState::FeedStructure(FeedStructureState { structure: id })
    } else if let Some(s) = base_feed_spec(room) {
        s
    } else if let Some(id) = id_at(st, nearest_index(st, Selector::TowerNeedingEnergy)) {
        ScreepState::FeedStructure(FeedStructureState { structure: id })
    } else if let Some(s) = upgrade_spec(room) {
        s
    } else {
        idle()
    }
}

fn drain(room: &RoomView) -> (r: Option<ScreepState>)
    ensures
        r == drain_spec(*room),
{
    match find_container_with_most_energy(room) {
        Some(id) => Some(ScreepState::Withdraw(WithdrawState::new(id))),
        None => None,
    }
}

pub fn hauler_next_state(agent: &AgentView, room: &RoomView) -> (r: ScreepState)
    ensures
        r == hauler_spec(*agent, *room),
{
    if agent.used == 0 {
        return match drain(room) {
            Some(s) => s,
            None => ScreepState::Idle(IdleState),
        };
    }
    proof {
        crate::room::lemma_nearest_index_bounds(room.structures@, Selector::StorageWithRoom);
    }
    let k = find_nearest(&room.structures, Selector::StorageWithRoom);
    if let Some(id) = id_of(&room.structures, k) {
        return ScreepState::FeedStructure(FeedStructureState::new(id));
    }
    if let Some(s) = find_base_structure_needing_energy(room) {
        return s;
    }
    if let Some(id) = find_closest_tower_needing_energy(room) {
        return ScreepState::FeedStructure(FeedStructureState::new(id));
    }
    if let Some(s) = upgrade_controller(room) {
        return s;
    }
    ScreepState::Idle(IdleState)
}

/// The builder: get energy from storage or containers, then build the nearest
/// site, then upgrade.
pub open spec fn builder_spec(agent: AgentView, room: RoomView) -> ScreepState {
    if let Some(s) = energy_spec(room, agent, EnergyAuthority::StorageOrContainers) {
        s
    } else if let Some(s) = build_spec(room) {
        s
    } else if let Some(s) = upgrade_spec(room) {
        s
    } else {
        idle()
    }
}

pub fn builder_next_state(agent: &AgentView, room: &RoomView) -> (r: ScreepState)
    ensures
        r == builder_spec(*agent, *room),
{
    if let Some(s) = find_energy(room, agent, EnergyAuthority::StorageOrContainers) {
        return s;
    }
    if let Some(site) = find_nearest_construction_site(room) {
        return ScreepState::Build(BuildState::new(site));
    }
    if let Some(s) = upgrade_controller(room) {
        return s;
    }
    ScreepState::Idle(IdleState)
}

/// The upgrader: get energy from storage or containers, then upgrade.
pub open spec fn upgrader_spec(agent: AgentView, room: RoomView) -> ScreepState {
    if let Some(s) = energy_spec(room, agent, EnergyAuthority::StorageOrContainers) {
        s
    } else if let Some(s) = upgrade_spec(room) {
        s
    } else {
        idle()
    }
}

pub fn upgrader_next_state(agent: &AgentView, room: &RoomView) -> (r: ScreepState)
    ensures
        r == upgrader_spec(*agent, *room),
{
    if let Some(s) = find_energy(room, agent, EnergyAuthority::StorageOrContainers) {
        return s;
    }
    if let Some(s) = upgrade_controller(room) {
        return s;
    }
    ScreepState::Idle(IdleState)
}

} // verus!
