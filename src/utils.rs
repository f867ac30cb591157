//! Searches of a room that the role ladders share.

use vstd::prelude::*;
use crate::room::{
    find_first, find_nearest, find_richest, first_index, id_at, id_of, nearest_index,
    richest_index, AgentView, ObjectKind, RoomObject, RoomView, Selector,
};
use crate::states::{
    FeedStructureState, HarvestState, ScreepState, UpgradeState, WithdrawState,
};

verus! {

/// Where a creep may take energy from.
#[derive(Clone, Copy, Debug, PartialEq, Eq, Structural)]
pub enum EnergyAuthority {
    /// Storage only.
    StorageOnly,
    /// Storage, then containers; never a source.
    StorageOrContainers,
    /// Storage, then containers, then sources.
    All,
}

/// The id of the nearest object of `objects`, the earliest on equal ranges.
pub fn find_nearest_object(objects: &Vec<RoomObject>) -> (r: Option<u128>)
    ensures
        r == id_at(objects@, nearest_index(objects@, Selector::Any)),
        r is None <==> objects@.len() == 0,
{
    proof {
        crate::room::lemma_nearest_index_bounds(objects@, Selector::Any);
    }
    let i = find_nearest(objects, Selector::Any);
    id_of(objects, i)
}

/// The id of the object at `index` of `objects`, if there is one.
pub fn find_object_at_index(objects: &Vec<RoomObject>, index: u8) -> (r: Option<u128>)
    ensures
        r == (if (index as int) < objects@.len() {
            Some(objects@[index as int].id)
        } else {
            None::<u128>
        }),
{
    if (index as usize) < objects.len() {
        Some(objects[index as usize].id)
    } else {
        None
    }
}

/// The id of the construction site nearest to the creep.
pub fn find_nearest_construction_site(room: &RoomView) -> (r: Option<u128>)
    ensures
        r == id_at(room.sites@, nearest_index(room.sites@, Selector::Any)),
{
    find_nearest_object(&room.sites)
}

/// What spawns and extensions of `s` can hold together.
pub open spec fn base_capacity(s: Seq<RoomObject>) -> int
    decreases s.len(),
{
    if s.len() == 0 {
        0
    } else {
        base_capacity(s.drop_last()) + if s.last().kind == ObjectKind::Spawn || s.last().kind
            == ObjectKind::Extension {
            s.last().capacity as int
        } else {
            0
        }
    }
}

proof fn lemma_base_capacity_bound(s: Seq<RoomObject>)
    ensures
        0 <= base_capacity(s) <= s.len() * 0xffff_ffff,
    decreases s.len(),
{
    if s.len() > 0 {
        lemma_base_capacity_bound(s.drop_last());
    }
}

/// The most energy a room can hold for spawning: the capacity of its spawns and
/// extensions together.
pub fn get_total_upgrade_energy(room: &RoomView) -> (r: u128)
    ensures
        r == base_capacity(room.structures@),
{
    let s = &room.structures;
    let mut total: u128 = 0;
    let mut i: usize = 0;
    while i < s.len()
        invariant
            i <= s.len() <= usize::MAX,
            total == base_capacity(s@.take(i as int)),
        decreases s.len() - i,
    {
        let ghost t = s@.take(i + 1);
        assert(t.drop_last() =~= s@.take(i as int));
        proof {
            lemma_base_capacity_bound(t);
            assert(t.len() * 0xffff_ffff <= 0xffff_ffff_ffff_ffff * 0xffff_ffff)
                by (nonlinear_arith)
                requires
                    t.len() <= 0xffff_ffff_ffff_ffff,
            ;
        }
        let o = &s[i];
        if o.kind == ObjectKind::Spawn || o.kind == ObjectKind::Extension {
            total = total + o.capacity as u128;
        }
        i = i + 1;
    }
    assert(s@ =~= s@.take(s.len() as int));
    total
}

/// Where a creep that needs energy goes for it.
pub open spec fn energy_spec(room: RoomView, agent: AgentView, authority: EnergyAuthority) -> Option<
    ScreepState,
> {
    let st = room.structures@;
    if agent.used > 0 {
        None
    } else if let Some(id) = id_at(st, nearest_index(st, Selector::StorageWithEnergy)) {
        Some(ScreepState::Withdraw(WithdrawState { structure: id }))
    } else if authority == EnergyAuthority::StorageOnly {
        None
    } else if let Some(id) = id_at(st, nearest_index(st, Selector::ContainerWithEnergy)) {
        Some(ScreepState::Withdraw(WithdrawState { structure: id }))
    } else if authority == EnergyAuthority::StorageOrContainers {
        None
    } else if let Some(id) = id_at(room.sources@, nearest_index(room.sources@, Selector::Any)) {
        Some(ScreepState::Harvest(HarvestState { source: id }))
    } else {
        None
    }
}

/// For an empty creep, a state that gets it energy: the nearest storage that
/// holds some, else the nearest such container, else the nearest active source,
/// as far as `authority` allows. `None` for a creep that carries energy.
pub fn find_energy(room: &RoomView, agent: &AgentView, authority: EnergyAuthority) -> (r: Option<
    ScreepState,
>)
    ensures
        r == energy_spec(*room, *agent, authority),
{
    if agent.used > 0 {
        return None;
    }
    if let Some(id) = find_closest_storage(room) {
        return Some(ScreepState::Withdraw(WithdrawState::new(id)));
    }
    if authority == EnergyAuthority::StorageOnly {
        return None;
    }
    if let Some(id) = find_closest_container_with_energy(room) {
        return Some(ScreepState::Withdraw(WithdrawState::new(id)));
    }
    if authority == EnergyAuthority::StorageOrContainers {
        return None;
    }
    if let Some(id) = find_nearest_object(&room.sources) {
        return Some(ScreepState::Harvest(HarvestState::new(id)));
    }
    None
}

/// The nearest storage that holds energy.
pub fn find_closest_storage(room: &RoomView) -> (r: Option<u128>)
    ensures
        r == id_at(room.structures@, nearest_index(room.structures@, Selector::StorageWithEnergy)),
{
    proof {
        crate::room::lemma_nearest_index_bounds(room.structures@, Selector::StorageWithEnergy);
    }
    let i = find_nearest(&room.structures, Selector::StorageWithEnergy);
    id_of(&room.structures, i)
}

/// The nearest container that holds energy.
pub fn find_closest_container_with_energy(room: &RoomView) -> (r: Option<u128>)
    ensures
        r == id_at(
            room.structures@,
            nearest_index(room.structures@, Selector::ContainerWithEnergy),
        ),
{
    proof {
        crate::room::lemma_nearest_index_bounds(room.structures@, Selector::ContainerWithEnergy);
    }
    let i = find_nearest(&room.structures, Selector::ContainerWithEnergy);
    id_of(&room.structures, i)
}

/// The container that holds the most energy.
pub fn find_container_with_most_energy(room: &RoomView) -> (r: Option<u128>)
    ensures
        r == id_at(
            room.structures@,
            richest_index(room.structures@, Selector::ContainerWithEnergy),
        ),
{
    proof {
        crate::room::lemma_richest_index_bounds(room.structures@, Selector::ContainerWithEnergy);
    }
    let i = find_richest(&room.structures, Selector::ContainerWithEnergy);
    id_of(&room.structures, i)
}

/// The nearest tower that can take energy.
pub fn find_closest_tower_needing_energy(room: &RoomView) -> (r: Option<u128>)
    ensures
        r == id_at(room.structures@, nearest_index(room.structures@, Selector::TowerNeedingEnergy)),
{
    proof {
        crate::room::lemma_nearest_index_bounds(room.structures@, Selector::TowerNeedingEnergy);
    }
    let i = find_nearest(&room.structures, Selector::TowerNeedingEnergy);
    id_of(&room.structures, i)
}

/// The container nearest to a position; ranges in `objects` are taken from
/// that position.
pub fn find_closest_container_to_position(objects: &Vec<RoomObject>) -> (r: Option<u128>)
    ensures
        r == id_at(objects@, nearest_index(objects@, Selector::AnyContainer)),
{
    proof {
        crate::room::lemma_nearest_index_bounds(objects@, Selector::AnyContainer);
    }
    let i = find_nearest(objects, Selector::AnyContainer);
    id_of(objects, i)
}

/// While the room holds less energy than its spawns and extensions can, feed
/// the nearest of them that has room.
pub open spec fn base_feed_spec(room: RoomView) -> Option<ScreepState> {
    let st = room.structures@;
    if room.energy_available as int >= base_capacity(st) {
        None
    } else if let Some(id) = id_at(st, nearest_index(st, Selector::BaseNeedingEnergy)) {
        Some(ScreepState::FeedStructure(FeedStructureState { structure: id }))
    } else {
        None
    }
}

pub fn find_base_structure_needing_energy(room: &RoomView) -> (r: Option<ScreepState>)
    ensures
        r == base_feed_spec(*room),
{
    let total = get_total_upgrade_energy(room);
    if room.energy_available as u128 >= total {
        return None;
    }
    proof {
        crate::room::lemma_nearest_index_bounds(room.structures@, Selector::BaseNeedingEnergy);
    }
    let i = find_nearest(&room.structures, Selector::BaseNeedingEnergy);
    match id_of(&room.structures, i) {
        Some(id) => Some(ScreepState::FeedStructure(FeedStructureState::new(id))),
        None => None,
    }
}

/// Upgrade the room's controller, if it has one.
pub open spec fn upgrade_spec(room: RoomView) -> Option<ScreepState> {
    let st = room.structures@;
    if let Some(id) = id_at(st, first_index(st, Selector::Controller)) {
        Some(ScreepState::Upgrade(UpgradeState { controller: id }))
    } else {
        None
    }
}

pub fn upgrade_controller(room: &RoomView) -> (r: Option<ScreepState>)
    ensures
        r == upgrade_spec(*room),
{
    proof {
        crate::room::lemma_first_index_bounds(room.structures@, Selector::Controller);
    }
    let i = find_first(&room.structures, Selector::Controller);
    match id_of(&room.structures, i) {
        Some(id) => Some(ScreepState::Upgrade(UpgradeState::new(id))),
        None => None,
    }
}

} // verus!
