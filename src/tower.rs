//! Towers: which damaged structure each one repairs.

use vstd::prelude::*;
use crate::room::{find_nearest, id_at, id_of, nearest_index, RoomObject, Selector};

verus! {

/// Runs the room's towers.
#[derive(Clone, Copy, Debug, PartialEq, Eq, Structural)]
pub struct TowerManager;

impl TowerManager {
    pub fn new() -> (r: Self)
        ensures
            r == TowerManager,
    {
        TowerManager
    }

    /// The damaged road, container or wall nearest to the tower; ranges in
    /// `structures` are taken from the tower.
    pub fn find_repair_target(&self, structures: &Vec<RoomObject>) -> (r: Option<u128>)
        ensures
            r == id_at(structures@, nearest_index(structures@, Selector::Repairable)),
    {
        proof {
            crate::room::lemma_nearest_index_bounds(structures@, Selector::Repairable);
        }
        let i = find_nearest(structures, Selector::Repairable);
        id_of(structures, i)
    }

    /// What a tower holding `tower_energy` repairs this tick: nothing when it is
    /// empty, else its repair target.
    pub fn run(&self, tower_energy: u32, structures: &Vec<RoomObject>) -> (r: Option<u128>)
        ensures
            r == (if tower_energy == 0 {
                None
            } else {
                id_at(structures@, nearest_index(structures@, Selector::Repairable))
            }),
    {
        if tower_energy == 0 {
            return None;
        }
        self.find_repair_target(structures)
    }
}

} // verus!
