//! Plain-value snapshots of a room as one viewer (a creep or a tower) sees it,
//! and the searches that the decision ladders run over them.

use vstd::prelude::*;

verus! {

/// What a room object is, as far as the decision logic cares.
#[derive(Clone, Copy, Debug, PartialEq, Eq, Structural)]
pub enum ObjectKind {
    Spawn,
    Extension,
    Storage,
    Container,
    Tower,
    Controller,
    Road,
    Wall,
    Rampart,
    Source,
    Site,
    Other,
}

/// One object of a room, with the energy facts the ladders read.
///
/// `id` is the object's packed game id; `range` is its distance from the viewer
/// the snapshot was taken for.
#[derive(Clone, Copy, Debug, PartialEq, Eq, Structural)]
pub struct RoomObject {
    pub id: u128,
    pub kind: ObjectKind,
    /// Energy stored in the object.
    pub energy: u32,
    /// Energy the object can still take.
    pub free: u32,
    /// Total energy capacity of the object.
    pub capacity: u32,
    pub range: u32,
    /// Whether the object has fewer hits than its maximum.
    pub damaged: bool,
}

/// A room as one creep sees it: ranges in each object are from that creep.
#[derive(Clone, Debug)]
pub struct RoomView {
    /// All structures of the room, in the game's find order.
    pub structures: Vec<RoomObject>,
    /// The room's active energy sources, in the game's find order.
    pub sources: Vec<RoomObject>,
    /// The room's construction sites, in the game's find order.
    pub sites: Vec<RoomObject>,
    /// For each source of `sources`, in the same order, the room's structures
    /// with ranges taken from that source.
    pub around_sources: Vec<Vec<RoomObject>>,
    /// Energy that spawns and extensions hold right now.
    pub energy_available: u32,
}

/// The energy a creep carries and can still take.
#[derive(Clone, Copy, Debug, PartialEq, Eq, Structural)]
pub struct AgentView {
    pub used: u32,
    pub free: u32,
}

/// Which objects a search accepts.
#[derive(Clone, Copy, Debug, PartialEq, Eq, Structural)]
pub enum Selector {
    Any,
    StorageWithEnergy,
    StorageWithRoom,
    ContainerWithEnergy,
    ContainerWithRoom,
    AnyContainer,
    TowerNeedingEnergy,
    BaseNeedingEnergy,
    Controller,
    Repairable,
}

impl Selector {
    pub open spec fn selects(self, o: RoomObject) -> bool {
        match self {
            Selector::Any => true,
            Selector::StorageWithEnergy => o.kind == ObjectKind::Storage && o.energy > 0,
            Selector::StorageWithRoom => o.kind == ObjectKind::Storage && o.free > 0,
            Selector::ContainerWithEnergy => o.kind == ObjectKind::Container && o.energy > 0,
            Selector::ContainerWithRoom => o.kind == ObjectKind::Container && o.free > 0,
            Selector::AnyContainer => o.kind == ObjectKind::Container,
            Selector::TowerNeedingEnergy => o.kind == ObjectKind::Tower && o.free > 0,
            Selector::BaseNeedingEnergy => (o.kind == ObjectKind::Spawn || o.kind
                == ObjectKind::Extension) && o.free > 0,
            Selector::Controller => o.kind == ObjectKind::Controller,
            Selector::Repairable => (o.kind == ObjectKind::Road || o.kind == ObjectKind::Container
                || o.kind == ObjectKind::Wall) && o.damaged,
        }
    }

    pub fn accepts(&self, o: &RoomObject) -> (r: bool)
        ensures
            r == self.selects(*o),
    {
        match self {
            Selector::Any => true,
            Selector::StorageWithEnergy => o.kind == ObjectKind::Storage && o.energy > 0,
            Selector::StorageWithRoom => o.kind == ObjectKind::Storage && o.free > 0,
            Selector::ContainerWithEnergy => o.kind == ObjectKind::Container && o.energy > 0,
            Selector::ContainerWithRoom => o.kind == ObjectKind::Container && o.free > 0,
            Selector::AnyContainer => o.kind == ObjectKind::Container,
            Selector::TowerNeedingEnergy => o.kind == ObjectKind::Tower && o.free > 0,
            Selector::BaseNeedingEnergy => (o.kind == ObjectKind::Spawn || o.kind
                == ObjectKind::Extension) && o.free > 0,
            Selector::Controller => o.kind == ObjectKind::Controller,
            Selector::Repairable => (o.kind == ObjectKind::Road || o.kind == ObjectKind::Container
                || o.kind == ObjectKind::Wall) && o.damaged,
        }
    }
}

/// Index of the first object of `s` that `sel` accepts.
pub open spec fn first_index(s: Seq<RoomObject>, sel: Selector) -> Option<int>
    decreases s.len(),
{
    if s.len() == 0 {
        None
    } else {
        match first_index(s.drop_last(), sel) {
            Some(j) => Some(j),
            None => if sel.selects(s.last()) {
                Some(s.len() - 1)
            } else {
                None
            },
        }
    }
}

/// Index of the accepted object of `s` with the smallest range; on equal ranges
/// the earliest one.
pub open spec fn nearest_index(s: Seq<RoomObject>, sel: Selector) -> Option<int>
    decreases s.len(),
{
    if s.len() == 0 {
        None
    } else {
        let prev = nearest_index(s.drop_last(), sel);
        if sel.selects(s.last()) && (prev is None || s.last().range < s[prev->0].range) {
            Some(s.len() - 1)
        } else {
            prev
        }
    }
}

/// Index of the accepted object of `s` that stores the most energy, among those
/// that store any; on equal amounts the earliest one.
pub open spec fn richest_index(s: Seq<RoomObject>, sel: Selector) -> Option<int>
    decreases s.len(),
{
    if s.len() == 0 {
        None
    } else {
        let prev = richest_index(s.drop_last(), sel);
        if sel.selects(s.last()) && s.last().energy > 0 && (prev is None || s.last().energy
            > s[prev->0].energy) {
            Some(s.len() - 1)
        } else {
            prev
        }
    }
}

/// The id at an optional index.
pub open spec fn id_at(s: Seq<RoomObject>, i: Option<int>) -> Option<u128> {
    match i {
        Some(k) => Some(s[k].id),
        None => None,
    }
}

pub proof fn lemma_first_index_bounds(s: Seq<RoomObject>, sel: Selector)
    ensures
        match first_index(s, sel) {
            Some(k) => 0 <= k < s.len() && sel.selects(s[k]) && forall|j: int|
                0 <= j < k ==> !sel.selects(#[trigger] s[j]),
            None => forall|j: int| 0 <= j < s.len() ==> !sel.selects(#[trigger] s[j]),
        },
    decreases s.len(),
{
    if s.len() > 0 {
        lemma_first_index_bounds(s.drop_last(), sel);
        assert(forall|j: int| 0 <= j < s.len() - 1 ==> s.drop_last()[j] == s[j]);
    }
}

pub proof fn lemma_nearest_index_bounds(s: Seq<RoomObject>, sel: Selector)
    ensures
        match nearest_index(s, sel) {
            Some(k) => 0 <= k < s.len() && sel.selects(s[k]) && (forall|j: int|
                0 <= j < s.len() && sel.selects(#[trigger] s[j]) ==> s[k].range <= s[j].range)
                && (forall|j: int|
                0 <= j < k && sel.selects(#[trigger] s[j]) ==> s[k].range < s[j].range),
            None => forall|j: int| 0 <= j < s.len() ==> !sel.selects(#[trigger] s[j]),
        },
    decreases s.len(),
{
    if s.len() > 0 {
        lemma_nearest_index_bounds(s.drop_last(), sel);
        assert(forall|j: int| 0 <= j < s.len() - 1 ==> s.drop_last()[j] == s[j]);
    }
}

pub proof fn lemma_richest_index_bounds(s: Seq<RoomObject>, sel: Selector)
    ensures
        match richest_index(s, sel) {
            Some(k) => 0 <= k < s.len() && sel.selects(s[k]) && s[k].energy > 0,
            None => forall|j: int|
                0 <= j < s.len() ==> !(sel.selects(#[trigger] s[j]) && s[j].energy > 0),
        },
    decreases s.len(),
{
    if s.len() > 0 {
        lemma_richest_index_bounds(s.drop_last(), sel);
        assert(forall|j: int| 0 <= j < s.len() - 1 ==> s.drop_last()[j] == s[j]);
    }
}

/// The first object of `s` that `sel` accepts.
pub fn find_first(s: &Vec<RoomObject>, sel: Selector) -> (r: Option<usize>)
    ensures
        match r {
            Some(k) => first_index(s@, sel) == Some(k as int),
            None => first_index(s@, sel) is None,
        },
{
    let mut i: usize = 0;
    while i < s.len()
        invariant
            i <= s.len(),
            first_index(s@.take(i as int), sel) is None,
        decreases s.len() - i,
    {
        assert(s@.take(i + 1).drop_last() =~= s@.take(i as int));
        if sel.accepts(&s[i]) {
            assert(s@ =~= s@.take(s.len() as int));
            proof {
                lemma_prefix_keeps_first(s@, sel, i as int);
            }
            return Some(i);
        }
        assert(s@.take(i + 1).last() == s@[i as int]);
        i = i + 1;
    }
    assert(s@ =~= s@.take(s.len() as int));
    None
}

proof fn lemma_prefix_keeps_first(s: Seq<RoomObject>, sel: Selector, i: int)
    requires
        0 <= i < s.len(),
        first_index(s.take(i), sel) is None,
        sel.selects(s[i]),
    ensures
        first_index(s, sel) == Some(i),
    decreases s.len(),
{
    if s.len() == i + 1 {
        assert(s.drop_last() =~= s.take(i));
    } else {
        assert(s.drop_last().take(i) =~= s.take(i));
        lemma_prefix_keeps_first(s.drop_last(), sel, i);
    }
}

/// The accepted object of `s` nearest to the viewer, the earliest on equal ranges.
pub fn find_nearest(s: &Vec<RoomObject>, sel: Selector) -> (r: Option<usize>)
    ensures
        match r {
            Some(k) => nearest_index(s@, sel) == Some(k as int),
            None => nearest_index(s@, sel) is None,
        },
{
    let mut best: Option<usize> = None;
    let mut i: usize = 0;
    while i < s.len()
        invariant
            i <= s.len(),
            match best {
                Some(k) => nearest_index(s@.take(i as int), sel) == Some(k as int) && k < i,
                None => nearest_index(s@.take(i as int), sel) is None,
            },
        decreases s.len() - i,
    {
        let ghost t = s@.take(i + 1);
        assert(t.drop_last() =~= s@.take(i as int));
        assert(t.last() == s@[i as int]);
        if sel.accepts(&s[i]) {
            match best {
                Some(k) => {
                    assert(t[k as int] == s@[k as int]);
                    if s[i].range < s[k].range {
                        best = Some(i);
                    }
                },
                None => {
                    best = Some(i);
                },
            }
        }
        i = i + 1;
    }
    assert(s@ =~= s@.take(s.len() as int));
    best
}

/// The accepted object of `s` that stores the most energy, the earliest on
/// equal amounts; objects that store none are passed over.
pub fn find_richest(s: &Vec<RoomObject>, sel: Selector) -> (r: Option<usize>)
    ensures
        match r {
            Some(k) => richest_index(s@, sel) == Some(k as int),
            None => richest_index(s@, sel) is None,
        },
{
    let mut best: Option<usize> = None;
    let mut i: usize = 0;
    while i < s.len()
        invariant
            i <= s.len(),
            match best {
                Some(k) => richest_index(s@.take(i as int), sel) == Some(k as int) && k < i,
                None => richest_index(s@.take(i as int), sel) is None,
            },
        decreases s.len() - i,
    {
        let ghost t = s@.take(i + 1);
        assert(t.drop_last() =~= s@.take(i as int));
        assert(t.last() == s@[i as int]);
        if sel.accepts(&s[i]) && s[i].energy > 0 {
            match best {
                Some(k) => {
                    assert(t[k as int] == s@[k as int]);
                    if s[i].energy > s[k].energy {
                        best = Some(i);
                    }
                },
                None => {
                    best = Some(i);
                },
            }
        }
        i = i + 1;
    }
    assert(s@ =~= s@.take(s.len() as int));
    best
}

/// The id of the object at an optional index.
pub fn id_of(s: &Vec<RoomObject>, i: Option<usize>) -> (r: Option<u128>)
    requires
        i matches Some(k) ==> k < s.len(),
    ensures
        r == id_at(s@, match i {
            Some(k) => Some(k as int),
            None => None,
        }),
{
    match i {
        Some(k) => Some(s[k].id),
        None => None,
    }
}

} // verus!
