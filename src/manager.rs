//! The colony controller: one state machine per live creep, keyed by the
//! creep's name, the shared hook counters, and the spawn policy.

use vstd::prelude::*;
use crate::body::{body_cost, body_spec, get_best_worker_body, loadout_cost, BodyPart};
use crate::machine::{advance_spec, StateController};
use crate::memory::CreepMemory;
use crate::roles::Specialisation;
use crate::room::{AgentView, ObjectKind, RoomObject, RoomView};
use crate::states::{HookCounters, IdleState, ScreepState, StateName, TickResult};

verus! {

/// A live creep's name and its state machine.
#[derive(Clone, Debug)]
pub struct AgentEntry {
    pub name: String,
    pub controller: StateController,
}

/// The state machines of all known creeps and the counters their hooks keep.
#[derive(Clone, Debug)]
pub struct SCManager {
    pub state_controllers: Vec<AgentEntry>,
    pub counters: HookCounters,
}

/// Whether some name of `live` is `name`.
pub open spec fn is_live(live: Seq<String>, name: Seq<char>) -> bool {
    exists|i: int| 0 <= i < live.len() && (#[trigger] live[i])@ == name
}

/// The entries of creeps still alive, in their order, and the counters after
/// the exit hook of each dropped entry's state.
pub open spec fn gc_spec(s: Seq<AgentEntry>, live: Seq<String>, c: HookCounters) -> (
    Seq<AgentEntry>,
    HookCounters,
)
    decreases s.len(),
{
    if s.len() == 0 {
        (s, c)
    } else {
        let (kept, c1) = gc_spec(s.drop_last(), live, c);
        if is_live(live, s.last().name@) {
            (kept.push(s.last()), c1)
        } else {
            (kept, s.last().controller.current_state.exit_spec(c1))
        }
    }
}

/// No two entries share a name.
pub open spec fn names_unique(s: Seq<AgentEntry>) -> bool {
    forall|i: int, j: int| 0 <= i < j < s.len() ==> s[i].name@ != s[j].name@
}

/// Whether some entry of `s` has the name.
pub open spec fn has_name(s: Seq<AgentEntry>, name: Seq<char>) -> bool {
    exists|i: int| 0 <= i < s.len() && (#[trigger] s[i]).name@ == name
}

proof fn lemma_gc_keeps_unique(s: Seq<AgentEntry>, live: Seq<String>, c: HookCounters)
    requires
        names_unique(s),
    ensures
        names_unique(gc_spec(s, live, c).0),
        forall|n: Seq<char>| has_name(gc_spec(s, live, c).0, n) ==> has_name(s, n),
    decreases s.len(),
{
    if s.len() > 0 {
        let d = s.drop_last();
        assert(names_unique(d));
        lemma_gc_keeps_unique(d, live, c);
        let kept = gc_spec(d, live, c).0;
        assert forall|n: Seq<char>| has_name(d, n) implies has_name(s, n) by {
            let i = choose|i: int| 0 <= i < d.len() && (#[trigger] d[i]).name@ == n;
            assert(s[i] == d[i]);
        }
        if is_live(live, s.last().name@) {
            let k2 = kept.push(s.last());
            assert(!has_name(d, s.last().name@)) by {
                if has_name(d, s.last().name@) {
                    let i = choose|i: int| 0 <= i < d.len() && (#[trigger] d[i]).name@
                        == s.last().name@;
                    assert(s[i] == d[i]);
                }
            }
            assert(!has_name(kept, s.last().name@));
            assert forall|i: int, j: int| 0 <= i < j < k2.len() implies k2[i].name@
                != k2[j].name@ by {
                if j == k2.len() - 1 {
                    assert(k2[i] == kept[i]);
                    if k2[i].name@ == k2[j].name@ {
                        assert(has_name(kept, s.last().name@));
                    }
                } else {
                    assert(k2[i] == kept[i] && k2[j] == kept[j]);
                }
            }
            assert forall|n: Seq<char>| has_name(k2, n) implies has_name(s, n) by {
                let i = choose|i: int| 0 <= i < k2.len() && (#[trigger] k2[i]).name@ == n;
                if i < kept.len() {
                    assert(k2[i] == kept[i]);
                    assert(has_name(kept, n));
                } else {
                    assert(s[s.len() - 1].name@ == n);
                }
            }
        }
    }
}

/// How many entries of `s` are in the state named `n`.
pub open spec fn state_count(s: Seq<AgentEntry>, n: StateName) -> nat
    decreases s.len(),
{
    if s.len() == 0 {
        0
    } else {
        state_count(s.drop_last(), n) + in_state(s.last(), n)
    }
}

/// One if the entry's machine is in the state named `n`.
pub open spec fn in_state(e: AgentEntry, n: StateName) -> nat {
    if e.controller.current_state.name_spec() == n {
        1
    } else {
        0
    }
}

proof fn lemma_state_count_bound(s: Seq<AgentEntry>, n: StateName)
    ensures
        state_count(s, n) <= s.len(),
    decreases s.len(),
{
    if s.len() > 0 {
        lemma_state_count_bound(s.drop_last(), n);
    }
}

proof fn lemma_state_count_update(s: Seq<AgentEntry>, i: int, e: AgentEntry, n: StateName)
    requires
        0 <= i < s.len(),
    ensures
        state_count(s.update(i, e), n) + in_state(s[i], n) == state_count(s, n) + in_state(e, n),
    decreases s.len(),
{
    if i == s.len() - 1 {
        assert(s.update(i, e).drop_last() =~= s.drop_last());
    } else {
        assert(s.update(i, e).drop_last() =~= s.drop_last().update(i, e));
        lemma_state_count_update(s.drop_last(), i, e, n);
    }
}

proof fn lemma_state_count_holds(s: Seq<AgentEntry>, i: int, n: StateName)
    requires
        0 <= i < s.len(),
    ensures
        state_count(s, n) >= in_state(s[i], n),
    decreases s.len(),
{
    if i < s.len() - 1 {
        lemma_state_count_holds(s.drop_last(), i, n);
    }
}

proof fn lemma_state_count_push(s: Seq<AgentEntry>, e: AgentEntry, n: StateName)
    ensures
        state_count(s.push(e), n) == state_count(s, n) + in_state(e, n),
{
    assert(s.push(e).drop_last() =~= s);
}

/// What the hooks do to the counters when a machine goes from `a` to `b`,
/// while the counters hold at least the machines in `a`'s state and adding one
/// cannot overflow.
proof fn lemma_transition_exact(c: HookCounters, a: ScreepState, b: ScreepState)
    requires
        a.name_spec() == StateName::Build ==> c.building >= 1,
        a.name_spec() == StateName::Upgrade ==> c.upgrading >= 1,
        c.building < u32::MAX,
        c.upgrading < u32::MAX,
    ensures
        b.enter_spec(a.exit_spec(c)).building + (if a.name_spec() == StateName::Build {
            1int
        } else {
            0
        }) == c.building + (if b.name_spec() == StateName::Build {
            1int
        } else {
            0
        }),
        b.enter_spec(a.exit_spec(c)).upgrading + (if a.name_spec() == StateName::Upgrade {
            1int
        } else {
            0
        }) == c.upgrading + (if b.name_spec() == StateName::Upgrade {
            1int
        } else {
            0
        }),
{
}

proof fn lemma_gc_counts(s: Seq<AgentEntry>, live: Seq<String>, c: HookCounters)
    requires
        c.building >= state_count(s, StateName::Build),
        c.upgrading >= state_count(s, StateName::Upgrade),
    ensures
        gc_spec(s, live, c).1.building + state_count(s, StateName::Build) == c.building
            + state_count(gc_spec(s, live, c).0, StateName::Build),
        gc_spec(s, live, c).1.upgrading + state_count(s, StateName::Upgrade) == c.upgrading
            + state_count(gc_spec(s, live, c).0, StateName::Upgrade),
    decreases s.len(),
{
    if s.len() > 0 {
        let d = s.drop_last();
        lemma_gc_counts(d, live, c);
        let (kept, c1) = gc_spec(d, live, c);
        if is_live(live, s.last().name@) {
            lemma_state_count_push(kept, s.last(), StateName::Build);
            lemma_state_count_push(kept, s.last(), StateName::Upgrade);
        }
    }
}

proof fn lemma_gc_len(s: Seq<AgentEntry>, live: Seq<String>, c: HookCounters)
    ensures
        gc_spec(s, live, c).0.len() <= s.len(),
    decreases s.len(),
{
    if s.len() > 0 {
        lemma_gc_len(s.drop_last(), live, c);
    }
}

/// How many creeps of each role a room holds.
#[derive(Clone, Copy, Debug, PartialEq, Eq, Structural)]
pub struct PopulationCounts {
    pub total: usize,
    pub generalists: usize,
    pub miners: usize,
    pub haulers: usize,
    pub builders: usize,
    pub upgraders: usize,
}

/// How many records of `mems` carry `role`.
pub open spec fn role_count(mems: Seq<CreepMemory>, role: Specialisation) -> nat
    decreases mems.len(),
{
    if mems.len() == 0 {
        0
    } else {
        role_count(mems.drop_last(), role) + if mems.last().specialisation == role {
            1nat
        } else {
            0nat
        }
    }
}

/// How many structures of `s` are containers.
pub open spec fn container_count(s: Seq<RoomObject>) -> nat
    decreases s.len(),
{
    if s.len() == 0 {
        0
    } else {
        container_count(s.drop_last()) + if s.last().kind == ObjectKind::Container {
            1nat
        } else {
            0nat
        }
    }
}

/// The colony spawns while it has fewer creeps than this.
pub const POPULATION_FLOOR: usize = 10;

/// The role-balancing ladder. Below two creeps, a generalist. Then producers
/// and transporters in turn, one to one, up to what the room supports: no more
/// than it has sources, nor more than it has containers to fill. Once those are
/// full, a builder while builders do not outnumber upgraders, else an upgrader.
pub open spec fn next_specialty_spec(p: PopulationCounts, sources: int, containers: int) -> Specialisation {
    let bound = if sources < containers {
        sources
    } else {
        containers
    };
    if p.total < 2 || bound <= 0 {
        Specialisation::Generalist
    } else if p.generalists >= 1 || p.miners + p.haulers >= 2 {
        if p.miners < bound && p.miners <= p.haulers {
            Specialisation::Miner
        } else if p.haulers < bound {
            Specialisation::Hauler
        } else if p.builders <= p.upgraders {
            Specialisation::Builder
        } else {
            Specialisation::Upgrader
        }
    } else {
        Specialisation::Generalist
    }
}

/// The role and body of a creep to spawn.
#[derive(Clone, Debug)]
pub struct SpawnOrder {
    pub specialisation: Specialisation,
    pub body: Vec<BodyPart>,
}

/// The population of a room, from the records of its creeps.
pub open spec fn census_spec(mems: Seq<CreepMemory>) -> PopulationCounts {
    PopulationCounts {
        total: mems.len() as usize,
        generalists: role_count(mems, Specialisation::Generalist) as usize,
        miners: role_count(mems, Specialisation::Miner) as usize,
        haulers: role_count(mems, Specialisation::Hauler) as usize,
        builders: role_count(mems, Specialisation::Builder) as usize,
        upgraders: role_count(mems, Specialisation::Upgrader) as usize,
    }
}

proof fn lemma_role_count_bound(mems: Seq<CreepMemory>, role: Specialisation)
    ensures
        role_count(mems, role) <= mems.len(),
    decreases mems.len(),
{
    if mems.len() > 0 {
        lemma_role_count_bound(mems.drop_last(), role);
    }
}

/// Counts the creeps of each role among the records of a room's creeps.
pub fn count_specialties(mems: &Vec<CreepMemory>) -> (r: PopulationCounts)
    ensures
        r == census_spec(mems@),
{
    let mut p = PopulationCounts {
        total: 0,
        generalists: 0,
        miners: 0,
        haulers: 0,
        builders: 0,
        upgraders: 0,
    };
    let mut i: usize = 0;
    while i < mems.len()
        invariant
            i <= mems@.len(),
            p == census_spec(mems@.take(i as int)),
        decreases mems.len() - i,
    {
        let ghost t = mems@.take(i + 1);
        assert(t.drop_last() =~= mems@.take(i as int));
        assert(t.last() == mems@[i as int]);
        proof {
            lemma_role_count_bound(t.drop_last(), Specialisation::Generalist);
            lemma_role_count_bound(t.drop_last(), Specialisation::Miner);
            lemma_role_count_bound(t.drop_last(), Specialisation::Hauler);
            lemma_role_count_bound(t.drop_last(), Specialisation::Builder);
            lemma_role_count_bound(t.drop_last(), Specialisation::Upgrader);
        }
        p.total = p.total + 1;
        match mems[i].specialisation {
            Specialisation::Generalist => p.generalists = p.generalists + 1,
            Specialisation::Miner => p.miners = p.miners + 1,
            Specialisation::Hauler => p.haulers = p.haulers + 1,
            Specialisation::Builder => p.builders = p.builders + 1,
            Specialisation::Upgrader => p.upgraders = p.upgraders + 1,
            Specialisation::Unknown => {},
        }
        i = i + 1;
    }
    assert(mems@.take(mems@.len() as int) =~= mems@);
    p
}

/// Counts the containers among a room's structures.
pub fn count_containers(structures: &Vec<RoomObject>) -> (r: usize)
    ensures
        r == container_count(structures@),
{
    let mut n: usize = 0;
    let mut i: usize = 0;
    while i < structures.len()
        invariant
            i <= structures@.len(),
            n == container_count(structures@.take(i as int)),
            n <= i,
        decreases structures.len() - i,
    {
        assert(structures@.take(i + 1).drop_last() =~= structures@.take(i as int));
        if structures[i].kind == ObjectKind::Container {
            n = n + 1;
        }
        i = i + 1;
    }
    assert(structures@.take(structures@.len() as int) =~= structures@);
    n
}

/// The role the next creep is spawned with; see [`next_specialty_spec`].
pub fn get_next_specialty(p: &PopulationCounts, sources: usize, containers: usize) -> (r:
    Specialisation)
    ensures
        r == next_specialty_spec(*p, sources as int, containers as int),
{
    let bound = if sources < containers {
        sources
    } else {
        containers
    };
    if p.total < 2 || bound == 0 {
        return Specialisation::Generalist;
    }
    if p.generalists >= 1 || p.miners >= 2 || p.haulers >= 2 - p.miners {
        if p.miners < bound && p.miners <= p.haulers {
            Specialisation::Miner
        } else if p.haulers < bound {
            Specialisation::Hauler
        } else if p.builders <= p.upgraders {
            Specialisation::Builder
        } else {
            Specialisation::Upgrader
        }
    } else {
        Specialisation::Generalist
    }
}

/// What a spawn should make this tick: nothing once the colony has
/// [`POPULATION_FLOOR`] creeps; else the next role with its body for `budget`,
/// when the energy at hand pays for that body.
pub open spec fn spawn_spec(
    live: int,
    energy_available: int,
    p: PopulationCounts,
    sources: int,
    containers: int,
    budget: int,
) -> Option<(Specialisation, Seq<BodyPart>)> {
    let role = next_specialty_spec(p, sources, containers);
    let body = body_spec(role, budget);
    if live >= POPULATION_FLOOR || energy_available < body_cost(body) {
        None
    } else {
        Some((role, body))
    }
}

/// Decides what a spawn makes this tick, from the number of live creeps, the
/// room's energy at hand, its population, sources and containers, and the
/// energy its spawns and extensions can hold.
pub fn plan_spawn(
    live: usize,
    energy_available: u32,
    p: &PopulationCounts,
    sources: usize,
    containers: usize,
    budget: u128,
) -> (r: Option<SpawnOrder>)
    ensures
        match r {
            Some(o) => spawn_spec(
                live as int,
                energy_available as int,
                *p,
                sources as int,
                containers as int,
                budget as int,
            ) == Some((o.specialisation, o.body@)),
            None => spawn_spec(
                live as int,
                energy_available as int,
                *p,
                sources as int,
                containers as int,
                budget as int,
            ) is None,
        },
{
    if live >= POPULATION_FLOOR {
        return None;
    }
    let role = get_next_specialty(p, sources, containers);
    let body = get_best_worker_body(role, budget);
    if (energy_available as u128) < loadout_cost(&body) {
        return None;
    }
    Some(SpawnOrder { specialisation: role, body })
}

/// With no creeps at all and a source to harvest, the next creep is a
/// generalist; once two or more generalists stand and no producer or
/// transporter does, in a room with a source and a container, it is a
/// producer.
pub proof fn lemma_balancing_starts_with_generalists(p: PopulationCounts, sources: int, containers: int)
    requires
        sources >= 1,
    ensures
        p == (PopulationCounts {
            total: 0,
            generalists: 0,
            miners: 0,
            haulers: 0,
            builders: 0,
            upgraders: 0,
        }) ==> next_specialty_spec(p, sources, containers) == Specialisation::Generalist,
        (p.generalists >= 2 && p.total >= p.generalists && p.miners == 0 && p.haulers == 0
            && containers >= 1) ==> next_specialty_spec(p, sources, containers)
            == Specialisation::Miner,
{
}

/// Whether `name` is among `live`.
pub fn is_live_name(live: &Vec<String>, name: &String) -> (r: bool)
    ensures
        r == is_live(live@, name@),
{
    let mut j: usize = 0;
    while j < live.len()
        invariant
            j <= live@.len(),
            forall|k: int| 0 <= k < j ==> (#[trigger] live@[k])@ != name@,
        decreases live.len() - j,
    {
        if live[j].eq(name) {
            return true;
        }
        j = j + 1;
    }
    false
}

impl SCManager {
    /// Names are unique, and the hook counters hold exactly how many machines
    /// are building and how many upgrading.
    pub open spec fn wf(self) -> bool {
        &&& names_unique(self.state_controllers@)
        &&& self.state_controllers@.len() < u32::MAX
        &&& self.counters.building == state_count(self.state_controllers@, StateName::Build)
        &&& self.counters.upgrading == state_count(self.state_controllers@, StateName::Upgrade)
    }

    pub fn new() -> (r: Self)
        ensures
            r.wf(),
            r.state_controllers@.len() == 0,
            r.counters == (HookCounters { building: 0, upgrading: 0 }),
    {
        SCManager { state_controllers: Vec::new(), counters: HookCounters::new() }
    }

    /// The index of the entry of the creep named `name`.
    pub fn find_entry(&self, name: &String) -> (r: Option<usize>)
        requires
            self.wf(),
        ensures
            match r {
                Some(i) => i < self.state_controllers@.len() && self.state_controllers@[i as int].name@
                    == name@,
                None => !has_name(self.state_controllers@, name@),
            },
    {
        let s = &self.state_controllers;
        let mut i: usize = 0;
        while i < s.len()
            invariant
                s@ == self.state_controllers@,
                i <= s@.len(),
                forall|j: int| 0 <= j < i ==> (#[trigger] s@[j]).name@ != name@,
            decreases s.len() - i,
        {
            if s[i].name.eq(name) {
                return Some(i);
            }
            i = i + 1;
        }
        None
    }

    /// The state the creep named `name` is in, if it is known.
    pub fn current_state_of(&self, name: &String) -> (r: Option<ScreepState>)
        requires
            self.wf(),
        ensures
            r is None <==> !has_name(self.state_controllers@, name@),
            r matches Some(st) ==> exists|i: int|
                0 <= i < self.state_controllers@.len() && (#[trigger] self.state_controllers@[i]).name@
                    == name@ && self.state_controllers@[i].controller.current_state == st,
    {
        match self.find_entry(name) {
            Some(i) => Some(self.state_controllers[i].controller.current_state),
            None => None,
        }
    }

    /// The memory record of the creep named `name`, if it is known.
    pub fn memory_of(&self, name: &String) -> (r: Option<CreepMemory>)
        requires
            self.wf(),
        ensures
            r is None <==> !has_name(self.state_controllers@, name@),
            r matches Some(m) ==> exists|i: int|
                0 <= i < self.state_controllers@.len() && (#[trigger] self.state_controllers@[i]).name@
                    == name@ && self.state_controllers@[i].controller.memory == m,
    {
        match self.find_entry(name) {
            Some(i) => Some(self.state_controllers[i].controller.memory),
            None => None,
        }
    }

    /// Drives the machine of the creep named `name` with the result of its
    /// tick. A creep without a machine gets one, from its stored record, and
    /// enters the state its ladder picks.
    pub fn run_tick_for(
        &mut self,
        name: &String,
        stored: CreepMemory,
        result: TickResult,
        agent: &AgentView,
        room: &RoomView,
        mems: &Vec<CreepMemory>,
    )
        requires
            old(self).wf(),
            old(self).state_controllers@.len() + 1 < u32::MAX,
        ensures
            final(self).wf(),
            has_name(final(self).state_controllers@, name@),
            has_name(old(self).state_controllers@, name@) ==> exists|i: int|
                0 <= i < old(self).state_controllers@.len() && (#[trigger] old(
                    self,
                ).state_controllers@[i]).name@ == name@ && final(self).state_controllers@
                    == old(self).state_controllers@.update(
                    i,
                    AgentEntry {
                        name: old(self).state_controllers@[i].name,
                        controller: advance_spec(
                            old(self).state_controllers@[i].controller,
                            old(self).counters,
                            result,
                            *agent,
                            *room,
                            mems@,
                        ).0,
                    },
                ) && final(self).counters == advance_spec(
                    old(self).state_controllers@[i].controller,
                    old(self).counters,
                    result,
                    *agent,
                    *room,
                    mems@,
                ).1,
            !has_name(old(self).state_controllers@, name@) ==> {
                let fresh = StateController {
                    memory: stored,
                    current_state: ScreepState::Idle(IdleState),
                };
                let (sc, c) = advance_spec(
                    fresh,
                    old(self).counters,
                    TickResult::Exit,
                    *agent,
                    *room,
                    mems@,
                );
                &&& final(self).state_controllers@.len() == old(self).state_controllers@.len() + 1
                &&& final(self).state_controllers@.drop_last() == old(self).state_controllers@
                &&& final(self).state_controllers@.last().name@ == name@
                &&& final(self).state_controllers@.last().controller == sc
                &&& final(self).counters == c
            },
    {
        match self.find_entry(name) {
            Some(i) => {
                let mut sc = self.state_controllers[i].controller;
                let ghost c0 = self.counters;
                proof {
                    lemma_state_count_bound(self.state_controllers@, StateName::Build);
                    lemma_state_count_bound(self.state_controllers@, StateName::Upgrade);
                    lemma_state_count_holds(self.state_controllers@, i as int, StateName::Build);
                    lemma_state_count_holds(self.state_controllers@, i as int, StateName::Upgrade);
                }
                sc.run_tick(&mut self.counters, result, agent, room, mems);
                let entry = AgentEntry { name: self.state_controllers[i].name.clone(), controller: sc };
                let ghost before = self.state_controllers@;
                proof {
                    lemma_state_count_update(before, i as int, entry, StateName::Build);
                    lemma_state_count_update(before, i as int, entry, StateName::Upgrade);
                    if !(result is Continue) {
                        lemma_transition_exact(c0, before[i as int].controller.current_state, sc.current_state);
                    }
                }
                self.state_controllers.set(i, entry);
                assert forall|a: int, b: int|
                    0 <= a < b < self.state_controllers@.len() implies self.state_controllers@[a].name@
                    != self.state_controllers@[b].name@ by {
                    assert(before[a].name@ != before[b].name@);
                }
                assert(self.state_controllers@[i as int].name@ == name@);
            },
            None => {
                let mut sc = StateController::new(stored);
                let ghost c0 = self.counters;
                proof {
                    lemma_state_count_bound(self.state_controllers@, StateName::Build);
                    lemma_state_count_bound(self.state_controllers@, StateName::Upgrade);
                }
                sc.start(&mut self.counters, agent, room, mems);
                let ghost before = self.state_controllers@;
                proof {
                    lemma_transition_exact(c0, ScreepState::Idle(IdleState), sc.current_state);
                }
                self.state_controllers.push(AgentEntry { name: name.clone(), controller: sc });
                assert(self.state_controllers@.drop_last() =~= before);
                proof {
                    let e = self.state_controllers@.last();
                    assert(self.state_controllers@ =~= before.push(e));
                    lemma_state_count_push(before, e, StateName::Build);
                    lemma_state_count_push(before, e, StateName::Upgrade);
                }
                assert forall|a: int, b: int|
                    0 <= a < b < self.state_controllers@.len() implies self.state_controllers@[a].name@
                    != self.state_controllers@[b].name@ by {
                    if b == before.len() {
                        assert(self.state_controllers@[a] == before[a]);
                    } else {
                        assert(before[a].name@ != before[b].name@);
                    }
                }
                assert(self.state_controllers@[before.len() as int].name@ == name@);
            },
        }
    }

    /// Drops the machines of creeps that are no longer alive, running the exit
    /// hook of each dropped machine's state.
    pub fn forget_missing(&mut self, live: &Vec<String>)
        requires
            old(self).wf(),
        ensures
            final(self).wf(),
            (final(self).state_controllers@, final(self).counters) == gc_spec(
                old(self).state_controllers@,
                live@,
                old(self).counters,
            ),
    {
        let mut rest: Vec<AgentEntry> = Vec::new();
        std::mem::swap(&mut rest, &mut self.state_controllers);
        let ghost orig = rest@;
        let n = rest.len();
        let mut kept: Vec<AgentEntry> = Vec::new();
        let mut i: usize = 0;
        assert(orig.skip(0) =~= orig);
        while rest.len() > 0
            invariant
                i <= orig.len(),
                orig.len() == n,
                i + rest@.len() == orig.len(),
                rest@ == orig.skip(i as int),
                (kept@, self.counters) == gc_spec(orig.take(i as int), live@, old(self).counters),
            decreases rest.len(),
        {
            let ghost t = orig.take(i + 1);
            assert(t.drop_last() =~= orig.take(i as int));
            assert(t.last() == orig[i as int]);
            let e = rest.remove(0);
            assert(rest@ =~= orig.skip(i + 1));
            let alive = is_live_name(live, &e.name);
            if alive {
                kept.push(e);
            } else {
                e.controller.current_state.on_exit(&mut self.counters);
            }
            i = i + 1;
        }
        assert(orig.take(orig.len() as int) =~= orig);
        proof {
            lemma_gc_keeps_unique(orig, live@, old(self).counters);
            lemma_gc_counts(orig, live@, old(self).counters);
            lemma_gc_len(orig, live@, old(self).counters);
        }
        self.state_controllers = kept;
    }
}

} // verus!
