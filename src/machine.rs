//! The per-creep state machine: it holds the creep's current state and its
//! memory record, and moves it from state to state through the hooks.

use vstd::prelude::*;
use crate::memory::{bindable, find_source_index, least_loaded, CreepMemory};
use crate::roles::{
    builder_next_state, builder_spec, generalist_next_state, generalist_spec, hauler_next_state,
    hauler_spec, miner_next_state, miner_spec, upgrader_next_state, upgrader_spec,
    Specialisation,
};
use crate::room::{AgentView, RoomView};
use crate::states::{HookCounters, IdleState, ScreepState, TickResult};

verus! {

/// One creep's state machine.
#[derive(Clone, Copy, Debug, PartialEq, Eq, Structural)]
pub struct StateController {
    pub memory: CreepMemory,
    pub current_state: ScreepState,
}

/// The source a miner with record `mem` works: the one its record names, else
/// the least loaded of the room's `n_sources`.
pub open spec fn binding_spec(mem: CreepMemory, n_sources: int, mems: Seq<CreepMemory>) -> Option<
    u8,
> {
    match mem.additional_data {
        Some(i) => Some(i),
        None => match least_loaded(bindable(n_sources), mems) {
            Some(k) => Some(k as u8),
            None => None,
        },
    }
}

/// The record after a choice: a miner without a binding is given one.
pub open spec fn memory_after_choice(mem: CreepMemory, room: RoomView, mems: Seq<CreepMemory>) -> CreepMemory {
    if mem.specialisation == Specialisation::Miner && mem.additional_data is None {
        CreepMemory { additional_data: binding_spec(mem, room.sources@.len() as int, mems), ..mem }
    } else {
        mem
    }
}

/// The state the role ladder of `mem`'s role picks.
pub open spec fn choice_spec(
    mem: CreepMemory,
    agent: AgentView,
    room: RoomView,
    c: HookCounters,
    mems: Seq<CreepMemory>,
) -> ScreepState {
    match mem.specialisation {
        Specialisation::Miner => miner_spec(
            agent,
            room,
            binding_spec(mem, room.sources@.len() as int, mems),
        ),
        Specialisation::Hauler => hauler_spec(agent, room),
        Specialisation::Builder => builder_spec(agent, room),
        Specialisation::Upgrader => upgrader_spec(agent, room),
        _ => generalist_spec(agent, room, c),
    }
}

/// Leave `from` for `to`: the exit hook of the one, then the entry hook of the
/// other.
pub open spec fn transition_spec(c: HookCounters, from: ScreepState, to: ScreepState) -> HookCounters {
    to.enter_spec(from.exit_spec(c))
}

/// The machine after entering `s`, whose record now names it.
pub open spec fn entered(sc: StateController, s: ScreepState, mem: CreepMemory) -> StateController {
    StateController {
        memory: CreepMemory { current_state: s.name_spec(), ..mem },
        current_state: s,
    }
}

/// The machine and counters after a tick that ended in `result`.
pub open spec fn advance_spec(
    sc: StateController,
    c: HookCounters,
    result: TickResult,
    agent: AgentView,
    room: RoomView,
    mems: Seq<CreepMemory>,
) -> (StateController, HookCounters) {
    match result {
        TickResult::Continue => (sc, c),
        TickResult::ChangeState(s) => (
            entered(sc, s, sc.memory),
            transition_spec(c, sc.current_state, s),
        ),
        TickResult::Exit => {
            let c1 = sc.current_state.exit_spec(c);
            let s = choice_spec(sc.memory, agent, room, c1, mems);
            (entered(sc, s, memory_after_choice(sc.memory, room, mems)), s.enter_spec(c1))
        },
    }
}

impl StateController {
    /// A machine for a creep first seen: idle, with the creep's record.
    pub fn new(memory: CreepMemory) -> (r: Self)
        ensures
            r.memory == memory,
            r.current_state == ScreepState::Idle(IdleState),
    {
        StateController { memory, current_state: ScreepState::Idle(IdleState) }
    }

    /// Runs the ladder of the creep's role. A miner without a bound source is
    /// bound to the least loaded one, and the binding is kept in its record.
    pub fn choose_next_state(
        &mut self,
        agent: &AgentView,
        room: &RoomView,
        c: &HookCounters,
        mems: &Vec<CreepMemory>,
    ) -> (r: ScreepState)
        ensures
            r == choice_spec(old(self).memory, *agent, *room, *c, mems@),
            final(self).memory == memory_after_choice(old(self).memory, *room, mems@),
            final(self).current_state == old(self).current_state,
    {
        match self.memory.specialisation {
            Specialisation::Miner => {
                let binding = match self.memory.additional_data {
                    Some(i) => Some(i),
                    None => {
                        let found = find_source_index(room.sources.len(), mems);
                        if let Some(i) = found {
                            self.memory.set_additional_data(i);
                        }
                        found
                    },
                };
                miner_next_state(agent, room, binding)
            },
            Specialisation::Hauler => hauler_next_state(agent, room),
            Specialisation::Builder => builder_next_state(agent, room),
            Specialisation::Upgrader => upgrader_next_state(agent, room),
            _ => generalist_next_state(agent, room, c),
        }
    }

    fn enter(&mut self, s: ScreepState, c: &mut HookCounters)
        ensures
            *final(self) == entered(*old(self), s, old(self).memory),
            *final(c) == s.enter_spec(*old(c)),
    {
        s.on_start(c);
        self.memory.set_current_state(s.get_state_name());
        self.current_state = s;
    }

    /// Acts on the result of a tick: on `Continue` nothing changes; otherwise
    /// the exit hook of the current state runs, the next state is the one given
    /// or the one the role's ladder picks, its entry hook runs, and it becomes
    /// current.
    pub fn run_tick(
        &mut self,
        c: &mut HookCounters,
        result: TickResult,
        agent: &AgentView,
        room: &RoomView,
        mems: &Vec<CreepMemory>,
    )
        ensures
            (*final(self), *final(c)) == advance_spec(
                *old(self),
                *old(c),
                result,
                *agent,
                *room,
                mems@,
            ),
    {
        match result {
            TickResult::Continue => {},
            TickResult::ChangeState(s) => {
                self.current_state.on_exit(c);
                self.enter(s, c);
            },
            TickResult::Exit => {
                self.current_state.on_exit(c);
                let s = self.choose_next_state(agent, room, c, mems);
                self.enter(s, c);
            },
        }
    }

    /// A creep seen for the first time leaves an implicit idle state: the
    /// ladder picks its first state and only the entry hook runs.
    pub fn start(
        &mut self,
        c: &mut HookCounters,
        agent: &AgentView,
        room: &RoomView,
        mems: &Vec<CreepMemory>,
    )
        requires
            old(self).current_state is Idle,
        ensures
            (*final(self), *final(c)) == advance_spec(
                *old(self),
                *old(c),
                TickResult::Exit,
                *agent,
                *room,
                mems@,
            ),
    {
        self.run_tick(c, TickResult::Exit, agent, room, mems);
    }
}

/// What one call of [`StateController::run_tick`] is given: the tick's result,
/// the creep's energy, the room, and the records of the room's creeps.
pub struct TickInput {
    pub result: TickResult,
    pub agent: AgentView,
    pub room: RoomView,
    pub mems: Seq<CreepMemory>,
}

/// The machine and counters after calling `run_tick` once for each input of
/// `ticks`, in order.
pub open spec fn run_ticks_spec(sc: StateController, c: HookCounters, ticks: Seq<TickInput>) -> (
    StateController,
    HookCounters,
)
    decreases ticks.len(),
{
    if ticks.len() == 0 {
        (sc, c)
    } else {
        let (sc1, c1) = run_ticks_spec(sc, c, ticks.drop_last());
        let t = ticks.last();
        advance_spec(sc1, c1, t.result, t.agent, t.room, t.mems)
    }
}

proof fn lemma_run_ticks_count_current(sc: StateController, c: HookCounters, ticks: Seq<TickInput>)
    requires
        !sc.current_state.counted(),
        c.building < u32::MAX,
        c.upgrading < u32::MAX,
    ensures
        run_ticks_spec(sc, c, ticks).1 == run_ticks_spec(sc, c, ticks).0.current_state.enter_spec(
            c,
        ),
    decreases ticks.len(),
{
    if ticks.len() > 0 {
        lemma_run_ticks_count_current(sc, c, ticks.drop_last());
    }
}

/// Entry and exit hooks balance: however many ticks a creep's machine runs,
/// and whatever each tick's result, once the creep is back in a state that is
/// not counted the counters are what they were before.
pub proof fn lemma_hooks_balance(sc: StateController, c: HookCounters, ticks: Seq<TickInput>)
    requires
        !sc.current_state.counted(),
        !run_ticks_spec(sc, c, ticks).0.current_state.counted(),
        c.building < u32::MAX,
        c.upgrading < u32::MAX,
    ensures
        run_ticks_spec(sc, c, ticks).1 == c,
{
    lemma_run_ticks_count_current(sc, c, ticks);
}

/// A creep whose target is gone leaves its state on the next tick, and the
/// machine then holds the state its role's ladder picks afresh.
pub proof fn lemma_lost_target_reselects(
    sc: StateController,
    c: HookCounters,
    v: crate::states::TickView,
    agent: AgentView,
    room: RoomView,
    mems: Seq<CreepMemory>,
)
    requires
        !v.target_found,
    ensures
        sc.current_state.plan_spec(v).result_spec() == TickResult::Exit,
        advance_spec(sc, c, TickResult::Exit, agent, room, mems).0.current_state == choice_spec(
            sc.memory,
            agent,
            room,
            sc.current_state.exit_spec(c),
            mems,
        ),
{
}

/// The choice depends on the creep's record, what it carries, the room and the
/// counters alone: two machines with the same record choose alike, whatever
/// state each is in, and leave the same record behind.
pub proof fn lemma_choice_is_determined(
    a: StateController,
    b: StateController,
    agent: AgentView,
    room: RoomView,
    c: HookCounters,
    mems: Seq<CreepMemory>,
)
    requires
        a.memory == b.memory,
    ensures
        choice_spec(a.memory, agent, room, c, mems) == choice_spec(b.memory, agent, room, c, mems),
        memory_after_choice(a.memory, room, mems) == memory_after_choice(b.memory, room, mems),
{
}

} // verus!
