//! Task states: what a creep is doing, and how one tick of it goes.
//!
//! A tick runs in two halves around the game action. [`ScreepState::plan`] reads
//! the creep and its target and says whether to leave the state, walk toward
//! the target, or act on it; after an action, [`ScreepState::settle`] turns the
//! action's outcome into the next step.

use vstd::prelude::*;

verus! {

/// Harvest energy from a source.
#[derive(Clone, Copy, Debug, PartialEq, Eq, Structural)]
pub struct HarvestState {
    pub source: u128,
}

/// Carry energy into a structure (spawn, extension, container, storage, tower).
#[derive(Clone, Copy, Debug, PartialEq, Eq, Structural)]
pub struct FeedStructureState {
    pub structure: u128,
}

/// Build a construction site.
#[derive(Clone, Copy, Debug, PartialEq, Eq, Structural)]
pub struct BuildState {
    pub site: u128,
}

/// Upgrade the room controller.
#[derive(Clone, Copy, Debug, PartialEq, Eq, Structural)]
pub struct UpgradeState {
    pub controller: u128,
}

/// Withdraw energy from a structure that stores it.
#[derive(Clone, Copy, Debug, PartialEq, Eq, Structural)]
pub struct WithdrawState {
    pub structure: u128,
}

/// Nothing to do: leaves at once so that a new state is chosen every tick.
#[derive(Clone, Copy, Debug, PartialEq, Eq, Structural)]
pub struct IdleState;

impl HarvestState {
    pub fn new(source: u128) -> (r: Self)
        ensures
            r.source == source,
    {
        HarvestState { source }
    }
}

impl FeedStructureState {
    pub fn new(structure: u128) -> (r: Self)
        ensures
            r.structure == structure,
    {
        FeedStructureState { structure }
    }
}

impl BuildState {
    pub fn new(site: u128) -> (r: Self)
        ensures
            r.site == site,
    {
        BuildState { site }
    }
}

impl UpgradeState {
    pub fn new(controller: u128) -> (r: Self)
        ensures
            r.controller == controller,
    {
        UpgradeState { controller }
    }
}

impl WithdrawState {
    pub fn new(structure: u128) -> (r: Self)
        ensures
            r.structure == structure,
    {
        WithdrawState { structure }
    }
}

/// The label of a task state, as kept in a creep's memory.
#[derive(Clone, Copy, Debug, PartialEq, Eq, Structural)]
pub enum StateName {
    Harvest,
    Upgrade,
    Build,
    FeedStructure,
    Withdraw,
    Idle,
}

/// The task a creep is running, with the id of its target.
#[derive(Clone, Copy, Debug, PartialEq, Eq, Structural)]
pub enum ScreepState {
    Harvest(HarvestState),
    FeedStructure(FeedStructureState),
    Build(BuildState),
    Upgrade(UpgradeState),
    Withdraw(WithdrawState),
    Idle(IdleState),
}

/// What a tick of a state asks of the state machine.
#[derive(Clone, Copy, Debug, PartialEq, Eq, Structural)]
pub enum TickResult {
    /// Stay in the current state.
    Continue,
    /// Leave the current state for the given one.
    ChangeState(ScreepState),
    /// Leave the current state and let the role choose the next.
    Exit,
}

/// What the creep and its target look like at the start of a tick.
#[derive(Clone, Copy, Debug, PartialEq, Eq, Structural)]
pub struct TickView {
    /// Energy the creep carries.
    pub used: u32,
    /// Energy the creep can still take.
    pub free: u32,
    /// Whether the state's target id still resolves to a live object.
    pub target_found: bool,
    /// Whether the creep stands next to the target.
    pub adjacent: bool,
}

/// How a game action on the target went.
#[derive(Clone, Copy, Debug, PartialEq, Eq, Structural)]
pub enum ActionOutcome {
    Done,
    NotInRange,
    Failed,
}

/// One step of a tick.
#[derive(Clone, Copy, Debug, PartialEq, Eq, Structural)]
pub enum Step {
    /// Run the state's action on the target, then settle its outcome.
    Act(u128),
    /// Move toward the target and stay in the state.
    Approach(u128),
    /// Stay in the state.
    Stay,
    /// Leave the state.
    Finish,
}

impl Step {
    pub open spec fn result_spec(self) -> TickResult {
        match self {
            Step::Finish => TickResult::Exit,
            _ => TickResult::Continue,
        }
    }

    /// What the state machine is told once the step has been carried out.
    pub fn result(&self) -> (r: TickResult)
        requires
            !(self is Act),
        ensures
            r == self.result_spec(),
    {
        match self {
            Step::Finish => TickResult::Exit,
            _ => TickResult::Continue,
        }
    }
}

impl ScreepState {
    pub open spec fn name_spec(self) -> StateName {
        match self {
            ScreepState::Harvest(_) => StateName::Harvest,
            ScreepState::FeedStructure(_) => StateName::FeedStructure,
            ScreepState::Build(_) => StateName::Build,
            ScreepState::Upgrade(_) => StateName::Upgrade,
            ScreepState::Withdraw(_) => StateName::Withdraw,
            ScreepState::Idle(_) => StateName::Idle,
        }
    }

    pub fn get_state_name(&self) -> (r: StateName)
        ensures
            r == self.name_spec(),
    {
        match self {
            ScreepState::Harvest(_) => StateName::Harvest,
            ScreepState::FeedStructure(_) => StateName::FeedStructure,
            ScreepState::Build(_) => StateName::Build,
            ScreepState::Upgrade(_) => StateName::Upgrade,
            ScreepState::Withdraw(_) => StateName::Withdraw,
            ScreepState::Idle(_) => StateName::Idle,
        }
    }

    /// The id the state works on; the idle state has none.
    pub open spec fn target_spec(self) -> Option<u128> {
        match self {
            ScreepState::Harvest(s) => Some(s.source),
            ScreepState::FeedStructure(s) => Some(s.structure),
            ScreepState::Build(s) => Some(s.site),
            ScreepState::Upgrade(s) => Some(s.controller),
            ScreepState::Withdraw(s) => Some(s.structure),
            ScreepState::Idle(_) => None,
        }
    }

    pub fn target(&self) -> (r: Option<u128>)
        ensures
            r == self.target_spec(),
    {
        match self {
            ScreepState::Harvest(s) => Some(s.source),
            ScreepState::FeedStructure(s) => Some(s.structure),
            ScreepState::Build(s) => Some(s.site),
            ScreepState::Upgrade(s) => Some(s.controller),
            ScreepState::Withdraw(s) => Some(s.structure),
            ScreepState::Idle(_) => None,
        }
    }

    /// Gathering states end when the creep is full; spending states end when it
    /// is empty.
    pub open spec fn gathers(self) -> bool {
        self is Harvest || self is Withdraw
    }

    /// Gathering states and building act only from next to the target; the
    /// others try the action and walk if it was out of range.
    pub open spec fn acts_when_adjacent_only(self) -> bool {
        self is Harvest || self is Withdraw || self is Build
    }

    /// The first half of a tick.
    pub open spec fn plan_spec(self, v: TickView) -> Step {
        match self.target_spec() {
            None => Step::Finish,
            Some(t) => if (self.gathers() && v.free == 0) || (!self.gathers() && v.used == 0)
                || !v.target_found {
                Step::Finish
            } else if self.acts_when_adjacent_only() && !v.adjacent {
                Step::Approach(t)
            } else {
                Step::Act(t)
            },
        }
    }

    pub fn plan(&self, v: &TickView) -> (r: Step)
        ensures
            r == self.plan_spec(*v),
            self is Idle ==> r == Step::Finish,
            self.target_spec() is Some && !v.target_found ==> r == Step::Finish,
    {
        let gathers = matches!(self, ScreepState::Harvest(_) | ScreepState::Withdraw(_));
        let adjacent_only = matches!(
            self,
            ScreepState::Harvest(_) | ScreepState::Withdraw(_) | ScreepState::Build(_)
        );
        match self.target() {
            None => Step::Finish,
            Some(t) => {
                if (gathers && v.free == 0) || (!gathers && v.used == 0) || !v.target_found {
                    Step::Finish
                } else if adjacent_only && !v.adjacent {
                    Step::Approach(t)
                } else {
                    Step::Act(t)
                }
            },
        }
    }

    /// The second half of a tick, after the action of `Step::Act`.
    pub open spec fn settle_spec(self, outcome: ActionOutcome) -> Step {
        match (outcome, self.target_spec()) {
            (ActionOutcome::Done, Some(_)) => Step::Stay,
            (ActionOutcome::NotInRange, Some(t)) => Step::Approach(t),
            _ => Step::Finish,
        }
    }

    pub fn settle(&self, outcome: ActionOutcome) -> (r: Step)
        ensures
            r == self.settle_spec(outcome),
            r != Step::Finish <==> (outcome != ActionOutcome::Failed && !(self is Idle)),
    {
        match (outcome, self.target()) {
            (ActionOutcome::Done, Some(_)) => Step::Stay,
            (ActionOutcome::NotInRange, Some(t)) => Step::Approach(t),
            _ => Step::Finish,
        }
    }
}

/// How many creeps are in the states that are counted on entry: building and
/// upgrading. Each entry hook adds one and the matching exit hook takes it back.
#[derive(Clone, Copy, Debug, PartialEq, Eq, Structural)]
pub struct HookCounters {
    pub building: u32,
    pub upgrading: u32,
}

impl HookCounters {
    pub fn new() -> (r: Self)
        ensures
            r.building == 0 && r.upgrading == 0,
    {
        HookCounters { building: 0, upgrading: 0 }
    }
}

impl ScreepState {
    /// Whether entering the state is counted.
    pub open spec fn counted(self) -> bool {
        self is Build || self is Upgrade
    }

    pub open spec fn enter_spec(self, c: HookCounters) -> HookCounters {
        match self {
            ScreepState::Build(_) => HookCounters {
                building: if c.building < u32::MAX {
                    (c.building + 1) as u32
                } else {
                    c.building
                },
                ..c
            },
            ScreepState::Upgrade(_) => HookCounters {
                upgrading: if c.upgrading < u32::MAX {
                    (c.upgrading + 1) as u32
                } else {
                    c.upgrading
                },
                ..c
            },
            _ => c,
        }
    }

    pub open spec fn exit_spec(self, c: HookCounters) -> HookCounters {
        match self {
            ScreepState::Build(_) => HookCounters {
                building: if c.building > 0 {
                    (c.building - 1) as u32
                } else {
                    0
                },
                ..c
            },
            ScreepState::Upgrade(_) => HookCounters {
                upgrading: if c.upgrading > 0 {
                    (c.upgrading - 1) as u32
                } else {
                    0
                },
                ..c
            },
            _ => c,
        }
    }

    /// The entry hook: counts a creep that starts building or upgrading.
    pub fn on_start(&self, c: &mut HookCounters)
        ensures
            *final(c) == self.enter_spec(*old(c)),
    {
        match self {
            ScreepState::Build(_) => {
                if c.building < u32::MAX {
                    c.building = c.building + 1;
                }
            },
            ScreepState::Upgrade(_) => {
                if c.upgrading < u32::MAX {
                    c.upgrading = c.upgrading + 1;
                }
            },
            _ => {},
        }
    }

    /// The exit hook: takes back what the entry hook counted.
    pub fn on_exit(&self, c: &mut HookCounters)
        ensures
            *final(c) == self.exit_spec(*old(c)),
    {
        match self {
            ScreepState::Build(_) => {
                if c.building > 0 {
                    c.building = c.building - 1;
                }
            },
            ScreepState::Upgrade(_) => {
                if c.upgrading > 0 {
                    c.upgrading = c.upgrading - 1;
                }
            },
            _ => {},
        }
    }
}

/// The idle state leaves on every tick, whatever the creep looks like.
pub proof fn lemma_idle_always_exits(v: TickView)
    ensures
        ScreepState::Idle(IdleState).plan_spec(v).result_spec() == TickResult::Exit,
{
}

/// A state whose target no longer resolves never stays: its tick ends in Exit.
pub proof fn lemma_lost_target_exits(s: ScreepState, v: TickView)
    requires
        !v.target_found,
    ensures
        s.plan_spec(v) == Step::Finish,
        s.plan_spec(v).result_spec() == TickResult::Exit,
{
}

} // verus!
