use creep_brain::body::{get_best_worker_body, loadout_cost, BodyPart};
use creep_brain::machine::StateController;
use creep_brain::manager::{
    count_containers, count_specialties, get_next_specialty, plan_spawn, PopulationCounts,
    SCManager,
};
use creep_brain::memory::CreepMemory;
use creep_brain::roles::Specialisation;
use creep_brain::room::{AgentView, ObjectKind, RoomObject, RoomView};
use creep_brain::states::{
    ActionOutcome, BuildState, FeedStructureState, HarvestState, HookCounters, IdleState,
    ScreepState, StateName, Step, TickResult, TickView, UpgradeState, WithdrawState,
};
use creep_brain::tower::TowerManager;

use BodyPart::{Carry as C, Move as M, Work as W};

fn cost(body: &Vec<BodyPart>) -> u128 {
    loadout_cost(body)
}

fn obj(id: u128, kind: ObjectKind, energy: u32, free: u32, range: u32) -> RoomObject {
    RoomObject { id, kind, energy, free, capacity: energy + free, range, damaged: false }
}

fn view(used: u32, free: u32, found: bool, adjacent: bool) -> TickView {
    TickView { used, free, target_found: found, adjacent }
}

#[test]
fn part_costs_follow_the_game() {
    assert_eq!(cost(&vec![M, W, C]), 200);
    assert_eq!(cost(&vec![W, W]), 200);
    assert_eq!(cost(&vec![]), 0);
}

#[test]
fn one_block_budget_gives_exactly_one_block() {
    assert_eq!(get_best_worker_body(Specialisation::Generalist, 250), vec![M, C, W, M]);
    assert_eq!(get_best_worker_body(Specialisation::Hauler, 100), vec![M, C]);
    assert_eq!(get_best_worker_body(Specialisation::Builder, 400), vec![M, C, W, W, M, M]);
    assert_eq!(get_best_worker_body(Specialisation::Upgrader, 400), vec![M, C, W, W, M, M]);
}

#[test]
fn block_bodies_repeat_whole_blocks() {
    assert_eq!(get_best_worker_body(Specialisation::Generalist, 600), vec![M, C, W, M, M, C, W, M]);
    assert_eq!(get_best_worker_body(Specialisation::Hauler, 350), vec![M, C, M, C, M, C]);
    assert_eq!(get_best_worker_body(Specialisation::Builder, 799).len(), 6);
}

#[test]
fn small_budgets_get_the_minimum_body() {
    assert_eq!(get_best_worker_body(Specialisation::Generalist, 0), vec![M, C, W, M]);
    assert_eq!(get_best_worker_body(Specialisation::Hauler, 99), vec![M, C]);
    assert_eq!(get_best_worker_body(Specialisation::Miner, 0), vec![M, C, W]);
}

#[test]
fn miner_body_takes_wish_list_in_order_then_moves() {
    assert_eq!(get_best_worker_body(Specialisation::Miner, 550), vec![M, C, W, M, C, W, W, M]);
    assert_eq!(get_best_worker_body(Specialisation::Miner, 620), vec![M, C, W, M, C, W, W, M, M]);
    assert_eq!(
        get_best_worker_body(Specialisation::Miner, 1000),
        vec![M, C, W, M, C, W, W, M, W, W, M, W, W]
    );
    let big = get_best_worker_body(Specialisation::Miner, 1400);
    assert_eq!(big.len(), 3 + 11 + 7);
    assert_eq!(cost(&big), 1400);
}

#[test]
fn loadouts_stay_within_budget() {
    for role in [
        Specialisation::Generalist,
        Specialisation::Miner,
        Specialisation::Hauler,
        Specialisation::Builder,
        Specialisation::Upgrader,
    ] {
        let minimum = cost(&get_best_worker_body(role, 0));
        for budget in 0u128..3000 {
            let body = get_best_worker_body(role, budget);
            assert!(!body.is_empty());
            if budget >= minimum {
                assert!(cost(&body) <= budget);
            }
        }
    }
}

#[test]
fn idle_always_exits() {
    let idle = ScreepState::Idle(IdleState);
    for v in [view(0, 0, false, false), view(50, 0, true, true), view(0, 50, true, false)] {
        let step = idle.plan(&v);
        assert_eq!(step, Step::Finish);
        assert_eq!(step.result(), TickResult::Exit);
    }
}

#[test]
fn lost_target_always_exits() {
    let states = [
        ScreepState::Harvest(HarvestState::new(1)),
        ScreepState::FeedStructure(FeedStructureState::new(1)),
        ScreepState::Build(BuildState::new(1)),
        ScreepState::Upgrade(UpgradeState::new(1)),
        ScreepState::Withdraw(WithdrawState::new(1)),
    ];
    for s in states {
        for v in [view(25, 25, false, true), view(25, 25, false, false)] {
            assert_eq!(s.plan(&v).result(), TickResult::Exit);
        }
    }
}

#[test]
fn gathering_and_spending_ticks() {
    let h = ScreepState::Harvest(HarvestState::new(7));
    assert_eq!(h.plan(&view(50, 0, true, true)), Step::Finish);
    assert_eq!(h.plan(&view(0, 50, true, false)), Step::Approach(7));
    assert_eq!(h.plan(&view(0, 50, true, true)), Step::Act(7));
    let f = ScreepState::FeedStructure(FeedStructureState::new(8));
    assert_eq!(f.plan(&view(0, 50, true, true)), Step::Finish);
    assert_eq!(f.plan(&view(50, 0, true, false)), Step::Act(8));
    assert_eq!(f.settle(ActionOutcome::Done), Step::Stay);
    assert_eq!(f.settle(ActionOutcome::NotInRange), Step::Approach(8));
    assert_eq!(f.settle(ActionOutcome::Failed), Step::Finish);
    assert_eq!(f.settle(ActionOutcome::NotInRange).result(), TickResult::Continue);
    let b = ScreepState::Build(BuildState::new(9));
    assert_eq!(b.plan(&view(50, 0, true, false)), Step::Approach(9));
    assert_eq!(b.plan(&view(50, 0, true, true)), Step::Act(9));
    assert_eq!(ScreepState::Idle(IdleState).settle(ActionOutcome::Done), Step::Finish);
}

#[test]
fn hooks_count_building_and_upgrading() {
    let mut c = HookCounters::new();
    let b = ScreepState::Build(BuildState::new(1));
    let u = ScreepState::Upgrade(UpgradeState::new(2));
    b.on_start(&mut c);
    u.on_start(&mut c);
    assert_eq!(c, HookCounters { building: 1, upgrading: 1 });
    b.on_exit(&mut c);
    b.on_exit(&mut c);
    assert_eq!(c, HookCounters { building: 0, upgrading: 1 });
}

fn empty_room() -> RoomView {
    RoomView { structures: vec![], sources: vec![], sites: vec![], around_sources: vec![], energy_available: 0 }
}

#[test]
fn hook_counters_balance_over_transitions() {
    let mut sc = StateController::new(CreepMemory::new(Specialisation::Generalist));
    let mut c = HookCounters { building: 3, upgrading: 4 };
    let agent = AgentView { used: 10, free: 10 };
    let room = empty_room();
    let path = [
        ScreepState::Build(BuildState::new(1)),
        ScreepState::Upgrade(UpgradeState::new(2)),
        ScreepState::Build(BuildState::new(3)),
        ScreepState::Build(BuildState::new(4)),
        ScreepState::Harvest(HarvestState::new(5)),
    ];
    for s in path {
        sc.run_tick(&mut c, TickResult::ChangeState(s), &agent, &room, &vec![]);
        assert_eq!(sc.memory.current_state(), s.get_state_name());
    }
    assert_eq!(c, HookCounters { building: 3, upgrading: 4 });
}

#[test]
fn lost_target_leads_to_a_fresh_state() {
    let mut sc = StateController::new(CreepMemory::new(Specialisation::Generalist));
    sc.current_state = ScreepState::Harvest(HarvestState::new(5));
    let mut c = HookCounters::new();
    let room = RoomView {
        structures: vec![],
        sources: vec![obj(6, ObjectKind::Source, 3000, 0, 2)],
        sites: vec![],
        around_sources: vec![],
        energy_available: 0,
    };
    let result = sc.current_state.plan(&view(0, 50, false, false)).result();
    assert_eq!(result, TickResult::Exit);
    sc.run_tick(&mut c, result, &AgentView { used: 0, free: 50 }, &room, &vec![]);
    assert_eq!(sc.current_state, ScreepState::Harvest(HarvestState::new(6)));
    assert_eq!(sc.memory.current_state(), StateName::Harvest);
}

#[test]
fn continue_keeps_everything() {
    let mut sc = StateController::new(CreepMemory::new(Specialisation::Hauler));
    sc.current_state = ScreepState::Build(BuildState::new(5));
    let before = sc;
    let mut c = HookCounters { building: 1, upgrading: 0 };
    sc.run_tick(&mut c, TickResult::Continue, &AgentView { used: 0, free: 50 }, &empty_room(), &vec![]);
    assert_eq!(sc, before);
    assert_eq!(c, HookCounters { building: 1, upgrading: 0 });
}

#[test]
fn manager_creates_runs_and_forgets_machines() {
    let mut m = SCManager::new();
    let name = String::from("Upgrader-1-0");
    let room = RoomView {
        structures: vec![obj(9, ObjectKind::Controller, 0, 0, 3)],
        sources: vec![],
        sites: vec![],
        around_sources: vec![],
        energy_available: 0,
    };
    let full = AgentView { used: 50, free: 0 };
    let stored = CreepMemory::new(Specialisation::Upgrader);
    m.run_tick_for(&name, stored, TickResult::Continue, &full, &room, &vec![]);
    assert_eq!(m.current_state_of(&name), Some(ScreepState::Upgrade(UpgradeState::new(9))));
    assert_eq!(m.counters, HookCounters { building: 0, upgrading: 1 });
    assert_eq!(m.memory_of(&name).unwrap().current_state(), StateName::Upgrade);
    m.run_tick_for(&name, stored, TickResult::Continue, &full, &room, &vec![]);
    assert_eq!(m.state_controllers.len(), 1);
    assert_eq!(m.counters, HookCounters { building: 0, upgrading: 1 });
    let other = String::from("Generalist-1-1");
    m.run_tick_for(&other, CreepMemory::new(Specialisation::Generalist), TickResult::Exit, &full, &room, &vec![]);
    assert_eq!(m.state_controllers.len(), 2);
    assert_eq!(m.counters, HookCounters { building: 0, upgrading: 2 });
    m.forget_missing(&vec![other.clone()]);
    assert_eq!(m.state_controllers.len(), 1);
    assert_eq!(m.current_state_of(&name), None);
    assert_eq!(m.counters, HookCounters { building: 0, upgrading: 1 });
    m.forget_missing(&vec![]);
    assert_eq!(m.counters, HookCounters { building: 0, upgrading: 0 });
    assert!(m.state_controllers.is_empty());
}

fn counts(total: usize, g: usize, mi: usize, h: usize, b: usize, u: usize) -> PopulationCounts {
    PopulationCounts { total, generalists: g, miners: mi, haulers: h, builders: b, upgraders: u }
}

#[test]
fn role_balancing_ladder() {
    assert_eq!(get_next_specialty(&counts(0, 0, 0, 0, 0, 0), 1, 0), Specialisation::Generalist);
    assert_eq!(get_next_specialty(&counts(2, 2, 0, 0, 0, 0), 1, 1), Specialisation::Miner);
    assert_eq!(get_next_specialty(&counts(2, 2, 0, 0, 0, 0), 2, 0), Specialisation::Generalist);
    assert_eq!(get_next_specialty(&counts(3, 2, 1, 0, 0, 0), 2, 2), Specialisation::Hauler);
    assert_eq!(get_next_specialty(&counts(4, 2, 1, 1, 0, 0), 2, 2), Specialisation::Miner);
    assert_eq!(get_next_specialty(&counts(4, 2, 1, 1, 0, 0), 2, 1), Specialisation::Builder);
    assert_eq!(get_next_specialty(&counts(5, 2, 1, 1, 1, 0), 2, 1), Specialisation::Upgrader);
    assert_eq!(get_next_specialty(&counts(6, 2, 1, 1, 1, 1), 2, 1), Specialisation::Builder);
    assert_eq!(get_next_specialty(&counts(3, 0, 0, 0, 3, 0), 2, 2), Specialisation::Generalist);
    assert_eq!(get_next_specialty(&counts(2, 0, 1, 1, 0, 0), 1, 1), Specialisation::Builder);
}

#[test]
fn census_counts_roles() {
    let mems = vec![
        CreepMemory::new(Specialisation::Generalist),
        CreepMemory::new(Specialisation::Generalist),
        CreepMemory::new(Specialisation::Miner),
        CreepMemory::new(Specialisation::Unknown),
    ];
    assert_eq!(count_specialties(&mems), counts(4, 2, 1, 0, 0, 0));
    let structures = vec![
        obj(1, ObjectKind::Container, 0, 0, 1),
        obj(2, ObjectKind::Storage, 0, 0, 1),
        obj(3, ObjectKind::Container, 0, 0, 1),
    ];
    assert_eq!(count_containers(&structures), 2);
}

#[test]
fn spawn_plan_respects_floor_and_energy() {
    let p = counts(0, 0, 0, 0, 0, 0);
    assert!(plan_spawn(10, 1000, &p, 1, 1, 550).is_none());
    assert!(plan_spawn(0, 400, &p, 1, 1, 550).is_none());
    let order = plan_spawn(0, 550, &p, 1, 1, 550).unwrap();
    assert_eq!(order.specialisation, Specialisation::Generalist);
    assert_eq!(order.body, vec![M, C, W, M, M, C, W, M]);
}

#[test]
fn towers_repair_nearest_damaged_structure() {
    let t = TowerManager::new();
    let mut wall = obj(1, ObjectKind::Wall, 0, 0, 9);
    wall.damaged = true;
    let mut road = obj(2, ObjectKind::Road, 0, 0, 4);
    road.damaged = true;
    let mut spawn = obj(3, ObjectKind::Spawn, 0, 0, 1);
    spawn.damaged = true;
    let intact = obj(4, ObjectKind::Container, 0, 0, 1);
    let s = vec![wall, road, spawn, intact];
    assert_eq!(t.run(0, &s), None);
    assert_eq!(t.run(10, &s), Some(2));
    assert_eq!(t.find_repair_target(&vec![intact]), None);
}
