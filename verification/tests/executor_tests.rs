use creep_tasks::geom::Pos;
use creep_tasks::model::{ActionResult, Agent, Command, Dropped, Site, Source, Structure, StructureKind, World};
use creep_tasks::executor::{executor_step, report_result};
use creep_tasks::store::{Assignment, AssignmentStore};

fn pos(x: u8, y: u8) -> Pos {
    Pos { x, y }
}

fn agent(id: u64, p: Pos, carried: u32, capacity: u32) -> Agent {
    Agent { id, pos: p, carried, capacity, has_carry: true, spawning: false }
}

fn structure(id: u64, kind: StructureKind, p: Pos) -> Structure {
    Structure {
        id,
        kind,
        pos: p,
        hits: 100,
        hits_max: 100,
        free_capacity: 0,
        stored: 0,
        repairable: false,
        mine: true,
    }
}

fn empty_world() -> World {
    World { structures: Vec::new(), sites: Vec::new(), sources: Vec::new(), dropped: Vec::new() }
}

fn store_with(id: u64, t: Assignment) -> AssignmentStore {
    let mut s = AssignmentStore::new();
    s.insert(id, t);
    s
}

#[test]
fn harvest_not_adjacent_moves_and_keeps() {
    let mut w = empty_world();
    w.sources.push(Source { id: 100, pos: pos(10, 10) });
    let a = agent(1, pos(1, 1), 0, 0);
    let mut store = store_with(1, Assignment::Harvest(100));
    let cmd = executor_step(&mut store, &a, &w);
    assert_eq!(cmd, Some(Command::MoveToObj(100)));
    assert_eq!(store.get(1), Some(Assignment::Harvest(100)));
}

#[test]
fn harvest_unresolvable_drops() {
    let w = empty_world();
    let a = agent(1, pos(1, 1), 0, 0);
    let mut store = store_with(1, Assignment::Harvest(100));
    let cmd = executor_step(&mut store, &a, &w);
    assert_eq!(cmd, None);
    assert_eq!(store.get(1), None);
}

#[test]
fn harvest_adjacent_steps_onto_container_first() {
    let mut w = empty_world();
    w.sources.push(Source { id: 100, pos: pos(10, 10) });
    w.structures.push(structure(5, StructureKind::Container, pos(10, 11)));
    let a = agent(1, pos(9, 10), 0, 0);
    let mut store = store_with(1, Assignment::Harvest(100));
    let cmd = executor_step(&mut store, &a, &w);
    assert_eq!(cmd, Some(Command::MoveToPos(pos(10, 11))));
    assert_eq!(store.get(1), Some(Assignment::Harvest(100)));
}

#[test]
fn harvest_on_container_harvests() {
    let mut w = empty_world();
    w.sources.push(Source { id: 100, pos: pos(10, 10) });
    w.structures.push(structure(5, StructureKind::Container, pos(10, 11)));
    let a = agent(1, pos(10, 11), 0, 0);
    let mut store = store_with(1, Assignment::Harvest(100));
    let cmd = executor_step(&mut store, &a, &w);
    assert_eq!(cmd, Some(Command::Harvest(100)));
}

#[test]
fn withdraw_with_no_free_capacity_drops() {
    let mut w = empty_world();
    let mut c = structure(5, StructureKind::Container, pos(2, 2));
    c.stored = 1000;
    w.structures.push(c);
    let a = agent(1, pos(1, 1), 50, 50);
    let mut store = store_with(1, Assignment::Withdraw(5));
    let cmd = executor_step(&mut store, &a, &w);
    assert_eq!(cmd, None);
    assert_eq!(store.get(1), None);
}

#[test]
fn withdraw_adjacent_withdraws() {
    let mut w = empty_world();
    w.structures.push(structure(5, StructureKind::Container, pos(2, 2)));
    let a = agent(1, pos(1, 1), 0, 50);
    let mut store = store_with(1, Assignment::Withdraw(5));
    let cmd = executor_step(&mut store, &a, &w);
    assert_eq!(cmd, Some(Command::Withdraw(5)));
    assert_eq!(store.get(1), Some(Assignment::Withdraw(5)));
}

#[test]
fn construct_adjacent_builds_site() {
    let mut w = empty_world();
    w.sites.push(Site {
        id: 3,
        kind: StructureKind::Extension,
        pos: pos(2, 2),
        progress: 0,
        progress_total: 100,
    });
    let a = agent(1, pos(1, 1), 10, 50);
    let mut store = store_with(1, Assignment::Construct(pos(2, 2)));
    let cmd = executor_step(&mut store, &a, &w);
    assert_eq!(cmd, Some(Command::Build(3)));
}

#[test]
fn construct_without_site_repairs_rampart() {
    let mut w = empty_world();
    let mut r = structure(4, StructureKind::Rampart, pos(2, 2));
    r.hits = 50;
    w.structures.push(r);
    let a = agent(1, pos(1, 1), 10, 50);
    let mut store = store_with(1, Assignment::Construct(pos(2, 2)));
    let cmd = executor_step(&mut store, &a, &w);
    assert_eq!(cmd, Some(Command::Repair(4)));
}

#[test]
fn construct_with_healthy_rampart_drops() {
    let mut w = empty_world();
    w.structures.push(structure(4, StructureKind::Rampart, pos(2, 2)));
    let a = agent(1, pos(1, 1), 10, 50);
    let mut store = store_with(1, Assignment::Construct(pos(2, 2)));
    let cmd = executor_step(&mut store, &a, &w);
    assert_eq!(cmd, None);
    assert_eq!(store.get(1), None);
}

#[test]
fn construct_with_nothing_at_position_drops() {
    let w = empty_world();
    let a = agent(1, pos(1, 1), 10, 50);
    let mut store = store_with(1, Assignment::Construct(pos(2, 2)));
    let cmd = executor_step(&mut store, &a, &w);
    assert_eq!(cmd, None);
    assert_eq!(store.get(1), None);
}

#[test]
fn construct_not_adjacent_moves() {
    let w = empty_world();
    let a = agent(1, pos(1, 1), 10, 50);
    let mut store = store_with(1, Assignment::Construct(pos(9, 9)));
    let cmd = executor_step(&mut store, &a, &w);
    assert_eq!(cmd, Some(Command::MoveToPos(pos(9, 9))));
    assert_eq!(store.get(1), Some(Assignment::Construct(pos(9, 9))));
}

#[test]
fn deposit_adjacent_transfers() {
    let mut w = empty_world();
    let mut sp = structure(6, StructureKind::Spawn, pos(2, 2));
    sp.free_capacity = 50;
    w.structures.push(sp);
    let a = agent(1, pos(1, 1), 10, 50);
    let mut store = store_with(1, Assignment::Deposit(pos(2, 2)));
    let cmd = executor_step(&mut store, &a, &w);
    assert_eq!(cmd, Some(Command::Transfer(6)));
}

#[test]
fn deposit_with_no_sink_drops() {
    let mut w = empty_world();
    w.structures.push(structure(7, StructureKind::Road, pos(2, 2)));
    let a = agent(1, pos(1, 1), 10, 50);
    let mut store = store_with(1, Assignment::Deposit(pos(2, 2)));
    let cmd = executor_step(&mut store, &a, &w);
    assert_eq!(cmd, None);
    assert_eq!(store.get(1), None);
}

#[test]
fn deposit_guard_fails_when_empty() {
    let mut w = empty_world();
    let mut sp = structure(6, StructureKind::Spawn, pos(2, 2));
    sp.free_capacity = 50;
    w.structures.push(sp);
    let a = agent(1, pos(1, 1), 0, 50);
    let mut store = store_with(1, Assignment::Deposit(pos(2, 2)));
    let cmd = executor_step(&mut store, &a, &w);
    assert_eq!(cmd, None);
    assert_eq!(store.get(1), None);
}

#[test]
fn pickup_adjacent_picks_up() {
    let mut w = empty_world();
    w.dropped.push(Dropped { id: 8, pos: pos(2, 2), amount: 40 });
    let a = agent(1, pos(1, 1), 0, 50);
    let mut store = store_with(1, Assignment::Pickup(pos(2, 2)));
    let cmd = executor_step(&mut store, &a, &w);
    assert_eq!(cmd, Some(Command::Pickup(8)));
}

#[test]
fn pickup_gone_drops() {
    let w = empty_world();
    let a = agent(1, pos(1, 1), 0, 50);
    let mut store = store_with(1, Assignment::Pickup(pos(2, 2)));
    let cmd = executor_step(&mut store, &a, &w);
    assert_eq!(cmd, None);
    assert_eq!(store.get(1), None);
}

#[test]
fn repair_adjacent_repairs_damaged() {
    let mut w = empty_world();
    let mut st = structure(9, StructureKind::Other, pos(2, 2));
    st.hits = 10;
    st.hits_max = 100;
    st.repairable = true;
    w.structures.push(st);
    let a = agent(1, pos(1, 1), 10, 50);
    let mut store = store_with(1, Assignment::Repair(pos(2, 2)));
    let cmd = executor_step(&mut store, &a, &w);
    assert_eq!(cmd, Some(Command::Repair(9)));
}

#[test]
fn repair_with_everything_healthy_drops() {
    let mut w = empty_world();
    w.structures.push(structure(9, StructureKind::Other, pos(2, 2)));
    let a = agent(1, pos(1, 1), 10, 50);
    let mut store = store_with(1, Assignment::Repair(pos(2, 2)));
    let cmd = executor_step(&mut store, &a, &w);
    assert_eq!(cmd, None);
    assert_eq!(store.get(1), None);
}

#[test]
fn upgrade_resolves_and_acts() {
    let mut w = empty_world();
    w.structures.push(structure(9, StructureKind::Controller, pos(20, 20)));
    let a = agent(1, pos(1, 1), 10, 50);
    let mut store = store_with(1, Assignment::Upgrade(9));
    let cmd = executor_step(&mut store, &a, &w);
    assert_eq!(cmd, Some(Command::Upgrade(9)));
}

#[test]
fn upgrade_out_of_range_moves_and_keeps() {
    let mut store = store_with(1, Assignment::Upgrade(9));
    let cmd = report_result(&mut store, 1, ActionResult::OutOfRange);
    assert_eq!(cmd, Some(Command::MoveToObj(9)));
    assert_eq!(store.get(1), Some(Assignment::Upgrade(9)));
}

#[test]
fn rejected_action_drops_assignment() {
    let mut store = store_with(1, Assignment::Upgrade(9));
    let cmd = report_result(&mut store, 1, ActionResult::Rejected);
    assert_eq!(cmd, None);
    assert_eq!(store.get(1), None);
}

#[test]
fn successful_action_keeps_assignment() {
    let mut store = store_with(1, Assignment::Harvest(100));
    let cmd = report_result(&mut store, 1, ActionResult::Success);
    assert_eq!(cmd, None);
    assert_eq!(store.get(1), Some(Assignment::Harvest(100)));
}

#[test]
fn out_of_range_on_non_upgrade_drops() {
    let mut store = store_with(1, Assignment::Withdraw(5));
    let cmd = report_result(&mut store, 1, ActionResult::OutOfRange);
    assert_eq!(cmd, None);
    assert_eq!(store.get(1), None);
}

#[test]
fn spawning_agent_is_skipped() {
    let mut w = empty_world();
    w.sources.push(Source { id: 100, pos: pos(10, 10) });
    let mut a = agent(1, pos(1, 1), 0, 0);
    a.spawning = true;
    let mut store = store_with(1, Assignment::Harvest(100));
    let cmd = executor_step(&mut store, &a, &w);
    assert_eq!(cmd, None);
    assert_eq!(store.get(1), Some(Assignment::Harvest(100)));
}

#[test]
fn unassigned_agent_is_untouched() {
    let w = empty_world();
    let a = agent(1, pos(1, 1), 0, 50);
    let mut store = AssignmentStore::new();
    let cmd = executor_step(&mut store, &a, &w);
    assert_eq!(cmd, None);
    assert_eq!(store.len(), 0);
}
