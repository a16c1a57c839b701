use creep_tasks::geom::Pos;
use creep_tasks::model::{Agent, Command, Dropped, Site, Source, Structure, StructureKind, World};
use creep_tasks::assigner::run_assigner;
use creep_tasks::store::{Assignment, AssignmentStore};

fn pos(x: u8, y: u8) -> Pos {
    Pos { x, y }
}

fn agent(id: u64, p: Pos, carried: u32, capacity: u32, has_carry: bool) -> Agent {
    Agent { id, pos: p, carried, capacity, has_carry, spawning: false }
}

fn structure(id: u64, kind: StructureKind, p: Pos) -> Structure {
    Structure {
        id,
        kind,
        pos: p,
        hits: 100,
        hits_max: 100,
        free_capacity: 0,
        stored: 0,
        repairable: false,
        mine: true,
    }
}

fn empty_world() -> World {
    World { structures: Vec::new(), sites: Vec::new(), sources: Vec::new(), dropped: Vec::new() }
}

#[test]
fn deposit_exclusivity_two_agents_one_target() {
    let mut w = empty_world();
    let mut ext = structure(1, StructureKind::Extension, pos(5, 5));
    ext.free_capacity = 20;
    w.structures.push(ext);
    let agents = vec![
        agent(10, pos(1, 1), 50, 50, true),
        agent(11, pos(2, 2), 50, 50, true),
    ];
    let mut store = AssignmentStore::new();
    run_assigner(&mut store, &agents, &w);
    let first = store.get(10);
    let second = store.get(11);
    assert_eq!(first, Some(Assignment::Deposit(pos(5, 5))));
    // no controller, no site, no repair target: the second agent stays idle
    assert_eq!(second, None);
    assert_eq!(store.len(), 1);
}

#[test]
fn best_fit_prefers_least_free_capacity() {
    let mut w = empty_world();
    let mut big = structure(1, StructureKind::Extension, pos(5, 5));
    big.free_capacity = 50;
    let mut small = structure(2, StructureKind::Extension, pos(7, 7));
    small.free_capacity = 10;
    w.structures.push(big);
    w.structures.push(small);
    let agents = vec![agent(10, pos(1, 1), 50, 50, true)];
    let mut store = AssignmentStore::new();
    run_assigner(&mut store, &agents, &w);
    assert_eq!(store.get(10), Some(Assignment::Deposit(pos(7, 7))));
}

#[test]
fn delivery_priority_extension_before_spawn() {
    let mut w = empty_world();
    let mut sp = structure(1, StructureKind::Spawn, pos(3, 3));
    sp.free_capacity = 5;
    let mut ext = structure(2, StructureKind::Extension, pos(5, 5));
    ext.free_capacity = 50;
    w.structures.push(sp);
    w.structures.push(ext);
    let agents = vec![agent(10, pos(1, 1), 50, 50, true)];
    let mut store = AssignmentStore::new();
    run_assigner(&mut store, &agents, &w);
    assert_eq!(store.get(10), Some(Assignment::Deposit(pos(5, 5))));
}

#[test]
fn construct_prefers_defensive_tier_then_least_remaining() {
    let mut w = empty_world();
    w.sites.push(Site {
        id: 1,
        kind: StructureKind::Container,
        pos: pos(4, 4),
        progress: 9,
        progress_total: 10,
    });
    w.sites.push(Site {
        id: 2,
        kind: StructureKind::Wall,
        pos: pos(6, 6),
        progress: 0,
        progress_total: 100,
    });
    w.sites.push(Site {
        id: 3,
        kind: StructureKind::Tower,
        pos: pos(8, 8),
        progress: 60,
        progress_total: 100,
    });
    let agents = vec![agent(10, pos(1, 1), 50, 50, true)];
    let mut store = AssignmentStore::new();
    run_assigner(&mut store, &agents, &w);
    // defensive tier wins over container; within the tier the tower has
    // less remaining work than the wall
    assert_eq!(store.get(10), Some(Assignment::Construct(pos(8, 8))));
}

#[test]
fn repair_picks_lowest_health_rampart_on_tie() {
    let mut w = empty_world();
    let mut other = structure(1, StructureKind::Other, pos(2, 2));
    other.hits = 40;
    other.hits_max = 100;
    other.repairable = true;
    let mut rampart = structure(2, StructureKind::Rampart, pos(3, 3));
    rampart.hits = 40;
    rampart.hits_max = 100;
    rampart.repairable = true;
    w.structures.push(other);
    w.structures.push(rampart);
    let agents = vec![agent(10, pos(1, 1), 50, 50, true)];
    let mut store = AssignmentStore::new();
    run_assigner(&mut store, &agents, &w);
    assert_eq!(store.get(10), Some(Assignment::Repair(pos(3, 3))));
}

#[test]
fn upgrade_fallback_when_nothing_else_eligible() {
    let mut w = empty_world();
    w.structures.push(structure(9, StructureKind::Controller, pos(20, 20)));
    let agents = vec![agent(10, pos(1, 1), 50, 50, true)];
    let mut store = AssignmentStore::new();
    run_assigner(&mut store, &agents, &w);
    assert_eq!(store.get(10), Some(Assignment::Upgrade(9)));
}

#[test]
fn withdraw_prefers_fullest_adequate_container() {
    let mut w = empty_world();
    let mut c1 = structure(1, StructureKind::Container, pos(2, 2));
    c1.stored = 100;
    let mut c2 = structure(2, StructureKind::Container, pos(3, 3));
    c2.stored = 200;
    let mut c3 = structure(3, StructureKind::Container, pos(4, 4));
    c3.stored = 30;
    w.structures.push(c1);
    w.structures.push(c2);
    w.structures.push(c3);
    let agents = vec![agent(10, pos(1, 1), 0, 50, true)];
    let mut store = AssignmentStore::new();
    run_assigner(&mut store, &agents, &w);
    assert_eq!(store.get(10), Some(Assignment::Withdraw(2)));
}

#[test]
fn pickup_when_no_container_qualifies() {
    let mut w = empty_world();
    let mut c1 = structure(1, StructureKind::Container, pos(2, 2));
    c1.stored = 30;  // below the agent's capacity
    w.structures.push(c1);
    w.dropped.push(Dropped { id: 7, pos: pos(6, 6), amount: 60 });
    w.dropped.push(Dropped { id: 8, pos: pos(7, 7), amount: 80 });
    let agents = vec![agent(10, pos(1, 1), 0, 50, true)];
    let mut store = AssignmentStore::new();
    run_assigner(&mut store, &agents, &w);
    assert_eq!(store.get(10), Some(Assignment::Pickup(pos(7, 7))));
}

#[test]
fn pure_gatherer_claims_first_unclaimed_node() {
    let mut w = empty_world();
    w.sources.push(Source { id: 100, pos: pos(10, 10) });
    w.sources.push(Source { id: 101, pos: pos(12, 12) });
    let agents = vec![
        agent(10, pos(1, 1), 0, 0, false),
        agent(11, pos(2, 2), 0, 0, false),
    ];
    let mut store = AssignmentStore::new();
    run_assigner(&mut store, &agents, &w);
    assert_eq!(store.get(10), Some(Assignment::Harvest(100)));
    assert_eq!(store.get(11), Some(Assignment::Harvest(101)));
}

#[test]
fn culling_when_no_node_left() {
    let mut w = empty_world();
    w.sources.push(Source { id: 100, pos: pos(10, 10) });
    let agents = vec![
        agent(10, pos(1, 1), 0, 0, false),
        agent(11, pos(2, 2), 0, 0, false),
    ];
    let mut store = AssignmentStore::new();
    let cmds = run_assigner(&mut store, &agents, &w);
    assert_eq!(store.get(10), Some(Assignment::Harvest(100)));
    assert_eq!(store.get(11), None);
    assert!(cmds.contains(&(11, Command::SelfTerminate)));
    // a later pass still assigns nothing: the culled agent stays out
    let cmds2 = run_assigner(&mut store, &agents, &w);
    assert_eq!(store.get(11), None);
    assert!(cmds2.contains(&(11, Command::SelfTerminate)));
}

#[test]
fn assigner_twice_keeps_single_entry_per_agent() {
    let mut w = empty_world();
    w.structures.push(structure(9, StructureKind::Controller, pos(20, 20)));
    let agents = vec![
        agent(10, pos(1, 1), 50, 50, true),
        agent(11, pos(2, 2), 50, 50, true),
    ];
    let mut store = AssignmentStore::new();
    run_assigner(&mut store, &agents, &w);
    run_assigner(&mut store, &agents, &w);
    assert_eq!(store.len(), 2);
    assert_eq!(store.get(10), Some(Assignment::Upgrade(9)));
    assert_eq!(store.get(11), Some(Assignment::Upgrade(9)));
}

#[test]
fn cold_start_covers_every_eligible_agent() {
    let mut w = empty_world();
    let mut ext = structure(1, StructureKind::Extension, pos(5, 5));
    ext.free_capacity = 10;
    w.structures.push(ext);
    w.structures.push(structure(9, StructureKind::Controller, pos(20, 20)));
    let mut c = structure(2, StructureKind::Container, pos(8, 8));
    c.stored = 500;
    w.structures.push(c);
    w.sources.push(Source { id: 100, pos: pos(10, 10) });
    let agents = vec![
        agent(10, pos(1, 1), 50, 50, true),   // delivering
        agent(11, pos(2, 2), 50, 50, true),   // delivering
        agent(12, pos(3, 3), 0, 50, true),    // carrying gatherer
        agent(13, pos(4, 4), 0, 0, false),    // pure gatherer
    ];
    let mut store = AssignmentStore::new();
    run_assigner(&mut store, &agents, &w);
    assert_eq!(store.get(10), Some(Assignment::Deposit(pos(5, 5))));
    // deposit slot taken: the second deliverer falls through to upgrade
    assert_eq!(store.get(11), Some(Assignment::Upgrade(9)));
    assert_eq!(store.get(12), Some(Assignment::Withdraw(2)));
    assert_eq!(store.get(13), Some(Assignment::Harvest(100)));
}

#[test]
fn idle_gatherer_vacates_road() {
    let mut w = empty_world();
    let mut road_here = structure(1, StructureKind::Road, pos(10, 10));
    road_here.mine = false;
    let mut road_up_left = structure(2, StructureKind::Road, pos(9, 9));
    road_up_left.mine = false;
    w.structures.push(road_here);
    w.structures.push(road_up_left);
    let agents = vec![agent(10, pos(10, 10), 0, 50, true)];
    let mut store = AssignmentStore::new();
    let cmds = run_assigner(&mut store, &agents, &w);
    assert_eq!(store.get(10), None);
    // scan order: (-1,-1) carries a road, (-1,0) is the first clear tile
    assert_eq!(cmds, vec![(10, Command::MoveToPos(pos(9, 10)))]);
}

#[test]
fn assigned_agents_are_skipped() {
    let mut w = empty_world();
    w.structures.push(structure(9, StructureKind::Controller, pos(20, 20)));
    let agents = vec![agent(10, pos(1, 1), 50, 50, true)];
    let mut store = AssignmentStore::new();
    store.insert(10, Assignment::Repair(pos(2, 2)));
    run_assigner(&mut store, &agents, &w);
    assert_eq!(store.get(10), Some(Assignment::Repair(pos(2, 2))));
    assert_eq!(store.len(), 1);
}

#[test]
fn best_fit_tie_takes_first_in_snapshot_order() {
    let mut w = empty_world();
    let mut e1 = structure(1, StructureKind::Extension, pos(5, 5));
    e1.free_capacity = 10;
    let mut e2 = structure(2, StructureKind::Extension, pos(7, 7));
    e2.free_capacity = 10;
    w.structures.push(e1);
    w.structures.push(e2);
    let agents = vec![agent(10, pos(1, 1), 50, 50, true)];
    let mut store = AssignmentStore::new();
    run_assigner(&mut store, &agents, &w);
    assert_eq!(store.get(10), Some(Assignment::Deposit(pos(5, 5))));
}

#[test]
fn stock_tie_takes_last_in_snapshot_order() {
    let mut w = empty_world();
    let mut c1 = structure(1, StructureKind::Container, pos(2, 2));
    c1.stored = 200;
    let mut c2 = structure(2, StructureKind::Container, pos(3, 3));
    c2.stored = 200;
    w.structures.push(c1);
    w.structures.push(c2);
    let agents = vec![agent(10, pos(1, 1), 0, 50, true)];
    let mut store = AssignmentStore::new();
    run_assigner(&mut store, &agents, &w);
    assert_eq!(store.get(10), Some(Assignment::Withdraw(2)));
}

#[test]
fn live_repair_holder_blocks_new_repair() {
    let mut w = empty_world();
    let mut damaged = structure(1, StructureKind::Other, pos(2, 2));
    damaged.hits = 10;
    damaged.hits_max = 100;
    damaged.repairable = true;
    w.structures.push(damaged);
    let agents = vec![
        agent(10, pos(1, 1), 50, 50, true),
        agent(11, pos(3, 3), 50, 50, true),
    ];
    let mut store = AssignmentStore::new();
    store.insert(11, Assignment::Repair(pos(2, 2)));
    run_assigner(&mut store, &agents, &w);
    // the live holder keeps the slot; with no controller the idle agent
    // gets nothing
    assert_eq!(store.get(10), None);
}
