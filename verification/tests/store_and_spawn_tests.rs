use creep_tasks::geom::{is_near, Pos};
use creep_tasks::model::{free_capacity, Agent};
use creep_tasks::spawning::{plan_spawn, BodyPart};
use creep_tasks::store::{Assignment, AssignmentStore};

fn pos(x: u8, y: u8) -> Pos {
    Pos { x, y }
}

#[test]
fn adjacency_includes_own_tile_and_diagonals() {
    assert!(is_near(pos(10, 10), pos(10, 10)));
    assert!(is_near(pos(10, 10), pos(9, 11)));
    assert!(is_near(pos(10, 10), pos(11, 10)));
    assert!(!is_near(pos(10, 10), pos(12, 10)));
    assert!(!is_near(pos(10, 10), pos(10, 8)));
    assert!(is_near(pos(0, 0), pos(1, 1)));
}

#[test]
fn free_capacity_saturates() {
    let mut a = Agent { id: 1, pos: pos(0, 0), carried: 10, capacity: 50, has_carry: true, spawning: false };
    assert_eq!(free_capacity(&a), 40);
    a.carried = 50;
    assert_eq!(free_capacity(&a), 0);
}

#[test]
fn store_insert_get_remove() {
    let mut s = AssignmentStore::new();
    assert_eq!(s.len(), 0);
    s.insert(1, Assignment::Harvest(100));
    s.insert(2, Assignment::Deposit(pos(5, 5)));
    assert_eq!(s.len(), 2);
    assert!(s.contains(1));
    assert_eq!(s.get(1), Some(Assignment::Harvest(100)));
    assert_eq!(s.get(2), Some(Assignment::Deposit(pos(5, 5))));
    assert_eq!(s.get(3), None);
    s.remove(1);
    assert_eq!(s.get(1), None);
    assert_eq!(s.get(2), Some(Assignment::Deposit(pos(5, 5))));
    assert_eq!(s.len(), 1);
    s.remove(3);
    assert_eq!(s.len(), 1);
}

#[test]
fn store_flags_report_held_kinds() {
    let agents = vec![
        Agent { id: 1, pos: pos(0, 0), carried: 0, capacity: 50, has_carry: true, spawning: false },
    ];
    let mut s = AssignmentStore::new();
    assert!(!s.any_deposit());
    assert!(!s.any_construct());
    assert!(!s.any_live_repair(&agents));
    assert!(!s.node_is_claimed(&agents, 100));
    s.insert(1, Assignment::Deposit(pos(5, 5)));
    s.insert(2, Assignment::Repair(pos(6, 6)));
    s.insert(3, Assignment::Harvest(100));
    assert!(s.any_deposit());
    assert!(!s.any_construct());
    // agents 2 and 3 are not live: their entries do not count
    assert!(!s.any_live_repair(&agents));
    assert!(!s.node_is_claimed(&agents, 100));
}

#[test]
fn spawn_gatherer_band_small() {
    let body = plan_spawn(300, 300, 0, 1, 2, 3).expect("should spawn");
    assert_eq!(
        body,
        vec![BodyPart::Move, BodyPart::Move, BodyPart::Work, BodyPart::Work]
    );
}

#[test]
fn spawn_gatherer_band_large() {
    let body = plan_spawn(900, 900, 0, 1, 2, 3).expect("should spawn");
    assert_eq!(body.len(), 10);
    assert_eq!(body.iter().filter(|p| **p == BodyPart::Move).count(), 5);
    assert_eq!(body.iter().filter(|p| **p == BodyPart::Work).count(), 5);
}

#[test]
fn spawn_transporter_when_nodes_are_staffed() {
    let body = plan_spawn(550, 550, 2, 0, 2, 3).expect("should spawn");
    assert_eq!(
        body,
        vec![
            BodyPart::Move,
            BodyPart::Move,
            BodyPart::Move,
            BodyPart::Carry,
            BodyPart::Carry,
            BodyPart::Carry,
            BodyPart::Carry,
            BodyPart::Work,
            BodyPart::Work,
        ]
    );
}

#[test]
fn spawn_refused_at_population_cap() {
    assert_eq!(plan_spawn(300, 300, 0, 0, 2, 6), None);
}

#[test]
fn spawn_refused_below_minimum_budget() {
    assert_eq!(plan_spawn(299, 299, 0, 0, 2, 3), None);
}

#[test]
fn spawn_refused_while_stocking_up() {
    // stock not topped up and both roles staffed: wait for more energy
    assert_eq!(plan_spawn(400, 550, 1, 1, 1, 3), None);
}
