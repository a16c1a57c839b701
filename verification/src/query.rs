use vstd::prelude::*;
use crate::geom::{near, Pos};
use crate::model::{site_remaining, Dropped, Site, Source, Structure, StructureKind};

verus! {

// ---------------------------------------------------------------------------
// Eligibility predicates
// ---------------------------------------------------------------------------
/// Structure kinds that accept delivered energy.
pub open spec fn is_sink_kind(k: StructureKind) -> bool {
    k is Extension || k is Spawn || k is Tower
}

/// Structure kinds counted as defensive for construction priority.
pub open spec fn is_defensive_kind(k: StructureKind) -> bool {
    k is Rampart || k is Wall || k is Tower
}

/// Construction priority tiers, in descending priority order.
#[derive(Clone, Copy, PartialEq, Eq, Structural, Debug)]
pub enum SiteTier {
    Defensive,
    Container,
    Extension,
    Other,
}

pub open spec fn site_in_tier(s: Site, tier: SiteTier) -> bool {
    match tier {
        SiteTier::Defensive => is_defensive_kind(s.kind),
        SiteTier::Container => s.kind is Container,
        SiteTier::Extension => s.kind is Extension,
        SiteTier::Other => !is_defensive_kind(s.kind) && !(s.kind is Container) && !(
        s.kind is Extension),
    }
}

/// Eligible to receive a delivery: owned, of a sink kind, with free room.
pub open spec fn fill_eligible(s: Structure, kind: StructureKind) -> bool {
    s.mine && s.kind == kind && s.free_capacity > 0
}

/// Eligible as a repair target: repairable and below half health.
pub open spec fn repair_eligible(s: Structure) -> bool {
    s.repairable && s.hits < s.hits_max / 2
}

/// Repair ordering key: lower health first; among equal health,
/// ramparts before everything else.
pub open spec fn repair_before(a: Structure, b: Structure) -> bool {
    a.hits < b.hits || (a.hits == b.hits && a.kind is Rampart && !(b.kind is Rampart))
}

// ---------------------------------------------------------------------------
// First-match lookups
// ---------------------------------------------------------------------------
pub open spec fn source_from(ss: Seq<Source>, id: u64, i: int) -> Option<Source>
    decreases ss.len() - i,
{
    if i < 0 || i >= ss.len() {
        None
    } else if ss[i].id == id {
        Some(ss[i])
    } else {
        source_from(ss, id, i + 1)
    }
}

/// The first active resource node with this id, if it resolves this tick.
pub open spec fn source_by_id(ss: Seq<Source>, id: u64) -> Option<Source> {
    source_from(ss, id, 0)
}

fn find_source_from(ss: &Vec<Source>, id: u64, i: usize) -> (r: Option<Source>)
    requires
        i <= ss@.len(),
    ensures
        r == source_from(ss@, id, i as int),
    decreases ss@.len() - i,
{
    if i >= ss.len() {
        None
    } else if ss[i].id == id {
        Some(ss[i])
    } else {
        find_source_from(ss, id, i + 1)
    }
}

/// Resolve a resource node by id against this tick's snapshot.
pub fn find_source(ss: &Vec<Source>, id: u64) -> (r: Option<Source>)
    ensures
        r == source_by_id(ss@, id),
{
    find_source_from(ss, id, 0)
}

pub open spec fn structure_from(
    ss: Seq<Structure>,
    id: u64,
    kind: StructureKind,
    i: int,
) -> Option<Structure>
    decreases ss.len() - i,
{
    if i < 0 || i >= ss.len() {
        None
    } else if ss[i].id == id && ss[i].kind == kind {
        Some(ss[i])
    } else {
        structure_from(ss, id, kind, i + 1)
    }
}

/// The first structure with this id and kind, if it resolves this tick.
pub open spec fn structure_by_id(ss: Seq<Structure>, id: u64, kind: StructureKind) -> Option<
    Structure,
> {
    structure_from(ss, id, kind, 0)
}

fn find_structure_from(ss: &Vec<Structure>, id: u64, kind: StructureKind, i: usize) -> (r: Option<
    Structure,
>)
    requires
        i <= ss@.len(),
    ensures
        r == structure_from(ss@, id, kind, i as int),
    decreases ss@.len() - i,
{
    if i >= ss.len() {
        None
    } else if ss[i].id == id && ss[i].kind == kind {
        Some(ss[i])
    } else {
        find_structure_from(ss, id, kind, i + 1)
    }
}

/// Resolve a structure by id and kind against this tick's snapshot.
pub fn find_structure(ss: &Vec<Structure>, id: u64, kind: StructureKind) -> (r: Option<Structure>)
    ensures
        r == structure_by_id(ss@, id, kind),
{
    find_structure_from(ss, id, kind, 0)
}

pub open spec fn site_at_from(ss: Seq<Site>, p: Pos, i: int) -> Option<Site>
    decreases ss.len() - i,
{
    if i < 0 || i >= ss.len() {
        None
    } else if ss[i].pos == p {
        Some(ss[i])
    } else {
        site_at_from(ss, p, i + 1)
    }
}

/// The first construction site exactly at this position.
pub open spec fn site_at(ss: Seq<Site>, p: Pos) -> Option<Site> {
    site_at_from(ss, p, 0)
}

fn find_site_at_from(ss: &Vec<Site>, p: Pos, i: usize) -> (r: Option<Site>)
    requires
        i <= ss@.len(),
    ensures
        r == site_at_from(ss@, p, i as int),
    decreases ss@.len() - i,
{
    if i >= ss.len() {
        None
    } else if ss[i].pos == p {
        Some(ss[i])
    } else {
        find_site_at_from(ss, p, i + 1)
    }
}

/// Look up a construction site at an exact position.
pub fn find_site_at(ss: &Vec<Site>, p: Pos) -> (r: Option<Site>)
    ensures
        r == site_at(ss@, p),
{
    find_site_at_from(ss, p, 0)
}

pub open spec fn rampart_at_from(ss: Seq<Structure>, p: Pos, i: int) -> Option<Structure>
    decreases ss.len() - i,
{
    if i < 0 || i >= ss.len() {
        None
    } else if ss[i].pos == p && ss[i].kind is Rampart && ss[i].hits < ss[i].hits_max {
        Some(ss[i])
    } else {
        rampart_at_from(ss, p, i + 1)
    }
}

/// The first damaged defensive rampart exactly at this position.
pub open spec fn rampart_at(ss: Seq<Structure>, p: Pos) -> Option<Structure> {
    rampart_at_from(ss, p, 0)
}

fn find_rampart_at_from(ss: &Vec<Structure>, p: Pos, i: usize) -> (r: Option<Structure>)
    requires
        i <= ss@.len(),
    ensures
        r == rampart_at_from(ss@, p, i as int),
    decreases ss@.len() - i,
{
    if i >= ss.len() {
        None
    } else if ss[i].pos == p && ss[i].kind == StructureKind::Rampart && ss[i].hits < ss[i].hits_max {
        Some(ss[i])
    } else {
        find_rampart_at_from(ss, p, i + 1)
    }
}

/// Look up a damaged rampart at an exact position.
pub fn find_rampart_at(ss: &Vec<Structure>, p: Pos) -> (r: Option<Structure>)
    ensures
        r == rampart_at(ss@, p),
{
    find_rampart_at_from(ss, p, 0)
}

pub open spec fn container_near_from(ss: Seq<Structure>, p: Pos, i: int) -> Option<Structure>
    decreases ss.len() - i,
{
    if i < 0 || i >= ss.len() {
        None
    } else if ss[i].kind is Container && near(ss[i].pos, p) {
        Some(ss[i])
    } else {
        container_near_from(ss, p, i + 1)
    }
}

/// The first container within range one of this position.
pub open spec fn container_near(ss: Seq<Structure>, p: Pos) -> Option<Structure> {
    container_near_from(ss, p, 0)
}

fn find_container_near_from(ss: &Vec<Structure>, p: Pos, i: usize) -> (r: Option<Structure>)
    requires
        i <= ss@.len(),
    ensures
        r == container_near_from(ss@, p, i as int),
    decreases ss@.len() - i,
{
    if i >= ss.len() {
        None
    } else if ss[i].kind == StructureKind::Container && crate::geom::is_near(ss[i].pos, p) {
        Some(ss[i])
    } else {
        find_container_near_from(ss, p, i + 1)
    }
}

/// Look up a delivery container adjacent to a position.
pub fn find_container_near(ss: &Vec<Structure>, p: Pos) -> (r: Option<Structure>)
    ensures
        r == container_near(ss@, p),
{
    find_container_near_from(ss, p, 0)
}

pub open spec fn dropped_at_from(ss: Seq<Dropped>, p: Pos, i: int) -> Option<Dropped>
    decreases ss.len() - i,
{
    if i < 0 || i >= ss.len() {
        None
    } else if ss[i].pos == p {
        Some(ss[i])
    } else {
        dropped_at_from(ss, p, i + 1)
    }
}

/// The first ground pile exactly at this position.
pub open spec fn dropped_at(ss: Seq<Dropped>, p: Pos) -> Option<Dropped> {
    dropped_at_from(ss, p, 0)
}

fn find_dropped_at_from(ss: &Vec<Dropped>, p: Pos, i: usize) -> (r: Option<Dropped>)
    requires
        i <= ss@.len(),
    ensures
        r == dropped_at_from(ss@, p, i as int),
    decreases ss@.len() - i,
{
    if i >= ss.len() {
        None
    } else if ss[i].pos == p {
        Some(ss[i])
    } else {
        find_dropped_at_from(ss, p, i + 1)
    }
}

/// Look up a ground energy pile at an exact position.
pub fn find_dropped_at(ss: &Vec<Dropped>, p: Pos) -> (r: Option<Dropped>)
    ensures
        r == dropped_at(ss@, p),
{
    find_dropped_at_from(ss, p, 0)
}

pub open spec fn sink_at_from(ss: Seq<Structure>, p: Pos, i: int) -> Option<Structure>
    decreases ss.len() - i,
{
    if i < 0 || i >= ss.len() {
        None
    } else if ss[i].pos == p && is_sink_kind(ss[i].kind) {
        Some(ss[i])
    } else {
        sink_at_from(ss, p, i + 1)
    }
}

/// The first delivery-point structure exactly at this position.
pub open spec fn sink_at(ss: Seq<Structure>, p: Pos) -> Option<Structure> {
    sink_at_from(ss, p, 0)
}

fn find_sink_at_from(ss: &Vec<Structure>, p: Pos, i: usize) -> (r: Option<Structure>)
    requires
        i <= ss@.len(),
    ensures
        r == sink_at_from(ss@, p, i as int),
    decreases ss@.len() - i,
{
    if i >= ss.len() {
        None
    } else {
        let is_sink = match ss[i].kind {
            StructureKind::Extension => true,
            StructureKind::Spawn => true,
            StructureKind::Tower => true,
            _ => false,
        };
        if ss[i].pos == p && is_sink {
            Some(ss[i])
        } else {
            find_sink_at_from(ss, p, i + 1)
        }
    }
}

/// Look up a structure that accepts deliveries at an exact position.
pub fn find_sink_at(ss: &Vec<Structure>, p: Pos) -> (r: Option<Structure>)
    ensures
        r == sink_at(ss@, p),
{
    find_sink_at_from(ss, p, 0)
}

pub open spec fn damaged_at_from(ss: Seq<Structure>, p: Pos, i: int) -> Option<Structure>
    decreases ss.len() - i,
{
    if i < 0 || i >= ss.len() {
        None
    } else if ss[i].pos == p && ss[i].hits < ss[i].hits_max {
        Some(ss[i])
    } else {
        damaged_at_from(ss, p, i + 1)
    }
}

/// The first structure below full health exactly at this position.
pub open spec fn damaged_at(ss: Seq<Structure>, p: Pos) -> Option<Structure> {
    damaged_at_from(ss, p, 0)
}

fn find_damaged_at_from(ss: &Vec<Structure>, p: Pos, i: usize) -> (r: Option<Structure>)
    requires
        i <= ss@.len(),
    ensures
        r == damaged_at_from(ss@, p, i as int),
    decreases ss@.len() - i,
{
    if i >= ss.len() {
        None
    } else if ss[i].pos == p && ss[i].hits < ss[i].hits_max {
        Some(ss[i])
    } else {
        find_damaged_at_from(ss, p, i + 1)
    }
}

/// Look up a damaged structure at an exact position.
pub fn find_damaged_at(ss: &Vec<Structure>, p: Pos) -> (r: Option<Structure>)
    ensures
        r == damaged_at(ss@, p),
{
    find_damaged_at_from(ss, p, 0)
}

pub open spec fn controller_from(ss: Seq<Structure>, i: int) -> Option<Structure>
    decreases ss.len() - i,
{
    if i < 0 || i >= ss.len() {
        None
    } else if ss[i].kind is Controller {
        Some(ss[i])
    } else {
        controller_from(ss, i + 1)
    }
}

/// The first room controller in the snapshot.
pub open spec fn first_controller(ss: Seq<Structure>) -> Option<Structure> {
    controller_from(ss, 0)
}

fn find_controller_from(ss: &Vec<Structure>, i: usize) -> (r: Option<Structure>)
    requires
        i <= ss@.len(),
    ensures
        r == controller_from(ss@, i as int),
    decreases ss@.len() - i,
{
    if i >= ss.len() {
        None
    } else if ss[i].kind == StructureKind::Controller {
        Some(ss[i])
    } else {
        find_controller_from(ss, i + 1)
    }
}

/// Look up the room's controller.
pub fn find_controller(ss: &Vec<Structure>) -> (r: Option<Structure>)
    ensures
        r == first_controller(ss@),
{
    find_controller_from(ss, 0)
}

/// Whether some road stands exactly at this position.
pub open spec fn road_at(ss: Seq<Structure>, p: Pos) -> bool {
    exists|i: int| 0 <= i < ss.len() && (#[trigger] ss[i]).kind is Road && ss[i].pos == p
}

/// Test for a road tile at an exact position.
pub fn is_road_at(ss: &Vec<Structure>, p: Pos) -> (r: bool)
    ensures
        r == road_at(ss@, p),
{
    let n = ss.len();
    let mut i: usize = 0;
    while i < n
        invariant
            n == ss@.len(),
            i <= n,
            forall|j: int|
                0 <= j < i ==> !((#[trigger] ss@[j]).kind is Road && ss@[j].pos == p),
        decreases n - i,
    {
        if ss[i].kind == StructureKind::Road && ss[i].pos == p {
            return true;
        }
        i = i + 1;
    }
    false
}

// ---------------------------------------------------------------------------
// Best-of selections
// ---------------------------------------------------------------------------
/// Best-fit delivery target of one kind: least free capacity wins; among
/// equals, the earliest in snapshot order.
pub open spec fn best_fill_from(ss: Seq<Structure>, kind: StructureKind, i: int) -> Option<
    Structure,
>
    decreases ss.len() - i,
{
    if i < 0 || i >= ss.len() {
        None
    } else {
        let rest = best_fill_from(ss, kind, i + 1);
        if fill_eligible(ss[i], kind) {
            match rest {
                None => Some(ss[i]),
                Some(b) => if ss[i].free_capacity <= b.free_capacity {
                    Some(ss[i])
                } else {
                    Some(b)
                },
            }
        } else {
            rest
        }
    }
}

pub open spec fn best_fill(ss: Seq<Structure>, kind: StructureKind) -> Option<Structure> {
    best_fill_from(ss, kind, 0)
}

fn find_best_fill_from(ss: &Vec<Structure>, kind: StructureKind, i: usize) -> (r: Option<
    Structure,
>)
    requires
        i <= ss@.len(),
    ensures
        r == best_fill_from(ss@, kind, i as int),
    decreases ss@.len() - i,
{
    if i >= ss.len() {
        None
    } else {
        let rest = find_best_fill_from(ss, kind, i + 1);
        if ss[i].mine && ss[i].kind == kind && ss[i].free_capacity > 0 {
            match rest {
                None => Some(ss[i]),
                Some(b) => if ss[i].free_capacity <= b.free_capacity {
                    Some(ss[i])
                } else {
                    Some(b)
                },
            }
        } else {
            rest
        }
    }
}

/// Select the delivery target of one kind with the least free capacity.
pub fn find_best_fill(ss: &Vec<Structure>, kind: StructureKind) -> (r: Option<Structure>)
    ensures
        r == best_fill(ss@, kind),
{
    find_best_fill_from(ss, kind, 0)
}

/// Construction site of a tier with the least remaining work; among
/// equals, the earliest in snapshot order.
pub open spec fn best_site_from(ss: Seq<Site>, tier: SiteTier, i: int) -> Option<Site>
    decreases ss.len() - i,
{
    if i < 0 || i >= ss.len() {
        None
    } else {
        let rest = best_site_from(ss, tier, i + 1);
        if site_in_tier(ss[i], tier) {
            match rest {
                None => Some(ss[i]),
                Some(b) => if site_remaining(ss[i]) <= site_remaining(b) {
                    Some(ss[i])
                } else {
                    Some(b)
                },
            }
        } else {
            rest
        }
    }
}

pub open spec fn best_site(ss: Seq<Site>, tier: SiteTier) -> Option<Site> {
    best_site_from(ss, tier, 0)
}

fn site_tier_matches(s: &Site, tier: SiteTier) -> (r: bool)
    ensures
        r == site_in_tier(*s, tier),
{
    let defensive = match s.kind {
        StructureKind::Rampart => true,
        StructureKind::Wall => true,
        StructureKind::Tower => true,
        _ => false,
    };
    match tier {
        SiteTier::Defensive => defensive,
        SiteTier::Container => s.kind == StructureKind::Container,
        SiteTier::Extension => s.kind == StructureKind::Extension,
        SiteTier::Other => !defensive && s.kind != StructureKind::Container && s.kind
            != StructureKind::Extension,
    }
}

fn find_best_site_from(ss: &Vec<Site>, tier: SiteTier, i: usize) -> (r: Option<Site>)
    requires
        i <= ss@.len(),
    ensures
        r == best_site_from(ss@, tier, i as int),
    decreases ss@.len() - i,
{
    if i >= ss.len() {
        None
    } else {
        let rest = find_best_site_from(ss, tier, i + 1);
        if site_tier_matches(&ss[i], tier) {
            match rest {
                None => Some(ss[i]),
                Some(b) => if crate::model::remaining_work(&ss[i]) <= crate::model::remaining_work(
                    &b,
                ) {
                    Some(ss[i])
                } else {
                    Some(b)
                },
            }
        } else {
            rest
        }
    }
}

/// Select the construction site of a tier with the least remaining work.
pub fn find_best_site(ss: &Vec<Site>, tier: SiteTier) -> (r: Option<Site>)
    ensures
        r == best_site(ss@, tier),
{
    find_best_site_from(ss, tier, 0)
}

/// Repair candidate: among structures below half health, the one with
/// the lowest health; equal health breaks in favor of ramparts, then
/// snapshot order.
pub open spec fn best_repair_from(ss: Seq<Structure>, i: int) -> Option<Structure>
    decreases ss.len() - i,
{
    if i < 0 || i >= ss.len() {
        None
    } else {
        let rest = best_repair_from(ss, i + 1);
        if repair_eligible(ss[i]) {
            match rest {
                None => Some(ss[i]),
                Some(b) => if repair_before(b, ss[i]) {
                    Some(b)
                } else {
                    Some(ss[i])
                },
            }
        } else {
            rest
        }
    }
}

pub open spec fn best_repair(ss: Seq<Structure>) -> Option<Structure> {
    best_repair_from(ss, 0)
}

fn find_best_repair_from(ss: &Vec<Structure>, i: usize) -> (r: Option<Structure>)
    requires
        i <= ss@.len(),
    ensures
        r == best_repair_from(ss@, i as int),
    decreases ss@.len() - i,
{
    if i >= ss.len() {
        None
    } else {
        let rest = find_best_repair_from(ss, i + 1);
        if ss[i].repairable && ss[i].hits < ss[i].hits_max / 2 {
            match rest {
                None => Some(ss[i]),
                Some(b) => {
                    let b_first = b.hits < ss[i].hits || (b.hits == ss[i].hits && b.kind
                        == StructureKind::Rampart && ss[i].kind != StructureKind::Rampart);
                    if b_first {
                        Some(b)
                    } else {
                        Some(ss[i])
                    }
                },
            }
        } else {
            rest
        }
    }
}

/// Select the repair candidate per the health-then-rampart ordering.
pub fn find_best_repair(ss: &Vec<Structure>) -> (r: Option<Structure>)
    ensures
        r == best_repair(ss@),
{
    find_best_repair_from(ss, 0)
}

/// Container holding at least `need` energy with the greatest stock;
/// among equals, the latest in snapshot order.
pub open spec fn best_stock_from(ss: Seq<Structure>, need: u32, i: int) -> Option<Structure>
    decreases ss.len() - i,
{
    if i < 0 || i >= ss.len() {
        None
    } else {
        let rest = best_stock_from(ss, need, i + 1);
        if ss[i].kind is Container && ss[i].stored >= need {
            match rest {
                None => Some(ss[i]),
                Some(b) => if ss[i].stored > b.stored {
                    Some(ss[i])
                } else {
                    Some(b)
                },
            }
        } else {
            rest
        }
    }
}

pub open spec fn best_stock(ss: Seq<Structure>, need: u32) -> Option<Structure> {
    best_stock_from(ss, need, 0)
}

fn find_best_stock_from(ss: &Vec<Structure>, need: u32, i: usize) -> (r: Option<Structure>)
    requires
        i <= ss@.len(),
    ensures
        r == best_stock_from(ss@, need, i as int),
    decreases ss@.len() - i,
{
    if i >= ss.len() {
        None
    } else {
        let rest = find_best_stock_from(ss, need, i + 1);
        if ss[i].kind == StructureKind::Container && ss[i].stored >= need {
            match rest {
                None => Some(ss[i]),
                Some(b) => if ss[i].stored > b.stored {
                    Some(ss[i])
                } else {
                    Some(b)
                },
            }
        } else {
            rest
        }
    }
}

/// Select the fullest container holding at least `need` energy.
pub fn find_best_stock(ss: &Vec<Structure>, need: u32) -> (r: Option<Structure>)
    ensures
        r == best_stock(ss@, need),
{
    find_best_stock_from(ss, need, 0)
}

/// Ground pile of at least `need` energy with the greatest amount;
/// among equals, the latest in snapshot order.
pub open spec fn best_pile_from(ss: Seq<Dropped>, need: u32, i: int) -> Option<Dropped>
    decreases ss.len() - i,
{
    if i < 0 || i >= ss.len() {
        None
    } else {
        let rest = best_pile_from(ss, need, i + 1);
        if ss[i].amount >= need {
            match rest {
                None => Some(ss[i]),
                Some(b) => if ss[i].amount > b.amount {
                    Some(ss[i])
                } else {
                    Some(b)
                },
            }
        } else {
            rest
        }
    }
}

pub open spec fn best_pile(ss: Seq<Dropped>, need: u32) -> Option<Dropped> {
    best_pile_from(ss, need, 0)
}

fn find_best_pile_from(ss: &Vec<Dropped>, need: u32, i: usize) -> (r: Option<Dropped>)
    requires
        i <= ss@.len(),
    ensures
        r == best_pile_from(ss@, need, i as int),
    decreases ss@.len() - i,
{
    if i >= ss.len() {
        None
    } else {
        let rest = find_best_pile_from(ss, need, i + 1);
        if ss[i].amount >= need {
            match rest {
                None => Some(ss[i]),
                Some(b) => if ss[i].amount > b.amount {
                    Some(ss[i])
                } else {
                    Some(b)
                },
            }
        } else {
            rest
        }
    }
}

/// Select the largest ground pile of at least `need` energy.
pub fn find_best_pile(ss: &Vec<Dropped>, need: u32) -> (r: Option<Dropped>)
    ensures
        r == best_pile(ss@, need),
{
    find_best_pile_from(ss, need, 0)
}

// ---------------------------------------------------------------------------
// Road vacating
// ---------------------------------------------------------------------------
/// Horizontal offset of the k-th neighbor in the fixed scan order.
pub open spec fn step_x(k: int) -> int {
    if k < 3 {
        -1
    } else if k < 5 {
        0
    } else {
        1
    }
}

/// Vertical offset of the k-th neighbor in the fixed scan order.
pub open spec fn step_y(k: int) -> int {
    if k == 0 || k == 3 || k == 5 {
        -1
    } else if k == 1 || k == 6 {
        0
    } else {
        1
    }
}

/// The k-th neighboring tile, if it lies inside the room.
pub open spec fn neighbor_of(p: Pos, k: int) -> Option<Pos> {
    let nx = p.x + step_x(k);
    let ny = p.y + step_y(k);
    if 0 <= nx <= 49 && 0 <= ny <= 49 {
        Some(Pos { x: nx as u8, y: ny as u8 })
    } else {
        None
    }
}

/// First neighbor, in the fixed scan order, that carries no road.
pub open spec fn vacate_from(ss: Seq<Structure>, p: Pos, k: int) -> Option<Pos>
    decreases 8 - k,
{
    if k < 0 || k >= 8 {
        None
    } else {
        match neighbor_of(p, k) {
            Some(q) => if !road_at(ss, q) {
                Some(q)
            } else {
                vacate_from(ss, p, k + 1)
            },
            None => vacate_from(ss, p, k + 1),
        }
    }
}

pub open spec fn vacate_target(ss: Seq<Structure>, p: Pos) -> Option<Pos> {
    vacate_from(ss, p, 0)
}

fn neighbor_tile(p: Pos, k: u8) -> (r: Option<Pos>)
    requires
        k < 8,
    ensures
        r == neighbor_of(p, k as int),
{
    let dx: i32 = if k < 3 {
        -1
    } else if k < 5 {
        0
    } else {
        1
    };
    let dy: i32 = if k == 0 || k == 3 || k == 5 {
        -1
    } else if k == 1 || k == 6 {
        0
    } else {
        1
    };
    let nx: i32 = p.x as i32 + dx;
    let ny: i32 = p.y as i32 + dy;
    if 0 <= nx && nx <= 49 && 0 <= ny && ny <= 49 {
        Some(Pos { x: nx as u8, y: ny as u8 })
    } else {
        None
    }
}

fn find_vacate_from(ss: &Vec<Structure>, p: Pos, k: u8) -> (r: Option<Pos>)
    requires
        k <= 8,
    ensures
        r == vacate_from(ss@, p, k as int),
    decreases 8 - k,
{
    if k >= 8 {
        None
    } else {
        match neighbor_tile(p, k) {
            Some(q) => if !is_road_at(ss, q) {
                Some(q)
            } else {
                find_vacate_from(ss, p, k + 1)
            },
            None => find_vacate_from(ss, p, k + 1),
        }
    }
}

/// First road-free neighboring tile in the fixed scan order, if any.
pub fn find_vacate_target(ss: &Vec<Structure>, p: Pos) -> (r: Option<Pos>)
    ensures
        r == vacate_target(ss@, p),
{
    find_vacate_from(ss, p, 0)
}

} // verus!
