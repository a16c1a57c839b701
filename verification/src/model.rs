use vstd::prelude::*;
use crate::geom::Pos;

verus! {

/// The closed set of structure kinds the task logic dispatches on.
/// Every dispatch site matches exhaustively, so adding a kind forces a
/// review of each rule.
#[derive(Clone, Copy, PartialEq, Eq, Structural, Debug)]
pub enum StructureKind {
    Spawn,
    Extension,
    Tower,
    Container,
    Rampart,
    Wall,
    Road,
    Controller,
    Other,
}

/// One structure in the current tick's snapshot, reduced to the plain
/// values the task rules read. Handles stay with the host; only the
/// stable id is carried here.
#[derive(Clone, Copy, PartialEq, Eq, Structural, Debug)]
pub struct Structure {
    pub id: u64,
    pub kind: StructureKind,
    pub pos: Pos,
    pub hits: u32,
    pub hits_max: u32,
    /// Free energy capacity; zero for structures without a store.
    pub free_capacity: u32,
    /// Stored energy; zero for structures without a store.
    pub stored: u32,
    /// Whether the host exposes this structure as repairable.
    pub repairable: bool,
    /// Whether this player owns the structure.
    pub mine: bool,
}

/// A construction site in the current tick's snapshot.
#[derive(Clone, Copy, PartialEq, Eq, Structural, Debug)]
pub struct Site {
    pub id: u64,
    pub kind: StructureKind,
    pub pos: Pos,
    pub progress: u32,
    pub progress_total: u32,
}

/// An active resource node that resolves this tick.
#[derive(Clone, Copy, PartialEq, Eq, Structural, Debug)]
pub struct Source {
    pub id: u64,
    pub pos: Pos,
}

/// A pile of energy lying on the ground.
#[derive(Clone, Copy, PartialEq, Eq, Structural, Debug)]
pub struct Dropped {
    pub id: u64,
    pub pos: Pos,
    pub amount: u32,
}

/// One worker agent as seen this tick.
#[derive(Clone, Copy, PartialEq, Eq, Structural, Debug)]
pub struct Agent {
    pub id: u64,
    pub pos: Pos,
    /// Energy currently carried.
    pub carried: u32,
    /// Total energy capacity.
    pub capacity: u32,
    /// Whether the body has a carry capability.
    pub has_carry: bool,
    /// Agents still being spawned take no action.
    pub spawning: bool,
}

/// The per-tick world snapshot: plain values only, valid for one tick.
#[derive(Clone, Debug)]
pub struct World {
    /// Every structure visible in the room this tick; an id-keyed task
    /// resolves if and only if a matching entry is here.
    pub structures: Vec<Structure>,
    /// This player's construction sites.
    pub sites: Vec<Site>,
    /// Active resource nodes.
    pub sources: Vec<Source>,
    /// Ground energy piles.
    pub dropped: Vec<Dropped>,
}

/// One imperative command for the host to issue against a live handle.
#[derive(Clone, Copy, PartialEq, Eq, Structural, Debug)]
pub enum Command {
    MoveToPos(Pos),
    MoveToObj(u64),
    Harvest(u64),
    Upgrade(u64),
    Build(u64),
    Repair(u64),
    Transfer(u64),
    Withdraw(u64),
    Pickup(u64),
    SelfTerminate,
}

/// The categorized outcome of an issued action command, as reported by
/// the host. Unresolvable targets never reach an action: they are
/// handled before a command is planned.
#[derive(Clone, Copy, PartialEq, Eq, Structural, Debug)]
pub enum ActionResult {
    Success,
    /// Adjacency not yet satisfied; the one failure that keeps a task.
    OutOfRange,
    /// Forbidden, insufficient resource, or any other refusal.
    Rejected,
}

/// Free carrying capacity of an agent.
pub open spec fn agent_free(a: Agent) -> int {
    if a.capacity >= a.carried {
        a.capacity - a.carried
    } else {
        0
    }
}

/// Executable counterpart of [`agent_free`].
pub fn free_capacity(a: &Agent) -> (r: u32)
    ensures
        r == agent_free(*a),
{
    if a.capacity >= a.carried {
        a.capacity - a.carried
    } else {
        0
    }
}

/// Work remaining on a construction site.
pub open spec fn site_remaining(s: Site) -> int {
    if s.progress_total >= s.progress {
        s.progress_total - s.progress
    } else {
        0
    }
}

/// Executable counterpart of [`site_remaining`].
pub fn remaining_work(s: &Site) -> (r: u32)
    ensures
        r == site_remaining(*s),
{
    if s.progress_total >= s.progress {
        s.progress_total - s.progress
    } else {
        0
    }
}

} // verus!
