use vstd::prelude::*;
use crate::geom::{is_near, near};
use crate::model::{agent_free, ActionResult, Agent, Command, World};
use crate::query::{
    container_near, damaged_at, dropped_at, find_container_near, find_damaged_at, find_dropped_at,
    find_rampart_at, find_sink_at, find_site_at, find_source, find_structure, rampart_at, sink_at,
    site_at, source_by_id, structure_by_id,
};
use crate::model::StructureKind;
use crate::store::{
    contains_agent, has_task, lemma_task_unique, Assignment, AssignmentStore,
};

verus! {

/// What the executor decides for one assigned agent this tick.
#[derive(Clone, Copy, PartialEq, Eq, Structural, Debug)]
pub enum StepPlan {
    /// Remove the assignment; no command is issued.
    Drop,
    /// Issue a movement command; the assignment survives.
    Move(Command),
    /// Issue an action command; survival depends on the reported result.
    Act(Command),
}

/// How an assignment fares once its action's result is known.
#[derive(Clone, Copy, PartialEq, Eq, Structural, Debug)]
pub enum Followup {
    /// The action went through; the assignment survives.
    Keep,
    /// Adjacency was not yet satisfied: move toward the target instead
    /// of dropping.
    MoveAndKeep,
    /// Terminal failure: the assignment is dropped.
    Drop,
}

/// The per-variant precondition on the agent's carried-resource level.
/// A failing guard drops the assignment unconditionally.
pub open spec fn guard_ok(a: Agent, t: Assignment) -> bool {
    match t {
        Assignment::Upgrade(_) => a.carried > 0,
        Assignment::Construct(_) => a.carried > 0,
        Assignment::Deposit(_) => a.carried > 0,
        Assignment::Repair(_) => a.carried > 0,
        Assignment::Withdraw(_) => agent_free(a) > 0,
        Assignment::Pickup(_) => agent_free(a) > 0,
        Assignment::Harvest(_) => true,
    }
}

/// The executor's decision table: given a non-spawning agent, its
/// persisted task and this tick's snapshot, the single step taken.
pub open spec fn plan_spec(a: Agent, t: Assignment, w: World) -> StepPlan {
    if !guard_ok(a, t) {
        StepPlan::Drop
    } else {
        match t {
            Assignment::Upgrade(cid) => match structure_by_id(
                w.structures@,
                cid,
                StructureKind::Controller,
            ) {
                None => StepPlan::Drop,
                Some(_) => StepPlan::Act(Command::Upgrade(cid)),
            },
            Assignment::Construct(p) => if near(a.pos, p) {
                match site_at(w.sites@, p) {
                    Some(site) => StepPlan::Act(Command::Build(site.id)),
                    None => match rampart_at(w.structures@, p) {
                        Some(r) => StepPlan::Act(Command::Repair(r.id)),
                        None => StepPlan::Drop,
                    },
                }
            } else {
                StepPlan::Move(Command::MoveToPos(p))
            },
            Assignment::Harvest(sid) => match source_by_id(w.sources@, sid) {
                None => StepPlan::Drop,
                Some(src) => if near(a.pos, src.pos) {
                    match container_near(w.structures@, src.pos) {
                        Some(c) => if a.pos != c.pos {
                            StepPlan::Move(Command::MoveToPos(c.pos))
                        } else {
                            StepPlan::Act(Command::Harvest(sid))
                        },
                        None => StepPlan::Act(Command::Harvest(sid)),
                    }
                } else {
                    StepPlan::Move(Command::MoveToObj(sid))
                },
            },
            Assignment::Withdraw(cid) => match structure_by_id(
                w.structures@,
                cid,
                StructureKind::Container,
            ) {
                None => StepPlan::Drop,
                Some(c) => if near(a.pos, c.pos) {
                    StepPlan::Act(Command::Withdraw(cid))
                } else {
                    StepPlan::Move(Command::MoveToObj(cid))
                },
            },
            Assignment::Pickup(p) => match dropped_at(w.dropped@, p) {
                None => StepPlan::Drop,
                Some(d) => if near(a.pos, p) {
                    StepPlan::Act(Command::Pickup(d.id))
                } else {
                    StepPlan::Move(Command::MoveToPos(p))
                },
            },
            Assignment::Deposit(p) => match sink_at(w.structures@, p) {
                None => StepPlan::Drop,
                Some(s) => if near(a.pos, s.pos) {
                    StepPlan::Act(Command::Transfer(s.id))
                } else {
                    StepPlan::Move(Command::MoveToPos(p))
                },
            },
            Assignment::Repair(p) => if near(a.pos, p) {
                match damaged_at(w.structures@, p) {
                    Some(s) => if s.repairable {
                        StepPlan::Act(Command::Repair(s.id))
                    } else {
                        StepPlan::Drop
                    },
                    None => StepPlan::Drop,
                }
            } else {
                StepPlan::Move(Command::MoveToPos(p))
            },
        }
    }
}

/// Executable counterpart of [`guard_ok`].
pub fn check_guard(a: &Agent, t: &Assignment) -> (r: bool)
    ensures
        r == guard_ok(*a, *t),
{
    match t {
        Assignment::Upgrade(_) => a.carried > 0,
        Assignment::Construct(_) => a.carried > 0,
        Assignment::Deposit(_) => a.carried > 0,
        Assignment::Repair(_) => a.carried > 0,
        Assignment::Withdraw(_) => crate::model::free_capacity(a) > 0,
        Assignment::Pickup(_) => crate::model::free_capacity(a) > 0,
        Assignment::Harvest(_) => true,
    }
}

/// Plan one executor step for a non-spawning agent holding a task.
pub fn plan_step(a: &Agent, t: &Assignment, w: &World) -> (r: StepPlan)
    ensures
        r == plan_spec(*a, *t, *w),
{
    if !check_guard(a, t) {
        return StepPlan::Drop;
    }
    match *t {
        Assignment::Upgrade(cid) => match find_structure(
            &w.structures,
            cid,
            StructureKind::Controller,
        ) {
            None => StepPlan::Drop,
            Some(_) => StepPlan::Act(Command::Upgrade(cid)),
        },
        Assignment::Construct(p) => if is_near(a.pos, p) {
            match find_site_at(&w.sites, p) {
                Some(site) => StepPlan::Act(Command::Build(site.id)),
                None => match find_rampart_at(&w.structures, p) {
                    Some(r) => StepPlan::Act(Command::Repair(r.id)),
                    None => StepPlan::Drop,
                },
            }
        } else {
            StepPlan::Move(Command::MoveToPos(p))
        },
        Assignment::Harvest(sid) => match find_source(&w.sources, sid) {
            None => StepPlan::Drop,
            Some(src) => if is_near(a.pos, src.pos) {
                match find_container_near(&w.structures, src.pos) {
                    Some(c) => if a.pos != c.pos {
                        StepPlan::Move(Command::MoveToPos(c.pos))
                    } else {
                        StepPlan::Act(Command::Harvest(sid))
                    },
                    None => StepPlan::Act(Command::Harvest(sid)),
                }
            } else {
                StepPlan::Move(Command::MoveToObj(sid))
            },
        },
        Assignment::Withdraw(cid) => match find_structure(
            &w.structures,
            cid,
            StructureKind::Container,
        ) {
            None => StepPlan::Drop,
            Some(c) => if is_near(a.pos, c.pos) {
                StepPlan::Act(Command::Withdraw(cid))
            } else {
                StepPlan::Move(Command::MoveToObj(cid))
            },
        },
        Assignment::Pickup(p) => match find_dropped_at(&w.dropped, p) {
            None => StepPlan::Drop,
            Some(d) => if is_near(a.pos, p) {
                StepPlan::Act(Command::Pickup(d.id))
            } else {
                StepPlan::Move(Command::MoveToPos(p))
            },
        },
        Assignment::Deposit(p) => match find_sink_at(&w.structures, p) {
            None => StepPlan::Drop,
            Some(s) => if is_near(a.pos, s.pos) {
                StepPlan::Act(Command::Transfer(s.id))
            } else {
                StepPlan::Move(Command::MoveToPos(p))
            },
        },
        Assignment::Repair(p) => if is_near(a.pos, p) {
            match find_damaged_at(&w.structures, p) {
                Some(s) => if s.repairable {
                    StepPlan::Act(Command::Repair(s.id))
                } else {
                    StepPlan::Drop
                },
                None => StepPlan::Drop,
            }
        } else {
            StepPlan::Move(Command::MoveToPos(p))
        },
    }
}

/// Survival of an assignment once its action's result is known: success
/// keeps it; an out-of-range refusal of an upgrade moves instead of
/// dropping; every other failure is terminal.
pub open spec fn followup_spec(t: Assignment, res: ActionResult) -> Followup {
    match res {
        ActionResult::Success => Followup::Keep,
        ActionResult::OutOfRange => if t is Upgrade {
            Followup::MoveAndKeep
        } else {
            Followup::Drop
        },
        ActionResult::Rejected => Followup::Drop,
    }
}

/// Run one executor step for an agent: plan, mutate the store on a
/// dropped task, and hand back the command to issue, if any.
pub fn executor_step(store: &mut AssignmentStore, a: &Agent, w: &World) -> (r: Option<Command>)
    requires
        old(store).wf(),
    ensures
        final(store).wf(),
        (a.spawning || !contains_agent(old(store)@, a.id)) ==> (final(store)@ == old(store)@ && r
            == None::<Command>),
        forall|t: Assignment|
            !a.spawning && #[trigger] has_task(old(store)@, a.id, t) ==> match plan_spec(
                *a,
                t,
                *w,
            ) {
                StepPlan::Drop => r == None::<Command> && !contains_agent(final(store)@, a.id) && (
                forall|b: u64, t2: Assignment|
                    b != a.id ==> (has_task(final(store)@, b, t2) <==> has_task(
                        old(store)@,
                        b,
                        t2,
                    ))) && (forall|e: (u64, Assignment)|
                    final(store)@.contains(e) ==> old(store)@.contains(e)),
                StepPlan::Move(c) => final(store)@ == old(store)@ && r == Some(c),
                StepPlan::Act(c) => final(store)@ == old(store)@ && r == Some(c),
            },
{
    if a.spawning {
        return None;
    }
    match store.get(a.id) {
        None => {
            proof {
                assert forall|t: Assignment| !has_task(store@, a.id, t) by {
                    if has_task(store@, a.id, t) {
                        let i = choose|i: int| 0 <= i < store@.len() && store@[i] == (a.id, t);
                        assert(contains_agent(store@, a.id));
                    }
                }
            }
            None
        },
        Some(t0) => {
            proof {
                assert forall|t: Assignment| has_task(store@, a.id, t) implies t == t0 by {
                    lemma_task_unique(store@, a.id, t, t0);
                }
            }
            match plan_step(a, &t0, w) {
                StepPlan::Drop => {
                    store.remove(a.id);
                    None
                },
                StepPlan::Move(c) => Some(c),
                StepPlan::Act(c) => Some(c),
            }
        },
    }
}

/// Apply the reported result of an issued action: drop the task on a
/// terminal failure, or plan the move that replaces an out-of-range
/// upgrade attempt.
pub fn report_result(store: &mut AssignmentStore, id: u64, res: ActionResult) -> (r: Option<
    Command,
>)
    requires
        old(store).wf(),
    ensures
        final(store).wf(),
        !contains_agent(old(store)@, id) ==> (final(store)@ == old(store)@ && r == None::<
            Command,
        >),
        forall|t: Assignment|
            #[trigger] has_task(old(store)@, id, t) ==> match followup_spec(t, res) {
                Followup::Keep => final(store)@ == old(store)@ && r == None::<Command>,
                Followup::MoveAndKeep => final(store)@ == old(store)@ && (t matches
                Assignment::Upgrade(cid) && r == Some(Command::MoveToObj(cid))),
                Followup::Drop => r == None::<Command> && !contains_agent(final(store)@, id) && (
                forall|b: u64, t2: Assignment|
                    b != id ==> (has_task(final(store)@, b, t2) <==> has_task(old(store)@, b, t2)))
                    && (forall|e: (u64, Assignment)|
                    final(store)@.contains(e) ==> old(store)@.contains(e)),
            },
{
    match store.get(id) {
        None => {
            proof {
                assert forall|t: Assignment| !has_task(store@, id, t) by {
                    if has_task(store@, id, t) {
                        let i = choose|i: int| 0 <= i < store@.len() && store@[i] == (id, t);
                        assert(contains_agent(store@, id));
                    }
                }
            }
            None
        },
        Some(t0) => {
            proof {
                assert forall|t: Assignment| has_task(store@, id, t) implies t == t0 by {
                    lemma_task_unique(store@, id, t, t0);
                }
            }
            match res {
                ActionResult::Success => None,
                ActionResult::OutOfRange => match t0 {
                    Assignment::Upgrade(cid) => Some(Command::MoveToObj(cid)),
                    _ => {
                        store.remove(id);
                        None
                    },
                },
                ActionResult::Rejected => {
                    store.remove(id);
                    None
                },
            }
        },
    }
}

} // verus!
