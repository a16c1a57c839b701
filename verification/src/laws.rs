use vstd::prelude::*;
use crate::assigner::{assign_choice, first_unclaimed, idle_cmds, wants_cull};
use crate::executor::{plan_spec, StepPlan};
use crate::geom::near;
use crate::model::{agent_free, Agent, Command, Structure, StructureKind, World};
use crate::query::{best_fill_from, fill_eligible, source_by_id};
use crate::store::{contains_agent, Assignment};

verus! {

/// Best-fit selection: the chosen delivery target of a kind is eligible
/// and has free capacity no greater than any other eligible target's;
/// whenever an eligible target exists, one is chosen.
pub proof fn lemma_best_fill_min(ss: Seq<Structure>, kind: StructureKind, i: int)
    requires
        0 <= i,
    ensures
        match best_fill_from(ss, kind, i) {
            Some(b) => (exists|j: int| i <= j < ss.len() && ss[j] == b) && fill_eligible(b, kind)
                && (forall|j: int|
                i <= j < ss.len() && fill_eligible(#[trigger] ss[j], kind) ==> b.free_capacity
                    <= ss[j].free_capacity),
            None => forall|j: int| i <= j < ss.len() ==> !fill_eligible(#[trigger] ss[j], kind),
        },
    decreases ss.len() - i,
{
    if 0 <= i < ss.len() {
        lemma_best_fill_min(ss, kind, i + 1);
        let rest = best_fill_from(ss, kind, i + 1);
        if fill_eligible(ss[i], kind) {
            match rest {
                None => {
                    assert(best_fill_from(ss, kind, i) == Some(ss[i]));
                },
                Some(b) => {
                    if ss[i].free_capacity <= b.free_capacity {
                        assert(best_fill_from(ss, kind, i) == Some(ss[i]));
                    } else {
                        assert(best_fill_from(ss, kind, i) == Some(b));
                    }
                },
            }
        } else {
            assert(best_fill_from(ss, kind, i) == rest);
        }
    }
}

/// Range gating: an agent holding `Harvest(n)` and not adjacent to the
/// resolved node moves toward it and keeps the assignment this tick.
pub proof fn lemma_harvest_range_gating(a: Agent, n: u64, w: World)
    requires
        match source_by_id(w.sources@, n) {
            Some(src) => !near(a.pos, src.pos),
            None => false,
        },
    ensures
        plan_spec(a, Assignment::Harvest(n), w) == StepPlan::Move(Command::MoveToObj(n)),
{
}

/// Guard-driven drop: an agent holding `Withdraw(c)` with no free
/// capacity has the assignment dropped, whatever the container holds.
pub proof fn lemma_withdraw_guard_drop(a: Agent, c: u64, w: World)
    requires
        agent_free(a) == 0,
    ensures
        plan_spec(a, Assignment::Withdraw(c), w) == StepPlan::Drop,
{
}

/// One assigner pass only appends entries for agents that held none.
pub open spec fn pass_extends(s0: Seq<(u64, Assignment)>, s1: Seq<(u64, Assignment)>) -> bool {
    &&& s1.len() >= s0.len()
    &&& forall|i: int| 0 <= i < s0.len() ==> s1[i] == s0[i]
    &&& forall|i: int|
        s0.len() <= i < s1.len() ==> !contains_agent(s0, (#[trigger] s1[i]).0)
}

/// Idempotent store: an agent assigned by one pass receives nothing from
/// a following pass, so no agent ever holds two entries across repeated
/// passes while the store stays well-formed.
pub proof fn lemma_pass_idempotent(
    s0: Seq<(u64, Assignment)>,
    s1: Seq<(u64, Assignment)>,
    s2: Seq<(u64, Assignment)>,
    id: u64,
)
    requires
        pass_extends(s0, s1),
        pass_extends(s1, s2),
        contains_agent(s1, id),
    ensures
        forall|i: int| s1.len() <= i < s2.len() ==> (#[trigger] s2[i]).0 != id,
{
}

/// Culling: a pure gatherer facing no unclaimed node receives no task
/// and is told to self-terminate in the same pass.
pub proof fn lemma_cull(a: Agent, s: Seq<(u64, Assignment)>, agents: Seq<Agent>, w: World)
    requires
        a.carried == 0,
        !a.has_carry,
        first_unclaimed(w.sources@, s, agents) is None,
    ensures
        assign_choice(a, s, agents, w) is None,
        wants_cull(a, s, agents, w),
        idle_cmds(a, s, agents, w)[0] == Command::SelfTerminate,
{
}

} // verus!
