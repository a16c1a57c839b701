use vstd::prelude::*;
use crate::geom::Pos;
use crate::model::{Agent, Command, World};
use crate::model::StructureKind;
use crate::query::{
    best_fill, best_pile, best_repair, best_site, best_stock, find_best_fill, find_best_pile,
    find_best_repair, find_best_site, find_best_stock, find_controller, find_vacate_target,
    first_controller, is_road_at, road_at, vacate_target, SiteTier,
};
use crate::store::{
    contains_agent, has_task, is_live, live, node_claimed, some_construct, some_deposit,
    some_live_repair, Assignment, AssignmentStore,
};
use crate::model::Source;

verus! {

// ---------------------------------------------------------------------------
// The decision cascade, as spec functions
// ---------------------------------------------------------------------------
/// First active node not claimed by any live agent, in snapshot order.
pub open spec fn unclaimed_from(
    ss: Seq<Source>,
    s: Seq<(u64, Assignment)>,
    agents: Seq<Agent>,
    i: int,
) -> Option<Source>
    decreases ss.len() - i,
{
    if i < 0 || i >= ss.len() {
        None
    } else if !node_claimed(s, agents, ss[i].id) {
        Some(ss[i])
    } else {
        unclaimed_from(ss, s, agents, i + 1)
    }
}

pub open spec fn first_unclaimed(
    ss: Seq<Source>,
    s: Seq<(u64, Assignment)>,
    agents: Seq<Agent>,
) -> Option<Source> {
    unclaimed_from(ss, s, agents, 0)
}

/// Delivery branch: extension, then spawn, then energy sink, best-fit
/// within each, all gated on no outstanding `Deposit`.
pub open spec fn sink_choice(s: Seq<(u64, Assignment)>, w: World) -> Option<Assignment> {
    if !some_deposit(s) {
        match best_fill(w.structures@, StructureKind::Extension) {
            Some(e) => Some(Assignment::Deposit(e.pos)),
            None => match best_fill(w.structures@, StructureKind::Spawn) {
                Some(e) => Some(Assignment::Deposit(e.pos)),
                None => match best_fill(w.structures@, StructureKind::Tower) {
                    Some(e) => Some(Assignment::Deposit(e.pos)),
                    None => None,
                },
            },
        }
    } else {
        None
    }
}

/// Construction branch: four descending tiers, least remaining work
/// within the winning tier, gated on no outstanding `Construct`. The
/// defensive tier additionally re-checks the candidate agent's own
/// liveness, as the rules require.
pub open spec fn construct_choice(
    a: Agent,
    s: Seq<(u64, Assignment)>,
    agents: Seq<Agent>,
    w: World,
) -> Option<Assignment> {
    let after_ext: Option<Assignment> = match best_site(w.sites@, SiteTier::Other) {
        Some(st) => if !some_construct(s) {
            Some(Assignment::Construct(st.pos))
        } else {
            None
        },
        None => None,
    };
    let after_cont: Option<Assignment> = match best_site(w.sites@, SiteTier::Extension) {
        Some(st) => if !some_construct(s) {
            Some(Assignment::Construct(st.pos))
        } else {
            after_ext
        },
        None => after_ext,
    };
    let after_def: Option<Assignment> = match best_site(w.sites@, SiteTier::Container) {
        Some(st) => if !some_construct(s) {
            Some(Assignment::Construct(st.pos))
        } else {
            after_cont
        },
        None => after_cont,
    };
    match best_site(w.sites@, SiteTier::Defensive) {
        Some(st) => if !some_construct(s) && live(agents, a.id) {
            Some(Assignment::Construct(st.pos))
        } else {
            after_def
        },
        None => after_def,
    }
}

/// Repair branch: lowest-health structure below half health, ramparts
/// first among equals, gated on no live agent already repairing.
pub open spec fn repair_choice(
    s: Seq<(u64, Assignment)>,
    agents: Seq<Agent>,
    w: World,
) -> Option<Assignment> {
    if !some_live_repair(s, agents) {
        match best_repair(w.structures@) {
            Some(st) => Some(Assignment::Repair(st.pos)),
            None => None,
        }
    } else {
        None
    }
}

/// Unconditional fallback: upgrade the room's controller.
pub open spec fn upgrade_choice(w: World) -> Option<Assignment> {
    match first_controller(w.structures@) {
        Some(c) => Some(Assignment::Upgrade(c.id)),
        None => None,
    }
}

/// The delivering role's strict priority order; first success wins.
pub open spec fn deliver_choice(
    a: Agent,
    s: Seq<(u64, Assignment)>,
    agents: Seq<Agent>,
    w: World,
) -> Option<Assignment> {
    match sink_choice(s, w) {
        Some(t) => Some(t),
        None => match construct_choice(a, s, agents, w) {
            Some(t) => Some(t),
            None => match repair_choice(s, agents, w) {
                Some(t) => Some(t),
                None => upgrade_choice(w),
            },
        },
    }
}

/// The gathering role: withdraw from the fullest adequate container,
/// else pick up the largest adequate ground pile; a pure gatherer takes
/// the first unclaimed node instead, or nothing (and is culled).
pub open spec fn gather_choice(
    a: Agent,
    s: Seq<(u64, Assignment)>,
    agents: Seq<Agent>,
    w: World,
) -> Option<Assignment> {
    if a.has_carry {
        match best_stock(w.structures@, a.capacity) {
            Some(c) => Some(Assignment::Withdraw(c.id)),
            None => match best_pile(w.dropped@, a.capacity) {
                Some(d) => Some(Assignment::Pickup(d.pos)),
                None => None,
            },
        }
    } else {
        match first_unclaimed(w.sources@, s, agents) {
            Some(src) => Some(Assignment::Harvest(src.id)),
            None => None,
        }
    }
}

/// The assigner's decision for one idle agent.
pub open spec fn assign_choice(
    a: Agent,
    s: Seq<(u64, Assignment)>,
    agents: Seq<Agent>,
    w: World,
) -> Option<Assignment> {
    if a.carried > 0 {
        deliver_choice(a, s, agents, w)
    } else {
        gather_choice(a, s, agents, w)
    }
}

/// A pure gatherer with no unclaimed node self-terminates.
pub open spec fn wants_cull(
    a: Agent,
    s: Seq<(u64, Assignment)>,
    agents: Seq<Agent>,
    w: World,
) -> bool {
    a.carried == 0 && !a.has_carry && first_unclaimed(w.sources@, s, agents) is None
}

/// Road-vacating fallback for a gatherer left without a task.
pub open spec fn road_move(
    a: Agent,
    s: Seq<(u64, Assignment)>,
    agents: Seq<Agent>,
    w: World,
) -> Option<Pos> {
    if a.carried == 0 && gather_choice(a, s, agents, w) is None && road_at(w.structures@, a.pos) {
        vacate_target(w.structures@, a.pos)
    } else {
        None
    }
}

/// The commands issued for an agent that receives no new task.
pub open spec fn idle_cmds(
    a: Agent,
    s: Seq<(u64, Assignment)>,
    agents: Seq<Agent>,
    w: World,
) -> Seq<Command> {
    let base: Seq<Command> = if wants_cull(a, s, agents, w) {
        seq![Command::SelfTerminate]
    } else {
        Seq::empty()
    };
    match road_move(a, s, agents, w) {
        Some(p) => base.push(Command::MoveToPos(p)),
        None => base,
    }
}

/// Some delivery point (extension, spawn point or energy sink) has room.
pub open spec fn deposit_target_exists(w: World) -> bool {
    best_fill(w.structures@, StructureKind::Extension) is Some || best_fill(
        w.structures@,
        StructureKind::Spawn,
    ) is Some || best_fill(w.structures@, StructureKind::Tower) is Some
}

/// What one full assigner pass owes an idle agent: a delivering agent is
/// assigned whenever a controller exists; a carrying gatherer whenever a
/// qualifying container or pile exists; a pure gatherer is assigned or
/// told to self-terminate.
pub open spec fn pass_covers(
    a: Agent,
    s: Seq<(u64, Assignment)>,
    cmds: Seq<(u64, Command)>,
    w: World,
) -> bool {
    &&& (a.carried > 0 && first_controller(w.structures@) is Some ==> contains_agent(s, a.id))
    &&& (a.carried == 0 && a.has_carry && (best_stock(w.structures@, a.capacity) is Some
        || best_pile(w.dropped@, a.capacity) is Some) ==> contains_agent(s, a.id))
    &&& (a.carried == 0 && !a.has_carry ==> (contains_agent(s, a.id) || cmds.contains(
        (a.id, Command::SelfTerminate),
    )))
}

// ---------------------------------------------------------------------------
// Gate lemmas: what each chosen task says about the store it was chosen
// against
// ---------------------------------------------------------------------------
/// A `Deposit` is chosen only while no deposit task is outstanding.
pub proof fn lemma_choice_deposit_gate(
    a: Agent,
    s: Seq<(u64, Assignment)>,
    agents: Seq<Agent>,
    w: World,
    t: Assignment,
)
    requires
        assign_choice(a, s, agents, w) == Some(t),
        t is Deposit,
    ensures
        !some_deposit(s),
{
}

/// A `Construct` is chosen only while no construct task is outstanding.
pub proof fn lemma_choice_construct_gate(
    a: Agent,
    s: Seq<(u64, Assignment)>,
    agents: Seq<Agent>,
    w: World,
    t: Assignment,
)
    requires
        assign_choice(a, s, agents, w) == Some(t),
        t is Construct,
    ensures
        !some_construct(s),
{
}

/// A `Repair` is chosen only while no live agent holds one.
pub proof fn lemma_choice_repair_gate(
    a: Agent,
    s: Seq<(u64, Assignment)>,
    agents: Seq<Agent>,
    w: World,
    t: Assignment,
)
    requires
        assign_choice(a, s, agents, w) == Some(t),
        t is Repair,
    ensures
        !some_live_repair(s, agents),
{
}

/// A node returned by the unclaimed scan is indeed unclaimed.
pub proof fn lemma_unclaimed_sound(
    ss: Seq<Source>,
    s: Seq<(u64, Assignment)>,
    agents: Seq<Agent>,
    i: int,
)
    ensures
        match unclaimed_from(ss, s, agents, i) {
            Some(src) => !node_claimed(s, agents, src.id),
            None => true,
        },
    decreases ss.len() - i,
{
    if 0 <= i < ss.len() {
        if node_claimed(s, agents, ss[i].id) {
            lemma_unclaimed_sound(ss, s, agents, i + 1);
        }
    }
}

/// A `Harvest` of a node is chosen only while no live agent claims it.
pub proof fn lemma_choice_harvest_gate(
    a: Agent,
    s: Seq<(u64, Assignment)>,
    agents: Seq<Agent>,
    w: World,
    n: u64,
)
    requires
        assign_choice(a, s, agents, w) == Some(Assignment::Harvest(n)),
    ensures
        !node_claimed(s, agents, n),
{
    lemma_unclaimed_sound(w.sources@, s, agents, 0);
}

/// A delivering agent always receives a task when a controller exists:
/// the upgrade fallback is unconditional.
pub proof fn lemma_deliver_some(a: Agent, s: Seq<(u64, Assignment)>, agents: Seq<Agent>, w: World)
    requires
        a.carried > 0,
        first_controller(w.structures@) is Some,
    ensures
        assign_choice(a, s, agents, w) is Some,
{
}

/// A carrying gatherer receives a task whenever a qualifying container
/// or ground pile exists.
pub proof fn lemma_gather_some(a: Agent, s: Seq<(u64, Assignment)>, agents: Seq<Agent>, w: World)
    requires
        a.carried == 0,
        a.has_carry,
        best_stock(w.structures@, a.capacity) is Some || best_pile(w.dropped@, a.capacity) is Some,
    ensures
        assign_choice(a, s, agents, w) is Some,
{
}

/// While no deposit task is outstanding and a delivery point has room,
/// a delivering agent takes the deposit slot.
pub proof fn lemma_deposit_taken(a: Agent, s: Seq<(u64, Assignment)>, agents: Seq<Agent>, w: World)
    requires
        a.carried > 0,
        !some_deposit(s),
        deposit_target_exists(w),
    ensures
        match assign_choice(a, s, agents, w) {
            Some(t) => t is Deposit,
            None => false,
        },
{
}

// ---------------------------------------------------------------------------
// Executable assigner
// ---------------------------------------------------------------------------
fn find_unclaimed_from(
    ss: &Vec<Source>,
    store: &AssignmentStore,
    agents: &Vec<Agent>,
    i: usize,
) -> (r: Option<Source>)
    requires
        i <= ss@.len(),
    ensures
        r == unclaimed_from(ss@, store@, agents@, i as int),
    decreases ss@.len() - i,
{
    if i >= ss.len() {
        None
    } else if !store.node_is_claimed(agents, ss[i].id) {
        Some(ss[i])
    } else {
        find_unclaimed_from(ss, store, agents, i + 1)
    }
}

/// First active node not claimed by any live agent.
pub fn find_unclaimed(ss: &Vec<Source>, store: &AssignmentStore, agents: &Vec<Agent>) -> (r:
    Option<Source>)
    ensures
        r == first_unclaimed(ss@, store@, agents@),
{
    find_unclaimed_from(ss, store, agents, 0)
}

/// Select a new task for one idle agent, record it, and hand back the
/// commands to issue for an agent that stays idle (self-termination of
/// a surplus gatherer, road vacating). An agent that already holds a
/// task is left untouched.
pub fn assign_step(store: &mut AssignmentStore, a: &Agent, agents: &Vec<Agent>, w: &World) -> (cmds:
    Vec<Command>)
    requires
        old(store).wf(),
    ensures
        final(store).wf(),
        contains_agent(old(store)@, a.id) ==> final(store)@ == old(store)@ && cmds@.len() == 0,
        !contains_agent(old(store)@, a.id) ==> match assign_choice(*a, old(store)@, agents@, *w) {
            Some(t) => final(store)@ == old(store)@.push((a.id, t)) && cmds@.len() == 0,
            None => final(store)@ == old(store)@ && cmds@ == idle_cmds(
                *a,
                old(store)@,
                agents@,
                *w,
            ),
        },
{
    let mut cmds: Vec<Command> = Vec::new();
    if store.contains(a.id) {
        return cmds;
    }
    if a.carried > 0 {
        if !store.any_deposit() {
            if let Some(e) = find_best_fill(&w.structures, StructureKind::Extension) {
                store.insert(a.id, Assignment::Deposit(e.pos));
                return cmds;
            }
            if let Some(e) = find_best_fill(&w.structures, StructureKind::Spawn) {
                store.insert(a.id, Assignment::Deposit(e.pos));
                return cmds;
            }
            if let Some(e) = find_best_fill(&w.structures, StructureKind::Tower) {
                store.insert(a.id, Assignment::Deposit(e.pos));
                return cmds;
            }
        }
        let construct_held = store.any_construct();
        if let Some(st) = find_best_site(&w.sites, SiteTier::Defensive) {
            if !construct_held && is_live(agents, a.id) {
                store.insert(a.id, Assignment::Construct(st.pos));
                return cmds;
            }
        }
        if !construct_held {
            if let Some(st) = find_best_site(&w.sites, SiteTier::Container) {
                store.insert(a.id, Assignment::Construct(st.pos));
                return cmds;
            }
            if let Some(st) = find_best_site(&w.sites, SiteTier::Extension) {
                store.insert(a.id, Assignment::Construct(st.pos));
                return cmds;
            }
            if let Some(st) = find_best_site(&w.sites, SiteTier::Other) {
                store.insert(a.id, Assignment::Construct(st.pos));
                return cmds;
            }
        }
        if !store.any_live_repair(agents) {
            if let Some(st) = find_best_repair(&w.structures) {
                store.insert(a.id, Assignment::Repair(st.pos));
                return cmds;
            }
        }
        if let Some(c) = find_controller(&w.structures) {
            store.insert(a.id, Assignment::Upgrade(c.id));
            return cmds;
        }
        cmds
    } else {
        if a.has_carry {
            if let Some(c) = find_best_stock(&w.structures, a.capacity) {
                store.insert(a.id, Assignment::Withdraw(c.id));
                return cmds;
            }
            if let Some(d) = find_best_pile(&w.dropped, a.capacity) {
                store.insert(a.id, Assignment::Pickup(d.pos));
                return cmds;
            }
        } else {
            if let Some(src) = find_unclaimed(&w.sources, store, agents) {
                store.insert(a.id, Assignment::Harvest(src.id));
                return cmds;
            }
            cmds.push(Command::SelfTerminate);
        }
        if is_road_at(&w.structures, a.pos) {
            if let Some(p) = find_vacate_target(&w.structures, a.pos) {
                cmds.push(Command::MoveToPos(p));
            }
        }
        cmds
    }
}

/// One full assigner pass: every agent without an entry is offered a new
/// task, in population order, against the store as it stands at its
/// turn. Returns the commands to issue, paired with their agents.
///
/// The contract carries the pass's laws: entries already present survive
/// untouched; every new entry belongs to an agent of this population
/// that was idle before the pass; each exclusivity invariant (at most
/// one deposit, one construct, one live repairer, one live harvester per
/// node) is preserved; an open deposit slot is taken as soon as some
/// delivering agent is idle; and no coverable agent is left idle.
pub fn run_assigner(store: &mut AssignmentStore, agents: &Vec<Agent>, w: &World) -> (cmds: Vec<
    (u64, Command),
>)
    requires
        old(store).wf(),
        forall|k1: int, k2: int|
            0 <= k1 < k2 < agents@.len() ==> (#[trigger] agents@[k1]).id != (
            #[trigger] agents@[k2]).id,
    ensures
        final(store).wf(),
        final(store)@.len() >= old(store)@.len(),
        forall|i: int| 0 <= i < old(store)@.len() ==> final(store)@[i] == old(store)@[i],
        forall|id: u64, t: Assignment|
            #[trigger] has_task(old(store)@, id, t) ==> has_task(final(store)@, id, t),
        forall|i: int|
            old(store)@.len() <= i < final(store)@.len() ==> live(
                agents@,
                (#[trigger] final(store)@[i]).0,
            ) && !contains_agent(old(store)@, final(store)@[i].0),
        crate::store::deposit_at_most_one(old(store)@) ==> crate::store::deposit_at_most_one(
            final(store)@,
        ),
        crate::store::construct_at_most_one(old(store)@) ==> crate::store::construct_at_most_one(
            final(store)@,
        ),
        crate::store::live_repair_at_most_one(old(store)@, agents@)
            ==> crate::store::live_repair_at_most_one(final(store)@, agents@),
        crate::store::harvest_at_most_one_per_node(old(store)@, agents@)
            ==> crate::store::harvest_at_most_one_per_node(final(store)@, agents@),
        (!some_deposit(old(store)@) && deposit_target_exists(*w) && (exists|k: int|
            0 <= k < agents@.len() && (#[trigger] agents@[k]).carried > 0 && !contains_agent(
                old(store)@,
                agents@[k].id,
            ))) ==> some_deposit(final(store)@),
        forall|k: int|
            0 <= k < agents@.len() && !contains_agent(old(store)@, (#[trigger] agents@[k]).id)
                ==> pass_covers(agents@[k], final(store)@, cmds@, *w),
{
    let mut cmds: Vec<(u64, Command)> = Vec::new();
    let n = agents.len();
    let mut k: usize = 0;
    while k < n
        invariant
            store.wf(),
            n == agents@.len(),
            k <= n,
            forall|k1: int, k2: int|
                0 <= k1 < k2 < agents@.len() ==> (#[trigger] agents@[k1]).id != (
                #[trigger] agents@[k2]).id,
            store@.len() >= old(store)@.len(),
            forall|i: int| 0 <= i < old(store)@.len() ==> store@[i] == old(store)@[i],
            forall|i: int|
                old(store)@.len() <= i < store@.len() ==> !contains_agent(
                    old(store)@,
                    (#[trigger] store@[i]).0,
                ) && (exists|j: int| 0 <= j < k && store@[i].0 == agents@[j].id),
            crate::store::deposit_at_most_one(old(store)@) ==> crate::store::deposit_at_most_one(
                store@,
            ),
            crate::store::construct_at_most_one(old(store)@)
                ==> crate::store::construct_at_most_one(store@),
            crate::store::live_repair_at_most_one(old(store)@, agents@)
                ==> crate::store::live_repair_at_most_one(store@, agents@),
            crate::store::harvest_at_most_one_per_node(old(store)@, agents@)
                ==> crate::store::harvest_at_most_one_per_node(store@, agents@),
            (!some_deposit(old(store)@) && deposit_target_exists(*w) && (exists|k2: int|
                0 <= k2 < k && (#[trigger] agents@[k2]).carried > 0 && !contains_agent(
                    old(store)@,
                    agents@[k2].id,
                ))) ==> some_deposit(store@),
            forall|k2: int|
                0 <= k2 < k && !contains_agent(old(store)@, (#[trigger] agents@[k2]).id)
                    ==> pass_covers(agents@[k2], store@, cmds@, *w),
        decreases n - k,
    {
        let a = agents[k];
        let ghost pre = store@;
        let ghost pre_cmds = cmds@;
        proof {
            if !contains_agent(old(store)@, a.id) {
                assert forall|i: int| 0 <= i < pre.len() implies (#[trigger] pre[i]).0 != a.id by {
                    if i < old(store)@.len() {
                        assert(pre[i] == old(store)@[i]);
                        assert(contains_agent(old(store)@, pre[i].0) || pre[i].0 != a.id);
                    } else {
                        let j = choose|j: int| 0 <= j < k && pre[i].0 == agents@[j].id;
                        assert(agents@[j].id != agents@[k as int].id);
                    }
                }
            }
        }
        let step_cmds = assign_step(store, &a, agents, w);
        if step_cmds.len() > 0 {
            cmds.push((a.id, step_cmds[0]));
        }
        if step_cmds.len() > 1 {
            cmds.push((a.id, step_cmds[1]));
        }
        proof {
            if !contains_agent(old(store)@, a.id) {
                assert(!contains_agent(pre, a.id));
                match assign_choice(a, pre, agents@, *w) {
                    Some(t) => {
                        assert(store@ == pre.push((a.id, t)));
                        if crate::store::deposit_at_most_one(old(store)@) {
                            if t is Deposit {
                                lemma_choice_deposit_gate(a, pre, agents@, *w, t);
                            }
                            crate::store::lemma_push_keeps_deposit_excl(pre, a.id, t);
                        }
                        if crate::store::construct_at_most_one(old(store)@) {
                            if t is Construct {
                                lemma_choice_construct_gate(a, pre, agents@, *w, t);
                            }
                            crate::store::lemma_push_keeps_construct_excl(pre, a.id, t);
                        }
                        if crate::store::live_repair_at_most_one(old(store)@, agents@) {
                            if t is Repair {
                                lemma_choice_repair_gate(a, pre, agents@, *w, t);
                            }
                            crate::store::lemma_push_keeps_repair_excl(pre, agents@, a.id, t);
                        }
                        if crate::store::harvest_at_most_one_per_node(old(store)@, agents@) {
                            assert forall|n2: u64| t == Assignment::Harvest(n2) implies
                                !node_claimed(pre, agents@, n2) by {
                                lemma_choice_harvest_gate(a, pre, agents@, *w, n2);
                            }
                            crate::store::lemma_push_keeps_harvest_excl(pre, agents@, a.id, t);
                        }
                        assert(contains_agent(store@, a.id)) by {
                            assert(store@[store@.len() - 1].0 == a.id);
                        }
                    },
                    None => {
                        assert(store@ == pre);
                        if a.carried > 0 && first_controller(w.structures@) is Some {
                            lemma_deliver_some(a, pre, agents@, *w);
                        }
                        if a.carried == 0 && a.has_carry && (best_stock(
                            w.structures@,
                            a.capacity,
                        ) is Some || best_pile(w.dropped@, a.capacity) is Some) {
                            lemma_gather_some(a, pre, agents@, *w);
                        }
                        if a.carried == 0 && !a.has_carry {
                            assert(wants_cull(a, pre, agents@, *w));
                            assert(step_cmds@ == idle_cmds(a, pre, agents@, *w));
                            assert(step_cmds@[0] == Command::SelfTerminate);
                            assert(cmds@.contains((a.id, Command::SelfTerminate))) by {
                                if step_cmds@.len() > 1 {
                                    assert(cmds@[cmds@.len() - 2] == (
                                        a.id,
                                        Command::SelfTerminate,
                                    ));
                                } else {
                                    assert(cmds@[cmds@.len() - 1] == (
                                        a.id,
                                        Command::SelfTerminate,
                                    ));
                                }
                            }
                        }
                    },
                }
                // the deposit-slot invariant, new witness case
                if !some_deposit(old(store)@) && deposit_target_exists(*w) && a.carried > 0 {
                    if some_deposit(pre) {
                        let i = choose|i: int| 0 <= i < pre.len() && pre[i].1 is Deposit;
                        assert(store@[i] == pre[i]);
                        assert(some_deposit(store@));
                    } else {
                        lemma_deposit_taken(a, pre, agents@, *w);
                        assert(some_deposit(store@)) by {
                            assert(store@[store@.len() - 1].1 is Deposit);
                        }
                    }
                }
            } else {
                assert(store@ == pre);
            }
            // earlier some_deposit witnesses survive
            if some_deposit(pre) {
                let i = choose|i: int| 0 <= i < pre.len() && pre[i].1 is Deposit;
                assert(store@[i] == pre[i]);
                assert(some_deposit(store@));
            }
            // earlier coverage survives appends
            assert forall|k2: int|
                0 <= k2 < k && !contains_agent(old(store)@, (#[trigger] agents@[k2]).id) implies
                pass_covers(agents@[k2], store@, cmds@, *w) by {
                let b = agents@[k2];
                assert(pass_covers(b, pre, pre_cmds, *w));
                if contains_agent(pre, b.id) {
                    let i = choose|i: int| 0 <= i < pre.len() && pre[i].0 == b.id;
                    assert(store@[i] == pre[i]);
                    assert(contains_agent(store@, b.id));
                }
                if pre_cmds.contains((b.id, Command::SelfTerminate)) {
                    let i = choose|i: int|
                        0 <= i < pre_cmds.len() && pre_cmds[i] == (b.id, Command::SelfTerminate);
                    assert(cmds@[i] == pre_cmds[i]);
                    assert(cmds@.contains((b.id, Command::SelfTerminate)));
                }
            }
        }
        k = k + 1;
    }
    cmds
}

} // verus!
