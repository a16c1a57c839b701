use vstd::prelude::*;
use crate::geom::Pos;
use crate::model::Agent;

verus! {

/// A persisted task descriptor. Position-keyed variants re-derive their
/// concrete target by spatial lookup each tick; id-keyed variants
/// re-resolve a live handle by id each tick.
#[derive(Clone, Copy, PartialEq, Eq, Structural, Debug)]
pub enum Assignment {
    Construct(Pos),
    Pickup(Pos),
    Repair(Pos),
    Deposit(Pos),
    Harvest(u64),
    Upgrade(u64),
    Withdraw(u64),
}

/// An agent id is live when it names a member of this tick's population.
pub open spec fn live(agents: Seq<Agent>, id: u64) -> bool {
    exists|i: int| 0 <= i < agents.len() && agents[i].id == id
}

/// Keys are unique: at most one entry per agent.
pub open spec fn wf_entries(s: Seq<(u64, Assignment)>) -> bool {
    forall|i: int, j: int| 0 <= i < j < s.len() ==> #[trigger] s[i].0 != #[trigger] s[j].0
}

/// The agent has some entry.
pub open spec fn contains_agent(s: Seq<(u64, Assignment)>, id: u64) -> bool {
    exists|i: int| 0 <= i < s.len() && (#[trigger] s[i]).0 == id
}

/// The agent's entry holds the given assignment.
pub open spec fn has_task(s: Seq<(u64, Assignment)>, id: u64, t: Assignment) -> bool {
    exists|i: int| 0 <= i < s.len() && #[trigger] s[i] == (id, t)
}

/// Some entry (live or not) holds a `Deposit` task.
pub open spec fn some_deposit(s: Seq<(u64, Assignment)>) -> bool {
    exists|i: int| 0 <= i < s.len() && (#[trigger] s[i]).1 is Deposit
}

/// Some entry (live or not) holds a `Construct` task.
pub open spec fn some_construct(s: Seq<(u64, Assignment)>) -> bool {
    exists|i: int| 0 <= i < s.len() && (#[trigger] s[i]).1 is Construct
}

/// Some live agent holds a `Repair` task.
pub open spec fn some_live_repair(s: Seq<(u64, Assignment)>, agents: Seq<Agent>) -> bool {
    exists|i: int| 0 <= i < s.len() && (#[trigger] s[i]).1 is Repair && live(agents, s[i].0)
}

/// Some live agent holds `Harvest(node)`.
pub open spec fn node_claimed(s: Seq<(u64, Assignment)>, agents: Seq<Agent>, node: u64) -> bool {
    exists|i: int| 0 <= i < s.len() && #[trigger] s[i].1 == Assignment::Harvest(node) && live(
        agents,
        s[i].0,
    )
}

/// At most one entry holds a `Deposit` task.
pub open spec fn deposit_at_most_one(s: Seq<(u64, Assignment)>) -> bool {
    forall|i: int, j: int|
        0 <= i < s.len() && 0 <= j < s.len() && (#[trigger] s[i]).1 is Deposit
            && (#[trigger] s[j]).1 is Deposit ==> i == j
}

/// At most one entry holds a `Construct` task.
pub open spec fn construct_at_most_one(s: Seq<(u64, Assignment)>) -> bool {
    forall|i: int, j: int|
        0 <= i < s.len() && 0 <= j < s.len() && (#[trigger] s[i]).1 is Construct
            && (#[trigger] s[j]).1 is Construct ==> i == j
}

/// At most one live agent holds a `Repair` task.
pub open spec fn live_repair_at_most_one(s: Seq<(u64, Assignment)>, agents: Seq<Agent>) -> bool {
    forall|i: int, j: int|
        0 <= i < s.len() && 0 <= j < s.len() && (#[trigger] s[i]).1 is Repair
            && (#[trigger] s[j]).1 is Repair && live(agents, s[i].0) && live(agents, s[j].0) ==> i
            == j
}

/// For each node, at most one live agent holds `Harvest` of it.
pub open spec fn harvest_at_most_one_per_node(
    s: Seq<(u64, Assignment)>,
    agents: Seq<Agent>,
) -> bool {
    forall|i: int, j: int|
        0 <= i < s.len() && 0 <= j < s.len() && (#[trigger] s[i]).1 is Harvest && (
        #[trigger] s[j]).1 == s[i].1 && live(agents, s[i].0) && live(agents, s[j].0) ==> i == j
}

/// The mapping from agent identity to its current task: the only state
/// that persists across ticks.
pub struct AssignmentStore {
    entries: Vec<(u64, Assignment)>,
}

impl AssignmentStore {
    pub closed spec fn view(&self) -> Seq<(u64, Assignment)> {
        self.entries@
    }

    /// Keys unique; established at construction and preserved by every
    /// mutating operation.
    pub open spec fn wf(&self) -> bool {
        wf_entries(self@)
    }

    pub fn new() -> (r: AssignmentStore)
        ensures
            r@ == Seq::<(u64, Assignment)>::empty(),
            r.wf(),
    {
        AssignmentStore { entries: Vec::new() }
    }

    pub fn len(&self) -> (r: usize)
        ensures
            r == self@.len(),
    {
        self.entries.len()
    }

    /// Entry at an index, for read-only enumeration.
    pub fn entry_at(&self, i: usize) -> (r: (u64, Assignment))
        requires
            i < self@.len(),
        ensures
            r == self@[i as int],
    {
        self.entries[i]
    }

    pub fn contains(&self, id: u64) -> (r: bool)
        ensures
            r == contains_agent(self@, id),
    {
        let n = self.entries.len();
        let mut i: usize = 0;
        while i < n
            invariant
                n == self@.len(),
                i <= n,
                forall|j: int| 0 <= j < i ==> (#[trigger] self@[j]).0 != id,
            decreases n - i,
        {
            if self.entries[i].0 == id {
                return true;
            }
            i = i + 1;
        }
        false
    }

    /// The task currently held by the agent, if any.
    pub fn get(&self, id: u64) -> (r: Option<Assignment>)
        ensures
            match r {
                Some(t) => has_task(self@, id, t),
                None => !contains_agent(self@, id),
            },
    {
        let n = self.entries.len();
        let mut i: usize = 0;
        while i < n
            invariant
                n == self@.len(),
                i <= n,
                forall|j: int| 0 <= j < i ==> (#[trigger] self@[j]).0 != id,
            decreases n - i,
        {
            if self.entries[i].0 == id {
                return Some(self.entries[i].1);
            }
            i = i + 1;
        }
        None
    }

    /// Record a task for an agent that has none.
    pub fn insert(&mut self, id: u64, t: Assignment)
        requires
            !contains_agent(old(self)@, id),
        ensures
            final(self)@ == old(self)@.push((id, t)),
            old(self).wf() ==> final(self).wf(),
    {
        self.entries.push((id, t));
        assert(old(self).wf() ==> self.wf()) by {
            if old(self).wf() {
                assert forall|i: int, j: int| 0 <= i < j < self@.len() implies (
                #[trigger] self@[i]).0 != (#[trigger] self@[j]).0 by {
                    if j == self@.len() - 1 {
                        assert(contains_agent(old(self)@, self@[i].0) || self@[i].0 != id);
                    }
                }
            }
        }
    }

    /// Remove the agent's entry, if present. Entries of other agents are
    /// untouched; no entry is added.
    pub fn remove(&mut self, id: u64)
        requires
            old(self).wf(),
        ensures
            final(self).wf(),
            !contains_agent(final(self)@, id),
            forall|a: u64, t: Assignment|
                a != id ==> (has_task(final(self)@, a, t) <==> has_task(old(self)@, a, t)),
            forall|e: (u64, Assignment)| final(self)@.contains(e) ==> old(self)@.contains(e),
            final(self)@.len() == if contains_agent(old(self)@, id) {
                old(self)@.len() - 1
            } else {
                old(self)@.len() as int
            },
    {
        let n = self.entries.len();
        let mut i: usize = 0;
        while i < n
            invariant
                n == self@.len(),
                i <= n,
                self@ == old(self)@,
                wf_entries(old(self)@),
                forall|j: int| 0 <= j < i ==> (#[trigger] self@[j]).0 != id,
            decreases n - i,
        {
            if self.entries[i].0 == id {
                let ghost pre = self@;
                self.entries.remove(i);
                proof {
                    assert(self@ == pre.subrange(0, i as int) + pre.subrange(
                        i + 1,
                        pre.len() as int,
                    ));
                    assert forall|k: int| 0 <= k < self@.len() implies #[trigger] self@[k]
                        == if k < i {
                        pre[k]
                    } else {
                        pre[k + 1]
                    } by {}
                    assert(wf_entries(self@)) by {
                        assert forall|a: int, b: int| 0 <= a < b < self@.len() implies (
                        #[trigger] self@[a]).0 != (#[trigger] self@[b]).0 by {
                            let a2: int = if a < i {
                                a
                            } else {
                                a + 1
                            };
                            let b2: int = if b < i {
                                b
                            } else {
                                b + 1
                            };
                            assert(pre[a2].0 != pre[b2].0);
                        }
                    }
                    assert(!contains_agent(self@, id)) by {
                        assert forall|k: int| 0 <= k < self@.len() implies (#[trigger] self@[k]).0
                            != id by {
                            if k >= i {
                                assert(pre[k + 1].0 != pre[i as int].0);
                            }
                        }
                    }
                    assert forall|a: u64, t: Assignment| a != id implies (has_task(self@, a, t)
                        <==> has_task(pre, a, t)) by {
                        if has_task(self@, a, t) {
                            let k = choose|k: int| 0 <= k < self@.len() && self@[k] == (a, t);
                            if k < i {
                                assert(pre[k] == (a, t));
                            } else {
                                assert(pre[k + 1] == (a, t));
                            }
                        }
                        if has_task(pre, a, t) {
                            let k = choose|k: int| 0 <= k < pre.len() && pre[k] == (a, t);
                            if k < i {
                                assert(self@[k] == (a, t));
                            } else {
                                assert(k != i);
                                assert(self@[k - 1] == (a, t));
                            }
                        }
                    }
                    assert forall|e: (u64, Assignment)| self@.contains(e) implies pre.contains(
                        e,
                    ) by {
                        let k = choose|k: int| 0 <= k < self@.len() && self@[k] == e;
                        if k < i {
                            assert(pre[k] == e);
                        } else {
                            assert(pre[k + 1] == e);
                        }
                    }
                }
                return ;
            }
            i = i + 1;
        }
    }

    /// Whether any entry holds a `Deposit` task.
    pub fn any_deposit(&self) -> (r: bool)
        ensures
            r == some_deposit(self@),
    {
        let n = self.entries.len();
        let mut i: usize = 0;
        while i < n
            invariant
                n == self@.len(),
                i <= n,
                forall|j: int| 0 <= j < i ==> !((#[trigger] self@[j]).1 is Deposit),
            decreases n - i,
        {
            if matches!(self.entries[i].1, Assignment::Deposit(_)) {
                return true;
            }
            i = i + 1;
        }
        false
    }

    /// Whether any entry holds a `Construct` task.
    pub fn any_construct(&self) -> (r: bool)
        ensures
            r == some_construct(self@),
    {
        let n = self.entries.len();
        let mut i: usize = 0;
        while i < n
            invariant
                n == self@.len(),
                i <= n,
                forall|j: int| 0 <= j < i ==> !((#[trigger] self@[j]).1 is Construct),
            decreases n - i,
        {
            if matches!(self.entries[i].1, Assignment::Construct(_)) {
                return true;
            }
            i = i + 1;
        }
        false
    }

    /// Whether any live agent holds a `Repair` task.
    pub fn any_live_repair(&self, agents: &Vec<Agent>) -> (r: bool)
        ensures
            r == some_live_repair(self@, agents@),
    {
        let n = self.entries.len();
        let mut i: usize = 0;
        while i < n
            invariant
                n == self@.len(),
                i <= n,
                forall|j: int|
                    0 <= j < i ==> !((#[trigger] self@[j]).1 is Repair && live(
                        agents@,
                        self@[j].0,
                    )),
            decreases n - i,
        {
            if matches!(self.entries[i].1, Assignment::Repair(_)) {
                if is_live(agents, self.entries[i].0) {
                    return true;
                }
            }
            i = i + 1;
        }
        false
    }

    /// Whether some live agent holds `Harvest(node)`.
    pub fn node_is_claimed(&self, agents: &Vec<Agent>, node: u64) -> (r: bool)
        ensures
            r == node_claimed(self@, agents@, node),
    {
        let n = self.entries.len();
        let mut i: usize = 0;
        while i < n
            invariant
                n == self@.len(),
                i <= n,
                forall|j: int|
                    0 <= j < i ==> !(#[trigger] self@[j].1 == Assignment::Harvest(node) && live(
                        agents@,
                        self@[j].0,
                    )),
            decreases n - i,
        {
            let claims = match self.entries[i].1 {
                Assignment::Harvest(n2) => n2 == node,
                _ => false,
            };
            if claims {
                if is_live(agents, self.entries[i].0) {
                    return true;
                }
            }
            i = i + 1;
        }
        false
    }
}

/// With unique keys, an agent's entry determines its task.
pub proof fn lemma_task_unique(s: Seq<(u64, Assignment)>, id: u64, t1: Assignment, t2: Assignment)
    requires
        wf_entries(s),
        has_task(s, id, t1),
        has_task(s, id, t2),
    ensures
        t1 == t2,
{
    let i1 = choose|i: int| 0 <= i < s.len() && s[i] == (id, t1);
    let i2 = choose|i: int| 0 <= i < s.len() && s[i] == (id, t2);
    if i1 != i2 {
        assert(s[i1].0 != s[i2].0);
    }
}

/// Recording a `Deposit` only while none is held keeps the deposit
/// exclusivity invariant.
pub proof fn lemma_push_keeps_deposit_excl(s: Seq<(u64, Assignment)>, id: u64, t: Assignment)
    requires
        deposit_at_most_one(s),
        t is Deposit ==> !some_deposit(s),
    ensures
        deposit_at_most_one(s.push((id, t))),
{
    let s2 = s.push((id, t));
    assert forall|i: int, j: int|
        0 <= i < s2.len() && 0 <= j < s2.len() && (#[trigger] s2[i]).1 is Deposit && (
        #[trigger] s2[j]).1 is Deposit implies i == j by {
        if i < s.len() {
            assert(s2[i] == s[i]);
        }
        if j < s.len() {
            assert(s2[j] == s[j]);
        }
    }
}

/// Recording a `Construct` only while none is held keeps the construct
/// exclusivity invariant.
pub proof fn lemma_push_keeps_construct_excl(s: Seq<(u64, Assignment)>, id: u64, t: Assignment)
    requires
        construct_at_most_one(s),
        t is Construct ==> !some_construct(s),
    ensures
        construct_at_most_one(s.push((id, t))),
{
    let s2 = s.push((id, t));
    assert forall|i: int, j: int|
        0 <= i < s2.len() && 0 <= j < s2.len() && (#[trigger] s2[i]).1 is Construct && (
        #[trigger] s2[j]).1 is Construct implies i == j by {
        if i < s.len() {
            assert(s2[i] == s[i]);
        }
        if j < s.len() {
            assert(s2[j] == s[j]);
        }
    }
}

/// Recording a `Repair` only while no live agent holds one keeps the
/// liveness-qualified repair exclusivity invariant.
pub proof fn lemma_push_keeps_repair_excl(
    s: Seq<(u64, Assignment)>,
    agents: Seq<Agent>,
    id: u64,
    t: Assignment,
)
    requires
        live_repair_at_most_one(s, agents),
        t is Repair ==> !some_live_repair(s, agents),
    ensures
        live_repair_at_most_one(s.push((id, t)), agents),
{
    let s2 = s.push((id, t));
    assert forall|i: int, j: int|
        0 <= i < s2.len() && 0 <= j < s2.len() && (#[trigger] s2[i]).1 is Repair && (
        #[trigger] s2[j]).1 is Repair && live(agents, s2[i].0) && live(agents, s2[j].0) implies i
        == j by {
        if i < s.len() {
            assert(s2[i] == s[i]);
        }
        if j < s.len() {
            assert(s2[j] == s[j]);
        }
    }
}

/// Recording a `Harvest` of a node only while no live agent claims that
/// node keeps the per-node harvest exclusivity invariant.
pub proof fn lemma_push_keeps_harvest_excl(
    s: Seq<(u64, Assignment)>,
    agents: Seq<Agent>,
    id: u64,
    t: Assignment,
)
    requires
        harvest_at_most_one_per_node(s, agents),
        forall|n: u64| t == Assignment::Harvest(n) ==> !node_claimed(s, agents, n),
    ensures
        harvest_at_most_one_per_node(s.push((id, t)), agents),
{
    let s2 = s.push((id, t));
    assert forall|i: int, j: int|
        0 <= i < s2.len() && 0 <= j < s2.len() && (#[trigger] s2[i]).1 is Harvest && (
        #[trigger] s2[j]).1 == s2[i].1 && live(agents, s2[i].0) && live(agents, s2[j].0) implies i
        == j by {
        if i < s.len() {
            assert(s2[i] == s[i]);
        }
        if j < s.len() {
            assert(s2[j] == s[j]);
        }
        if i < s.len() && j == s.len() {
            let n = s2[i].1->Harvest_0;
            assert(s[i].1 == Assignment::Harvest(n));
            assert(node_claimed(s, agents, n));
        }
        if j < s.len() && i == s.len() {
            let n = s2[j].1->Harvest_0;
            assert(s[j].1 == Assignment::Harvest(n));
            assert(node_claimed(s, agents, n));
        }
    }
}

/// Whether an agent id names a member of this tick's population.
pub fn is_live(agents: &Vec<Agent>, id: u64) -> (r: bool)
    ensures
        r == live(agents@, id),
{
    let n = agents.len();
    let mut i: usize = 0;
    while i < n
        invariant
            n == agents@.len(),
            i <= n,
            forall|j: int| 0 <= j < i ==> (#[trigger] agents@[j]).id != id,
        decreases n - i,
    {
        if agents[i].id == id {
            return true;
        }
        i = i + 1;
    }
    false
}

} // verus!
