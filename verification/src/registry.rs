use vstd::prelude::*;

use crate::agent::Agent;
use crate::config::AgentConfig;
use crate::errors::CoreError;
use crate::ids::AgentId;

verus! {

/// The authoritative identifier-to-agent table. It alone owns the agents;
/// entries are added only by the create path and never removed, and a
/// duplicate identifier is rejected, never overwritten.
///
/// The table is keyed by agent identifier only — there is no owner-to-agent
/// index. The policy is deliberately one owner, many agents: a second create
/// for the same owner registers a second, independent agent, and callers
/// that need "the" agent of an owner track the returned identifier
/// themselves.
pub struct Registry {
    /// The registered agents. Each one carries the identifier it is held
    /// under; well-formedness says those identifiers are pairwise distinct.
    pub agents: Vec<Agent>,
}

/// `post` is `pre` with exactly one new agent appended: registered under
/// `id`, which `pre` did not hold, owned by `owner`, initialized with
/// `config` and an empty inbox. Every agent of `pre` is still there,
/// untouched and in place, so the count grew by exactly one.
pub open spec fn created(
    pre: Registry,
    post: Registry,
    id: AgentId,
    owner: String,
    config: AgentConfig,
) -> bool {
    &&& !pre.contains_id(id)
    &&& post.agents@.len() == pre.agents@.len() + 1
    &&& post.agents@.subrange(0, pre.agents@.len() as int) == pre.agents@
    &&& post.agents@.last().id == id
    &&& post.agents@.last().owner == owner
    &&& post.agents@.last().config == config
    &&& post.agents@.last().inbox@ == Seq::<crate::agent::AgentMessage>::empty()
    &&& post.contains_id(id)
}

impl Registry {
    /// The table's one invariant: no identifier appears twice.
    pub open spec fn wf(self) -> bool {
        forall|i: int, j: int|
            0 <= i < j < self.agents@.len() ==> self.agents@[i].id != self.agents@[j].id
    }

    /// Whether some agent is registered under `id`.
    pub open spec fn contains_id(self, id: AgentId) -> bool {
        exists|i: int| 0 <= i < self.agents@.len() && self.agents@[i].id == id
    }

    /// The position of the agent registered under `id`. Meaningful only
    /// when `contains_id(id)` holds; unique by well-formedness.
    pub open spec fn index_of(self, id: AgentId) -> int {
        choose|i: int| 0 <= i < self.agents@.len() && self.agents@[i].id == id
    }

    /// The agent registered under `id`.
    pub open spec fn agent_of(self, id: AgentId) -> Agent {
        self.agents@[self.index_of(id)]
    }

    /// In a well-formed table, any position holding `id` is the position
    /// `index_of(id)` names.
    pub proof fn lemma_index_of_unique(self, id: AgentId, i: int)
        requires
            self.wf(),
            0 <= i < self.agents@.len(),
            self.agents@[i].id == id,
        ensures
            self.index_of(id) == i,
            self.contains_id(id),
    {
        assert(self.contains_id(id));
        let j = self.index_of(id);
        if i < j {
            assert(self.agents@[i].id != self.agents@[j].id);
        } else if j < i {
            assert(self.agents@[j].id != self.agents@[i].id);
        }
    }

    /// An empty, well-formed table.
    pub fn new() -> (r: Registry)
        ensures
            r.agents@ == Seq::<Agent>::empty(),
            r.wf(),
    {
        Registry { agents: Vec::new() }
    }

    /// How many agents are registered. A pure read.
    pub fn count(&self) -> (n: usize)
        ensures
            n == self.agents@.len(),
    {
        self.agents.len()
    }

    /// The position of the agent registered under `id`, or `None` when no
    /// agent is. A pure read; never creates.
    pub fn find(&self, id: AgentId) -> (r: Option<usize>)
        requires
            self.wf(),
        ensures
            match r {
                Some(i) => self.contains_id(id) && i == self.index_of(id) && i
                    < self.agents@.len(),
                None => !self.contains_id(id),
            },
    {
        let n = self.agents.len();
        let mut i: usize = 0;
        while i < n
            invariant
                self.wf(),
                i <= n == self.agents@.len(),
                forall|k: int| 0 <= k < i ==> self.agents@[k].id != id,
            decreases n - i,
        {
            if self.agents[i].id.bits == id.bits {
                proof {
                    self.lemma_index_of_unique(id, i as int);
                }
                return Some(i);
            }
            i = i + 1;
        }
        None
    }

    /// The agent registered under `id`, or `None` when no agent is.
    /// A pure read; never creates.
    pub fn lookup(&self, id: AgentId) -> (r: Option<&Agent>)
        requires
            self.wf(),
        ensures
            match r {
                Some(a) => self.contains_id(id) && *a == self.agent_of(id),
                None => !self.contains_id(id),
            },
    {
        match self.find(id) {
            Some(i) => Some(&self.agents[i]),
            None => None,
        }
    }

    /// Inserts a new agent under `id` as one indivisible check-and-insert
    /// step: if `id` is already taken the table is left exactly as it was
    /// and the clash is reported; otherwise the new agent, initialized with
    /// `config` and an empty inbox, is appended and `id` is returned. The
    /// count grows by exactly one on success.
    pub fn create_with_id(&mut self, id: AgentId, owner: String, config: AgentConfig) -> (r: Result<
        AgentId,
        CoreError,
    >)
        requires
            old(self).wf(),
        ensures
            final(self).wf(),
            old(self).contains_id(id) ==> r == Err::<AgentId, CoreError>(CoreError::DuplicateAgent)
                && *final(self) == *old(self),
            !old(self).contains_id(id) ==> r == Ok::<AgentId, CoreError>(id) && created(
                *old(self),
                *final(self),
                id,
                owner,
                config,
            ),
    {
        match self.find(id) {
            Some(_) => Err(CoreError::DuplicateAgent),
            None => {
                let agent = Agent::new(id, owner, config);
                self.agents.push(agent);
                proof {
                    let n = old(self).agents@.len() as int;
                    assert(self.agents@.subrange(0, n) =~= old(self).agents@);
                    assert(self.agents@[n].id == id);
                    assert(self.contains_id(id));
                    assert forall|i: int, j: int|
                        0 <= i < j < self.agents@.len() implies self.agents@[i].id
                        != self.agents@[j].id by {
                        if j < n {
                            assert(self.agents@[i] == old(self).agents@[i]);
                            assert(self.agents@[j] == old(self).agents@[j]);
                        } else {
                            assert(j == n);
                            assert(self.agents@[i] == old(self).agents@[i]);
                            assert(!old(self).contains_id(id));
                        }
                    }
                }
                Ok(id)
            },
        }
    }

    /// Creates an agent under a freshly drawn random identifier, as the
    /// one atomic check-and-insert of `create_with_id`. Whatever identifier
    /// the random source hands back: on success it was not yet registered,
    /// it is returned, and the count grows by exactly one; on a clash the
    /// duplicate is reported and the table is untouched. A clash takes an
    /// already registered identifier, so a create on an empty table always
    /// succeeds.
    pub fn create(&mut self, owner: String, config: AgentConfig) -> (r: Result<AgentId, CoreError>)
        requires
            old(self).wf(),
        ensures
            final(self).wf(),
            r matches Err(e) ==> e == CoreError::DuplicateAgent && *final(self) == *old(self),
            r is Err ==> old(self).agents@.len() > 0,
            r matches Ok(id) ==> created(*old(self), *final(self), id, owner, config),
    {
        let id = AgentId::fresh();
        self.create_with_id(id, owner, config)
    }
}

} // verus!
