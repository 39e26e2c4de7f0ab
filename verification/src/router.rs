use vstd::prelude::*;

use crate::agent::{Agent, AgentMessage};
use crate::config::AgentConfig;
use crate::errors::CoreError;
use crate::ids::{spec_id_text, AgentId};
use crate::registry::{created, Registry};

verus! {

/// Whether a broadcast aimed at `recipients` reaches the agent registered
/// under `id`: an empty recipient list means every registered agent, a
/// non-empty one only the agents it names. Identifiers it names that are
/// registered to nobody are silently skipped.
pub open spec fn is_broadcast_target(recipients: Seq<AgentId>, id: AgentId) -> bool {
    recipients.len() == 0 || recipients.contains(id)
}

/// `post` is `pre` with exactly one message `m` put at the back of the inbox
/// of the agent registered under `target`, and nothing else touched: every
/// other agent is exactly as it was, and the target keeps its identifier,
/// owner and configuration.
pub open spec fn dispatched(pre: Registry, post: Registry, target: AgentId, m: AgentMessage) -> bool {
    &&& pre.contains_id(target)
    &&& post.agents@.len() == pre.agents@.len()
    &&& forall|j: int|
        0 <= j < pre.agents@.len() && pre.agents@[j].id != target ==> post.agents@[j]
            == pre.agents@[j]
    &&& forall|j: int|
        0 <= j < pre.agents@.len() && pre.agents@[j].id == target ==> {
            &&& post.agents@[j].id == pre.agents@[j].id
            &&& post.agents@[j].owner == pre.agents@[j].owner
            &&& post.agents@[j].config == pre.agents@[j].config
            &&& post.agents@[j].inbox@ == pre.agents@[j].inbox@.push(m)
        }
}

/// `post` is `pre` with one broadcast of `message` aimed at `recipients`
/// applied: every registered agent the broadcast is aimed at has the notice
/// at the back of its inbox and is otherwise untouched, and every other
/// agent is exactly as it was.
pub open spec fn broadcast_applied(
    pre: Registry,
    post: Registry,
    message: String,
    recipients: Seq<AgentId>,
) -> bool {
    &&& post.agents@.len() == pre.agents@.len()
    &&& forall|j: int|
        0 <= j < pre.agents@.len() && !is_broadcast_target(recipients, pre.agents@[j].id)
            ==> post.agents@[j] == pre.agents@[j]
    &&& forall|j: int|
        0 <= j < pre.agents@.len() && is_broadcast_target(recipients, pre.agents@[j].id) ==> {
            &&& post.agents@[j].id == pre.agents@[j].id
            &&& post.agents@[j].owner == pre.agents@[j].owner
            &&& post.agents@[j].config == pre.agents@[j].config
            &&& post.agents@[j].inbox@ == pre.agents@[j].inbox@.push(
                AgentMessage::Notice { message },
            )
        }
}

/// The single coordination point. It owns the registry and translates each
/// external operation into a lookup or a creation there and a message to an
/// agent's inbox; agents never talk to each other.
pub struct Router {
    /// The one shared table, owned exclusively; all access is funnelled
    /// through the router's operations.
    pub registry: Registry,
}

impl Router {
    /// A router over an empty registry.
    pub fn new() -> (r: Router)
        ensures
            r.registry.agents@ == Seq::<Agent>::empty(),
            r.registry.wf(),
    {
        Router { registry: Registry::new() }
    }

    /// Creates one new agent and makes it reachable: delegates to the
    /// registry's atomic check-and-insert under a fresh random identifier.
    /// A clash takes an already registered identifier, so a create on an
    /// empty registry always succeeds.
    pub fn create_agent(&mut self, owner: String, config: AgentConfig) -> (r: Result<
        AgentId,
        CoreError,
    >)
        requires
            old(self).registry.wf(),
        ensures
            final(self).registry.wf(),
            r matches Err(e) ==> e == CoreError::DuplicateAgent && *final(self) == *old(self),
            r is Err ==> old(self).registry.agents@.len() > 0,
            r matches Ok(id) ==> created(old(self).registry, final(self).registry, id, owner, config),
    {
        self.registry.create(owner, config)
    }

    /// Routes one direct interaction. An unknown identifier is rejected
    /// immediately as `AgentNotFound`, with nothing changed and no external
    /// call started; a known one has the request put at the back of that
    /// agent's inbox — behind everything already waiting there — while every
    /// other agent is left exactly as it was.
    pub fn dispatch_interact(&mut self, target: AgentId, owner: String, query: String) -> (r:
        Result<(), CoreError>)
        requires
            old(self).registry.wf(),
        ensures
            final(self).registry.wf(),
            r is Ok <==> old(self).registry.contains_id(target),
            r matches Err(e) ==> e == CoreError::AgentNotFound && *final(self) == *old(self),
            r is Ok ==> dispatched(
                old(self).registry,
                final(self).registry,
                target,
                AgentMessage::Interact { owner, query },
            ),
    {
        match self.registry.find(target) {
            None => Err(CoreError::AgentNotFound),
            Some(i) => {
                let ghost pre = self.registry;
                let a = &mut self.registry.agents[i];
                a.enqueue(AgentMessage::Interact { owner, query });
                proof {
                    assert forall|j: int|
                        0 <= j < pre.agents@.len() && pre.agents@[j].id != target implies self
                        .registry.agents@[j] == pre.agents@[j] by {
                        assert(j != i as int);
                    }
                    assert forall|j: int|
                        0 <= j < pre.agents@.len() && pre.agents@[j].id == target implies j
                        == i as int by {
                        pre.lemma_index_of_unique(target, j);
                    }
                }
                Ok(())
            },
        }
    }

    /// Best-effort broadcast fan-out. Every registered agent the request is
    /// aimed at — all of them when `recipients` is empty, otherwise exactly
    /// those whose identifier the list names — gets the message at the back
    /// of its inbox; the others are untouched. Identifiers in the list that
    /// belong to no registered agent are skipped silently, and no delivery
    /// is acknowledged: the call reports nothing per agent.
    pub fn broadcast(&mut self, message: &String, recipients: &Vec<AgentId>)
        requires
            old(self).registry.wf(),
        ensures
            final(self).registry.wf(),
            broadcast_applied(old(self).registry, final(self).registry, *message, recipients@),
    {
        let n = self.registry.agents.len();
        let mut i: usize = 0;
        while i < n
            invariant
                old(self).registry.wf(),
                i <= n == old(self).registry.agents@.len(),
                self.registry.agents@.len() == old(self).registry.agents@.len(),
                forall|j: int|
                    0 <= j < old(self).registry.agents@.len() ==> self.registry.agents@[j].id
                        == old(self).registry.agents@[j].id,
                forall|j: int| i <= j < n ==> self.registry.agents@[j] == old(
                    self,
                ).registry.agents@[j],
                forall|j: int|
                    0 <= j < i && !is_broadcast_target(
                        recipients@,
                        old(self).registry.agents@[j].id,
                    ) ==> self.registry.agents@[j] == old(self).registry.agents@[j],
                forall|j: int|
                    0 <= j < i && is_broadcast_target(
                        recipients@,
                        old(self).registry.agents@[j].id,
                    ) ==> {
                        &&& self.registry.agents@[j].owner == old(self).registry.agents@[j].owner
                        &&& self.registry.agents@[j].config == old(self).registry.agents@[j].config
                        &&& self.registry.agents@[j].inbox@ == old(
                            self,
                        ).registry.agents@[j].inbox@.push(
                            AgentMessage::Notice { message: *message },
                        )
                    },
            decreases n - i,
        {
            let targeted = recipients.len() == 0 || id_listed(recipients, self.registry.agents[i].id);
            if targeted {
                let text = message.clone();
                let a = &mut self.registry.agents[i];
                a.enqueue(AgentMessage::Notice { message: text });
            }
            i = i + 1;
        }
        proof {
            assert(self.registry.wf()) by {
                assert forall|p: int, q: int|
                    0 <= p < q < self.registry.agents@.len() implies self.registry.agents@[p].id
                    != self.registry.agents@[q].id by {
                    assert(self.registry.agents@[p].id == old(self).registry.agents@[p].id);
                    assert(self.registry.agents@[q].id == old(self).registry.agents@[q].id);
                }
            }
        }
    }

    /// How many agents are registered. A pure read.
    pub fn count(&self) -> (n: usize)
        ensures
            n == self.registry.agents@.len(),
    {
        self.registry.count()
    }

    /// Reports whether the agent registered under `id` is active: a fixed
    /// sentence naming the identifier, or `AgentNotFound` when nobody is
    /// registered under it. A pure read.
    pub fn query_state(&self, id: AgentId) -> (r: Result<String, CoreError>)
        requires
            self.registry.wf(),
        ensures
            self.registry.contains_id(id) ==> (r matches Ok(s) && s@ == "Actor "@ + spec_id_text(
                id.bits,
            ) + " is active"@),
            !self.registry.contains_id(id) ==> r == Err::<String, CoreError>(
                CoreError::AgentNotFound,
            ),
    {
        match self.registry.find(id) {
            None => Err(CoreError::AgentNotFound),
            Some(_) => {
                let mut s = String::from_str("Actor ");
                let text = id.render();
                s.append(text.as_str());
                s.append(" is active");
                Ok(s)
            },
        }
    }
}

/// Whether `ids` names `id`. A linear scan; identifiers compare by value.
pub fn id_listed(ids: &Vec<AgentId>, id: AgentId) -> (r: bool)
    ensures
        r == ids@.contains(id),
{
    let n = ids.len();
    let mut i: usize = 0;
    while i < n
        invariant
            i <= n == ids@.len(),
            forall|k: int| 0 <= k < i ==> ids@[k] != id,
        decreases n - i,
    {
        if ids[i].bits == id.bits {
            return true;
        }
        i = i + 1;
    }
    false
}

} // verus!
