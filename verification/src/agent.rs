use vstd::prelude::*;

use crate::config::AgentConfig;
use crate::ids::AgentId;

verus! {

/// One message waiting in an agent's inbox.
pub enum AgentMessage {
    /// A direct interaction: the owner's identity and the free-text query.
    /// Exactly one response or error is owed for it.
    Interact { owner: String, query: String },
    /// A broadcast notification. Fire-and-forget: nothing is owed back.
    Notice { message: String },
}

/// One long-lived worker. It owns its configuration and its inbox; nothing
/// else ever mutates either. Messages are taken from the inbox strictly in
/// arrival order, so requests to one agent are handled one at a time.
pub struct Agent {
    /// The identifier the registry holds this agent under.
    pub id: AgentId,
    /// The externally supplied name of the owning account.
    pub owner: String,
    /// The immutable configuration.
    pub config: AgentConfig,
    /// Messages accepted but not yet processed, oldest first.
    pub inbox: Vec<AgentMessage>,
}

impl Agent {
    /// A new agent with an empty inbox.
    pub fn new(id: AgentId, owner: String, config: AgentConfig) -> (a: Agent)
        ensures
            a.id == id,
            a.owner == owner,
            a.config == config,
            a.inbox@ == Seq::<AgentMessage>::empty(),
    {
        Agent { id, owner, config, inbox: Vec::new() }
    }

    /// Appends one message at the back of the inbox. Nothing else changes,
    /// and every message already waiting keeps its place.
    pub fn enqueue(&mut self, m: AgentMessage)
        ensures
            final(self).id == old(self).id,
            final(self).owner == old(self).owner,
            final(self).config == old(self).config,
            final(self).inbox@ == old(self).inbox@.push(m),
    {
        self.inbox.push(m);
    }

    /// The line this agent hands the observability sink on receiving a
    /// broadcast notification. Receiving one has no other effect: nothing
    /// is acknowledged to the sender.
    pub fn notice_log_line(&self, message: &str) -> (r: String)
        ensures
            r@ == "Actor "@ + crate::ids::spec_id_text(self.id.bits)
                + " received broadcast message: "@ + message@,
    {
        let mut out = String::from_str("Actor ");
        let id_text = self.id.render();
        out.append(id_text.as_str());
        out.append(" received broadcast message: ");
        out.append(message);
        out
    }

    /// Takes the oldest waiting message, if any: the front of the inbox,
    /// never a later one. The rest keep their order.
    pub fn take_next(&mut self) -> (r: Option<AgentMessage>)
        ensures
            final(self).id == old(self).id,
            final(self).owner == old(self).owner,
            final(self).config == old(self).config,
            old(self).inbox@.len() == 0 ==> r is None && final(self).inbox@ == old(self).inbox@,
            old(self).inbox@.len() > 0 ==> r == Some(old(self).inbox@[0]) && final(self).inbox@
                == old(self).inbox@.drop_first(),
    {
        if self.inbox.len() == 0 {
            None
        } else {
            let m = self.inbox.remove(0);
            proof {
                assert(old(self).inbox@.remove(0) =~= old(self).inbox@.drop_first());
            }
            Some(m)
        }
    }
}

} // verus!
