use vstd::prelude::*;

use crate::agent::AgentMessage;
use crate::config::AgentConfig;
use crate::errors::CoreError;
use crate::ids::{spec_id_text, AgentId};
use crate::registry::created;
use crate::router::{broadcast_applied, dispatched, Router};

verus! {

/// Every operation the router accepts, as one typed command. The four real
/// operation kinds are create, direct interaction, broadcast and the reads;
/// the task commands are stubs kept for the surrounding request layer.
pub enum Command {
    /// Create one agent for `owner`, configured with `config`.
    CreateAgent { owner: String, config: AgentConfig },
    /// Route one direct interaction to the agent registered under `target`.
    Interact { owner: String, target: AgentId, query: String },
    /// Fan `message` out to the named recipients, or to every registered
    /// agent when none are named.
    Broadcast { message: String, recipients: Vec<AgentId> },
    /// Ask how many agents are registered.
    Count,
    /// Ask whether the agent registered under `target` is active.
    QueryState { target: AgentId },
    /// Activate a task. A stub: acknowledged and otherwise ignored.
    ActivateTask { task_id: String },
    /// Ask a task's progress. A stub: a fixed simulated value.
    TrackTaskProgress { task_id: String },
}

/// What the router hands back, one reply per command.
pub enum CommandReply {
    /// The fresh identifier of a created agent.
    Created(AgentId),
    /// A direct interaction was queued at its target.
    Dispatched,
    /// Every delivery of a broadcast has been initiated. Nothing is said
    /// per agent: fan-out is best-effort.
    BroadcastStarted,
    /// How many agents are registered.
    Count(usize),
    /// The state sentence for a registered agent.
    State(String),
    /// A task command was accepted.
    TaskAccepted,
    /// A task's simulated progress, as a percentage.
    TaskProgress(u8),
    /// The command failed; the registry was left exactly as it was.
    Failed(CoreError),
}

impl Router {
    /// Drives one command: a create against the registry's atomic
    /// check-and-insert, an interaction or broadcast to the target inboxes,
    /// a count or state query as a pure read, and the task stubs as fixed
    /// acknowledgments. Failures are replies, never faults, and a failed
    /// command leaves everything exactly as it was.
    pub fn handle(&mut self, command: Command) -> (r: CommandReply)
        requires
            old(self).registry.wf(),
        ensures
            final(self).registry.wf(),
            match command {
                Command::CreateAgent { owner, config } => match r {
                    CommandReply::Created(id) => created(
                        old(self).registry,
                        final(self).registry,
                        id,
                        owner,
                        config,
                    ),
                    CommandReply::Failed(e) => e == CoreError::DuplicateAgent && *final(self)
                        == *old(self) && old(self).registry.agents@.len() > 0,
                    _ => false,
                },
                Command::Interact { owner, target, query } => match r {
                    CommandReply::Dispatched => dispatched(
                        old(self).registry,
                        final(self).registry,
                        target,
                        AgentMessage::Interact { owner, query },
                    ),
                    CommandReply::Failed(e) => e == CoreError::AgentNotFound && !old(
                        self,
                    ).registry.contains_id(target) && *final(self) == *old(self),
                    _ => false,
                },
                Command::Broadcast { message, recipients } => r is BroadcastStarted
                    && broadcast_applied(
                    old(self).registry,
                    final(self).registry,
                    message,
                    recipients@,
                ),
                Command::Count => match r {
                    CommandReply::Count(n) => n == old(self).registry.agents@.len() && *final(self)
                        == *old(self),
                    _ => false,
                },
                Command::QueryState { target } => *final(self) == *old(self) && match r {
                    CommandReply::State(s) => old(self).registry.contains_id(target) && s@
                        == "Actor "@ + spec_id_text(target.bits) + " is active"@,
                    CommandReply::Failed(e) => e == CoreError::AgentNotFound && !old(
                        self,
                    ).registry.contains_id(target),
                    _ => false,
                },
                Command::ActivateTask { task_id } => r is TaskAccepted && *final(self) == *old(
                    self,
                ),
                Command::TrackTaskProgress { task_id } => *final(self) == *old(self) && match r {
                    CommandReply::TaskProgress(p) => p == 50,
                    _ => false,
                },
            },
    {
        match command {
            Command::CreateAgent { owner, config } => match self.create_agent(owner, config) {
                Ok(id) => CommandReply::Created(id),
                Err(e) => CommandReply::Failed(e),
            },
            Command::Interact { owner, target, query } => match self.dispatch_interact(
                target,
                owner,
                query,
            ) {
                Ok(_) => CommandReply::Dispatched,
                Err(e) => CommandReply::Failed(e),
            },
            Command::Broadcast { message, recipients } => {
                self.broadcast(&message, &recipients);
                CommandReply::BroadcastStarted
            },
            Command::Count => CommandReply::Count(self.count()),
            Command::QueryState { target } => match self.query_state(target) {
                Ok(s) => CommandReply::State(s),
                Err(e) => CommandReply::Failed(e),
            },
            Command::ActivateTask { task_id: _ } => CommandReply::TaskAccepted,
            Command::TrackTaskProgress { task_id: _ } => CommandReply::TaskProgress(50),
        }
    }
}

} // verus!
