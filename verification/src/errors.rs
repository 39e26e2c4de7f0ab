use vstd::prelude::*;

verus! {

/// Every failure the core can hand back to a caller, as a typed value.
/// Errors are returned, never raised: no operation of the library panics.
#[derive(Clone, Copy, Debug, PartialEq, Eq, Structural)]
pub enum CoreError {
    /// A create operation generated an identifier that is already registered.
    DuplicateAgent,
    /// The requested agent identifier was never registered.
    AgentNotFound,
    /// The target agent is registered but its worker no longer answers.
    ActorUnavailable,
    /// The external completion call failed or returned unusable data.
    UpstreamFailure,
    /// A required external credential or endpoint is absent.
    ConfigurationMissing,
}

impl CoreError {
    /// The fixed description of this error, for logs and replies.
    pub fn message(&self) -> (r: &'static str)
        ensures
            r@ == self.spec_message(),
    {
        match self {
            CoreError::DuplicateAgent => "agent already exists under the generated id",
            CoreError::AgentNotFound => "no agent found under the requested id",
            CoreError::ActorUnavailable => "agent failed to respond",
            CoreError::UpstreamFailure => "completion provider call failed",
            CoreError::ConfigurationMissing => "required credential or endpoint not configured",
        }
    }

    /// What `message` returns, variant by variant.
    pub open spec fn spec_message(self) -> Seq<char> {
        match self {
            CoreError::DuplicateAgent => "agent already exists under the generated id"@,
            CoreError::AgentNotFound => "no agent found under the requested id"@,
            CoreError::ActorUnavailable => "agent failed to respond"@,
            CoreError::UpstreamFailure => "completion provider call failed"@,
            CoreError::ConfigurationMissing => "required credential or endpoint not configured"@,
        }
    }
}

} // verus!
