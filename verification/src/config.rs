use vstd::prelude::*;

verus! {

/// Everything an agent is configured with at creation time. Immutable for
/// the agent's whole life: no operation of the library rewrites a stored
/// configuration.
#[derive(Clone)]
pub struct AgentConfig {
    /// Display name of the assistant.
    pub name: String,
    /// Tone descriptor, e.g. motivational or empathetic.
    pub personality: String,
    /// Domain-expertise label, e.g. fitness or career.
    pub expertise: String,
    /// Goals the assistant is helping its owner achieve.
    pub goals: Vec<String>,
    /// Free-text domain knowledge the assistant draws on.
    pub knowledge_base: String,
    /// Optional picture reference.
    pub picture_url: Option<String>,
}

} // verus!
