//! Agent registry and concurrent message router.
//!
//! The library owns the identifier-to-agent table, the routing decisions
//! (create, direct interaction, broadcast fan-out, count and state queries),
//! each agent's in-order mailbox, and the text of everything the agents say
//! to their collaborators: prompts, request payloads and stored records.
//! The surrounding program only moves bytes: it performs the HTTP calls and
//! hands their results back to the library's decision functions.

pub mod agent;
pub mod command;
pub mod config;
pub mod errors;
pub mod ids;
pub mod laws;
pub mod payload;
pub mod prompt;
pub mod registry;
pub mod router;
pub mod upstream;

pub use errors::CoreError;
