//! The purge engine: paging through an account's posts and comments,
//! sparing what sits in an exempted community, and deleting the rest.
//!
//! Nothing here touches the network. [`orchestrator::PurgeOrchestrator`]
//! is a state machine: it is told what happened (an [`orchestrator::Event`])
//! and answers with what to do next (a list of [`orchestrator::Action`]s)
//! and what to log (a list of [`record::Record`]s).

pub mod deleter;
pub mod filter;
pub mod item;
pub mod laws;
pub mod orchestrator;
pub mod paginator;
pub mod record;
