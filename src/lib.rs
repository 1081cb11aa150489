//! Lifecycle core of a study-session backend: the per-document status
//! ledger, the assembly of extracted page text, the versioned plan revision
//! log with single-step undo, the stage materializer that turns a draft plan
//! into topics and chats, and the bookkeeping of the welcome fan-out.
pub mod error;
pub mod text;
pub mod ledger;
pub mod extraction;
pub mod plan;
pub mod revisions;
pub mod session;
pub mod welcome;
pub mod generation;
pub mod upload;
pub mod prompts;
