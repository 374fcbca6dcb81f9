//! Email triage pipeline for MarianneAI: mailbox intake, relevance and intent
//! bookkeeping, queue admission and reply drafting, with the text handling and
//! the decision steps proved against their specifications.

pub mod agentic;
pub mod clock;
pub mod compat;
pub mod config;
pub mod gmail;
pub mod json;
pub mod queue;
pub mod text;
pub mod trusted;
pub mod types;
