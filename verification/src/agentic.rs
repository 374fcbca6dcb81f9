//! Multi-agent triage: the supervisor's routing, the specialists' bookkeeping,
//! reply drafting and the search queries sent to the open-data service.

pub mod replies;
pub mod search;
pub mod supervisor;
pub mod report;
pub mod mission;
pub mod errors;
pub mod specialists;
pub mod responders;
pub mod memory;
pub mod mcp;
pub mod memory_laws;
pub mod search_laws;
