//! Send/Sync bounds under the names the agent abstractions use.
//!
//! The agent framework names its thread-safety bounds so that they can be
//! relaxed on single-threaded targets; on native targets they are exactly
//! `Send` and `Sync`.

use vstd::prelude::*;

verus! {

/// A type that may be moved to another thread.
pub trait WasmCompatSend: Send {}

impl<T> WasmCompatSend for T where T: Send {}

/// A type that may be shared between threads.
pub trait WasmCompatSync: Sync {}

impl<T> WasmCompatSync for T where T: Sync {}

} // verus!
