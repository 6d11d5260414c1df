//! Core of a relay that fans out an upstream filtered status stream to many
//! WebSocket subscribers: the interest bookkeeping, restart and backoff
//! decisions of the upstream supervisor, and the per-connection session rules.
use vstd::prelude::*;

pub mod backoff;
pub mod config;
pub mod consumer;
pub mod interest;
pub mod response;
pub mod session;
pub mod sets;
pub mod supervisor;

verus! {

} // verus!
