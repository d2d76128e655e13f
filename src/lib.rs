//! Alert execution engine: threshold evaluation, the per-alert watcher state
//! machine, the reporter task it starts on each state change, and the retry
//! schedule of the transport.
use vstd::prelude::*;

pub mod alerts;
pub mod backoff;
pub mod engine;
pub mod httpapi;
pub mod reporter;

verus! {

} // verus!
