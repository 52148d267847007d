//! Liveness responder: answers that the service is ready, always.
use vstd::prelude::*;

verus! {

/// Reply to a liveness probe.
#[derive(Debug, Clone, Copy, PartialEq, Eq)]
pub struct ReadyResponse {
    pub ready: bool,
}

/// Answers liveness probes; holds no state.
#[derive(Debug, Default, Copy, Clone)]
pub struct ReadyServerImpl {}

impl ReadyServerImpl {
    /// Returns `ready: true` whenever the service is reachable.
    pub fn is_ready(&self) -> (r: ReadyResponse)
        ensures
            r.ready,
    {
        ReadyResponse { ready: true }
    }
}

} // verus!
