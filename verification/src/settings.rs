//! Settings the service is started with, as far as the domain reads them.

use vstd::prelude::*;

verus! {

/// How many requests the API accepts per sliding window.
#[derive(Debug, Clone, Copy)]
pub struct RateLimitSettings {
    pub nr_requests: u64,
    pub per_duration: core::time::Duration,
}

/// The machine and node ids used in correlation-id generation, each in
/// [0, 31). They must be unique for the entity type within a cluster.
#[derive(Debug, Clone, Copy, PartialEq, Eq, Structural)]
pub struct CorrelationSettings {
    pub machine_id: i32,
    pub node_id: i32,
}

impl Default for CorrelationSettings {
    /// Machine 1, node 1: the single-node default.
    fn default() -> (r: CorrelationSettings)
        ensures
            r == (CorrelationSettings { machine_id: 1, node_id: 1 }),
    {
        CorrelationSettings { machine_id: 1, node_id: 1 }
    }
}

} // verus!
