//! Counters that the server keeps for its lifetime.

use vstd::prelude::*;

verus! {

/// How many requests the server has seen.
///
/// The counters never decrease. The event loop reads them for its periodic
/// log and, as yet, counts nothing into them.
#[derive(Debug, Copy, Clone, PartialEq, Eq, Structural)]
pub struct ServerMetrics {
    pub raw_request_count: u32,
    pub page_request_count: u32,
}

impl ServerMetrics {
    /// Both counters at zero.
    pub fn new() -> (metrics: ServerMetrics)
        ensures
            metrics == (ServerMetrics { raw_request_count: 0, page_request_count: 0 }),
    {
        ServerMetrics { raw_request_count: 0, page_request_count: 0 }
    }
}

} // verus!
