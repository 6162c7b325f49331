//! Resolver configuration knobs.

use crate::time::Duration;
use vstd::prelude::*;

verus! {

/// Configuration of a [`SystemResolver`](crate::resolver::SystemResolver).
///
/// `hard_limit` should be at least `soft_limit`; a soft limit above the hard
/// limit counts as the hard limit.
#[derive(Debug, Copy, Clone)]
pub struct ResolverConfig {
    /// Target maximum number of worker threads.
    ///
    /// The limit can be exceeded, up to `hard_limit`, while workers are stalled
    /// or their callers have gone.
    pub soft_limit: usize,

    /// Absolute maximum number of worker threads. Callers that arrive when it
    /// is reached wait.
    pub hard_limit: usize,

    /// How long a worker may run before it counts as stalled.
    ///
    /// A stalled worker's soft permit is released; its hard permit is released
    /// when it exits.
    pub stall_threshold: Duration,

    /// Maximum time to wait for a lookup, or `None` to wait indefinitely.
    ///
    /// It covers the wait for both permits and for the system call. It does not
    /// apply to lookups that cannot block.
    pub timeout: Option<Duration>,
}

impl Default for ResolverConfig {
    /// Eight workers, thirty-two at most, stalled after half a second, no
    /// timeout.
    fn default() -> (r: ResolverConfig)
        ensures
            r.soft_limit == 8,
            r.hard_limit == 32,
            r.stall_threshold.nanos == 500_000_000,
            r.timeout is None,
    {
        ResolverConfig {
            soft_limit: 8,
            hard_limit: 32,
            stall_threshold: Duration::from_millis(500),
            timeout: None,
        }
    }
}

impl ResolverConfig {
    /// The number of soft permits: the soft limit, clamped to the hard limit.
    pub open spec fn soft_permits(self) -> nat {
        if self.soft_limit <= self.hard_limit {
            self.soft_limit as nat
        } else {
            self.hard_limit as nat
        }
    }
}

} // verus!
