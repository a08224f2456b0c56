//! Pool configuration: an immutable record read once at startup.

use vstd::prelude::*;

verus! {

/// Configuration of the database connection pool. The pool keeps at
/// least `min_connections` warm and opens at most `max_connections`;
/// an acquire attempt fails after `acquire_timeout_secs`, a connection
/// idle longer than `idle_timeout_secs` is closed, and one older than
/// `max_lifetime_secs` is recycled.
#[derive(Clone, Copy, PartialEq, Eq, Structural, Debug)]
pub struct PoolConfig {
    pub max_connections: u32,
    pub min_connections: u32,
    pub acquire_timeout_secs: u64,
    pub idle_timeout_secs: u64,
    pub max_lifetime_secs: u64,
}

/// The configuration the service runs with: at most 10 connections,
/// 1 kept warm, an 8 s acquire timeout, a 300 s idle timeout and a
/// 1800 s maximum connection lifetime.
pub open spec fn spec_default_config() -> PoolConfig {
    PoolConfig {
        max_connections: 10,
        min_connections: 1,
        acquire_timeout_secs: 8,
        idle_timeout_secs: 300,
        max_lifetime_secs: 1800,
    }
}

impl PoolConfig {
    /// Invariant of every configuration the pool may be built from:
    /// the warm floor never exceeds the ceiling, and every timeout is
    /// a strictly positive duration.
    pub open spec fn valid(self) -> bool {
        &&& self.min_connections <= self.max_connections
        &&& self.acquire_timeout_secs > 0
        &&& self.idle_timeout_secs > 0
        &&& self.max_lifetime_secs > 0
    }

    /// Builds a configuration from its parts, rejecting exactly those
    /// that break the invariant.
    pub fn new(
        max_connections: u32,
        min_connections: u32,
        acquire_timeout_secs: u64,
        idle_timeout_secs: u64,
        max_lifetime_secs: u64,
    ) -> (r: Option<PoolConfig>)
        ensures
            r is Some <==> (min_connections <= max_connections && acquire_timeout_secs > 0
                && idle_timeout_secs > 0 && max_lifetime_secs > 0),
            r matches Some(c) ==> c == (PoolConfig {
                max_connections,
                min_connections,
                acquire_timeout_secs,
                idle_timeout_secs,
                max_lifetime_secs,
            }) && c.valid(),
    {
        if min_connections <= max_connections && acquire_timeout_secs > 0
            && idle_timeout_secs > 0 && max_lifetime_secs > 0 {
            Some(PoolConfig {
                max_connections,
                min_connections,
                acquire_timeout_secs,
                idle_timeout_secs,
                max_lifetime_secs,
            })
        } else {
            None
        }
    }

    /// The fixed configuration the service is started with.
    pub fn default_config() -> (c: PoolConfig)
        ensures
            c == spec_default_config(),
            c.valid(),
    {
        PoolConfig {
            max_connections: 10,
            min_connections: 1,
            acquire_timeout_secs: 8,
            idle_timeout_secs: 300,
            max_lifetime_secs: 1800,
        }
    }
}

} // verus!
