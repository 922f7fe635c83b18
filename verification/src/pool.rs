//! Settings of the PostgreSQL connection pool.
//!
//! Production pools warm up `min_connections` connections, release
//! connections idle longer than `idle_timeout_secs`, recycle connections
//! older than `max_lifetime_secs`, and check a connection's health before
//! handing it out when `test_before_acquire` is set.

use vstd::prelude::*;

verus! {

/// Configuration for database connection pool
#[derive(Clone, Debug)]
pub struct PoolConfig {
    /// Maximum number of connections in the pool (default: 20)
    pub max_connections: u32,
    /// Minimum connections to maintain (pool warming, default: 5)
    pub min_connections: u32,
    /// Time to wait for a connection from the pool (default: 30s)
    pub acquire_timeout_secs: u64,
    /// Release connections idle longer than this (default: 600s = 10 min)
    pub idle_timeout_secs: u64,
    /// Force recycle connections older than this (default: 1800s = 30 min)
    pub max_lifetime_secs: u64,
    /// Validate connection health before returning (default: true)
    pub test_before_acquire: bool,
}

impl Default for PoolConfig {
    fn default() -> (c: Self)
        ensures
            c.max_connections == 20,
            c.min_connections == 5,
            c.acquire_timeout_secs == 30,
            c.idle_timeout_secs == 600,
            c.max_lifetime_secs == 1800,
            c.test_before_acquire,
    {
        PoolConfig {
            max_connections: 20,
            min_connections: 5,
            acquire_timeout_secs: 30,
            idle_timeout_secs: 600,
            max_lifetime_secs: 1800,
            test_before_acquire: true,
        }
    }
}

} // verus!
