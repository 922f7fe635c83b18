//! Database utilities: connection-pool settings, pagination, and the
//! decision logic of the Redis cache-aside layer.
//!
//! The network side (PostgreSQL pools, transactions, Redis round trips) lives
//! in the companion application crate; this library holds the values those
//! operations exchange and the verified rules that decide what happens next.

pub mod cache;
pub mod cache_flow;
pub mod cache_laws;
pub mod pool;
pub mod repository;

pub use cache::CacheManager;
pub use pool::PoolConfig;
pub use repository::{BaseRepository, PaginatedResponse, PaginationParams};

use vstd::prelude::*;

verus! {

/// Errors of every database and cache operation.
#[derive(Debug)]
pub enum DatabaseError {
    ConnectionFailed(String),
    QueryFailed(String),
    TransactionFailed(String),
    NotFound(String),
    ConstraintViolation(String),
    CacheError(String),
}

} // verus!
