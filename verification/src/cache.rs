//! The Redis cache manager.
//!
//! A `CacheManager` holds a `redis::Client`, which only records where the
//! server is; connecting and the round trips are the driver's work, steered
//! by the flows of `cache_flow`.

use crate::DatabaseError;
use vstd::prelude::*;

verus! {

#[verifier::external_type_specification]
#[verifier::external_body]
pub struct ExRedisClient(redis::Client);

/// What `redis::Client::open` gives for the URL text `url`: the client, or
/// the `Display` text of the error it refuses the URL with.
/// `Client::open` only parses the text (no I/O); on one build target the
/// outcome depends on the text alone (Unix-socket URLs need a target with
/// Unix sockets, `rediss://` URLs need TLS support compiled in).
pub uninterp spec fn redis_open(url: Seq<char>) -> Result<redis::Client, Seq<char>>;

/// Whether `redis::Client::open` accepts `url` as the address of a Redis
/// server (a `redis://`, `unix://` or `redis+unix://` URL that the `redis`
/// crate can read into connection settings).
pub open spec fn redis_url_accepted(url: Seq<char>) -> bool {
    redis_open(url) is Ok
}

/// The client `redis::Client::open` builds for an accepted `url`.
pub open spec fn redis_client_for(url: Seq<char>) -> redis::Client {
    redis_open(url)->Ok_0
}

/// Calls `redis::Client::open` on the URL text and renders a refusal with
/// the error's `Display`. The contract claims that the outcome is the named
/// `redis_open(url@)`: a function of the text alone.
#[verifier::external_body]
fn open_client(url: &str) -> (r: Result<redis::Client, String>)
    ensures
        match r {
            Ok(c) => redis_open(url@) == Ok::<redis::Client, Seq<char>>(c),
            Err(m) => redis_open(url@) == Err::<redis::Client, Seq<char>>(m@),
        },
{
    redis::Client::open(url).map_err(|e| e.to_string())
}

/// `Clone` of `redis::Client`, which the crate derives: the copy holds the
/// same connection settings.
pub assume_specification[ <redis::Client as Clone>::clone ](c: &redis::Client) -> (r: redis::Client)
    ensures
        r == *c,
;

/// Cache manager for Redis operations.
pub struct CacheManager {
    client: redis::Client,
}

impl CacheManager {
    /// The client this manager connects with.
    pub closed spec fn spec_client(&self) -> redis::Client {
        self.client
    }

    /// Create new cache manager for the server at `redis_url`.
    /// Succeeds exactly when the `redis` crate accepts the URL, with the
    /// client it builds for that URL; otherwise fails with a `CacheError`
    /// that carries the `redis` crate's error text.
    pub fn new(redis_url: &str) -> (r: Result<CacheManager, DatabaseError>)
        ensures
            r is Ok <==> redis_url_accepted(redis_url@),
            r matches Ok(m) ==> m.spec_client() == redis_client_for(redis_url@),
            r matches Err(e) ==> e matches DatabaseError::CacheError(msg)
                && redis_open(redis_url@) == Err::<redis::Client, Seq<char>>(msg@),
    {
        Self::from_opened(open_client(redis_url))
    }

    /// The manager for a client that `redis::Client::open` returned, or
    /// the `CacheError` that carries the text of its refusal.
    pub fn from_opened(opened: Result<redis::Client, String>) -> (r: Result<CacheManager, DatabaseError>)
        ensures
            match opened {
                Ok(c) => r matches Ok(m) && m.spec_client() == c,
                Err(msg) => r == Err::<CacheManager, DatabaseError>(DatabaseError::CacheError(msg)),
            },
    {
        match opened {
            Ok(client) => Ok(CacheManager { client }),
            Err(msg) => Err(DatabaseError::CacheError(msg)),
        }
    }

    /// The client, for opening connections.
    pub fn client(&self) -> (c: &redis::Client)
        ensures
            *c == self.spec_client(),
    {
        &self.client
    }
}

impl Clone for CacheManager {
    fn clone(&self) -> (r: Self)
        ensures
            r.spec_client() == self.spec_client(),
    {
        CacheManager { client: self.client.clone() }
    }
}

} // verus!
