//! The decisions of the Redis cache operations, as step functions.
//!
//! Each cache operation alternates round trips to Redis (and, for the
//! cache-aside operations, a call of the caller's fetch function) with
//! decisions on what came back. A flow value records where an operation
//! stands; `step` takes the outcome of the last outside action (a
//! `CacheEvent`) and returns the next flow together with the next
//! `CacheAction` to perform. The driver performs the action and feeds its
//! outcome back, until the flow answers with `CacheAction::Finish`.
//!
//! A flow answers an event it is not waiting for with `CacheAction::Idle`
//! and stays where it is.

use crate::DatabaseError;
use vstd::prelude::*;

verus! {

/// A Redis command, as the cache operations issue it.
#[derive(Debug)]
pub enum CacheCommand {
    /// `GET key`
    Get { key: String },
    /// `SET key value`
    SetValue { key: String, value: String },
    /// `SETEX key ttl_seconds value`
    SetValueEx { key: String, ttl_seconds: usize, value: String },
    /// `DEL key`
    Del { key: String },
    /// `DEL key...` over several keys
    DelMany { keys: Vec<String> },
    /// `KEYS pattern`
    Keys { pattern: String },
}

/// The reply to a command, read as the command's result type:
/// `Get` gives `Value`; `SetValue`, `SetValueEx` and `Del` give `Unit`;
/// `Keys` gives `Keys`; `DelMany` gives the number of keys removed.
#[derive(Debug)]
pub enum CacheReply {
    Value(Option<String>),
    Unit,
    Keys(Vec<String>),
    Count(u64),
}

/// Whether `reply` has the type that `command` is read as.
pub open spec fn reply_fits(command: CacheCommand, reply: CacheReply) -> bool {
    match command {
        CacheCommand::Get { .. } => reply is Value,
        CacheCommand::SetValue { .. } => reply is Unit,
        CacheCommand::SetValueEx { .. } => reply is Unit,
        CacheCommand::Del { .. } => reply is Unit,
        CacheCommand::DelMany { .. } => reply is Count,
        CacheCommand::Keys { .. } => reply is Keys,
    }
}

/// The outcome of the last action a flow asked for.
pub enum CacheEvent<T> {
    /// A connection to Redis was (or was not) obtained.
    Connected(Result<(), DatabaseError>),
    /// The command that was sent came back.
    Replied(Result<CacheReply, DatabaseError>),
    /// A cached JSON text was (or was not) decoded into a value.
    Decoded(Result<T, DatabaseError>),
    /// The value to store was (or was not) encoded as JSON text.
    Encoded(Result<String, DatabaseError>),
    /// The caller's fetch function returned.
    Fetched(Result<T, DatabaseError>),
}

/// What the driver of a flow has to do next.
#[derive(Debug)]
pub enum CacheAction<R> {
    /// Obtain a connection to Redis.
    Connect,
    /// Send this command on the connection.
    Send(CacheCommand),
    /// Decode this cached JSON text into a value.
    Decode(String),
    /// Encode the value being stored as JSON text.
    Encode,
    /// Call the fetch function.
    Fetch,
    /// The operation is over, with this result.
    Finish(Result<R, DatabaseError>),
    /// Nothing: the event was not the one the flow waits for.
    Idle,
}

/// Whether `ev` is an outcome of performing `a`: the event of the action's
/// kind, and for a command, a failure or a reply of the command's type.
pub open spec fn answers<R, T>(a: CacheAction<R>, ev: CacheEvent<T>) -> bool {
    match (a, ev) {
        (CacheAction::Connect, CacheEvent::Connected(_)) => true,
        (CacheAction::Send(_), CacheEvent::Replied(Err(_))) => true,
        (CacheAction::Send(c), CacheEvent::Replied(Ok(reply))) => reply_fits(c, reply),
        (CacheAction::Decode(_), CacheEvent::Decoded(_)) => true,
        (CacheAction::Encode, CacheEvent::Encoded(_)) => true,
        (CacheAction::Fetch, CacheEvent::Fetched(_)) => true,
        _ => false,
    }
}

/// Carries an action that asks for outside work over to another result type.
/// (A `Finish` has no counterpart and becomes `Idle`; no caller passes one.)
pub open spec fn forwarded<R, S>(a: CacheAction<R>) -> CacheAction<S> {
    match a {
        CacheAction::Connect => CacheAction::Connect,
        CacheAction::Send(c) => CacheAction::Send(c),
        CacheAction::Decode(s) => CacheAction::Decode(s),
        CacheAction::Encode => CacheAction::Encode,
        CacheAction::Fetch => CacheAction::Fetch,
        CacheAction::Finish(_) => CacheAction::Idle,
        CacheAction::Idle => CacheAction::Idle,
    }
}

fn forward<R, S>(a: CacheAction<R>) -> (b: CacheAction<S>)
    ensures
        b == forwarded::<R, S>(a),
{
    match a {
        CacheAction::Connect => CacheAction::Connect,
        CacheAction::Send(c) => CacheAction::Send(c),
        CacheAction::Decode(s) => CacheAction::Decode(s),
        CacheAction::Encode => CacheAction::Encode,
        CacheAction::Fetch => CacheAction::Fetch,
        CacheAction::Finish(_) => CacheAction::Idle,
        CacheAction::Idle => CacheAction::Idle,
    }
}

// ---------------------------------------------------------------------------
// GET: read one key and decode it.

pub enum GetPhase {
    Connecting,
    Reading,
    Decoding,
    Done,
}

/// Reading the value cached under `key`.
pub struct GetFlow {
    pub key: String,
    pub phase: GetPhase,
}

impl GetFlow {
    pub open spec fn initial(key: String) -> GetFlow {
        GetFlow { key, phase: GetPhase::Connecting }
    }

    /// One step of a read: connect, send `GET key`, decode a hit.
    /// A miss finishes with `None`; every failure finishes with that error.
    pub open spec fn next<T>(self, ev: CacheEvent<T>) -> (GetFlow, CacheAction<Option<T>>) {
        let done = GetFlow { key: self.key, phase: GetPhase::Done };
        match (self.phase, ev) {
            (GetPhase::Connecting, CacheEvent::Connected(Ok(()))) => (
                GetFlow { key: self.key, phase: GetPhase::Reading },
                CacheAction::Send(CacheCommand::Get { key: self.key }),
            ),
            (GetPhase::Connecting, CacheEvent::Connected(Err(e))) => (done, CacheAction::Finish(Err(e))),
            (GetPhase::Reading, CacheEvent::Replied(Ok(CacheReply::Value(None)))) => (
                done,
                CacheAction::Finish(Ok(None)),
            ),
            (GetPhase::Reading, CacheEvent::Replied(Ok(CacheReply::Value(Some(text))))) => (
                GetFlow { key: self.key, phase: GetPhase::Decoding },
                CacheAction::Decode(text),
            ),
            (GetPhase::Reading, CacheEvent::Replied(Err(e))) => (done, CacheAction::Finish(Err(e))),
            (GetPhase::Decoding, CacheEvent::Decoded(Ok(v))) => (done, CacheAction::Finish(Ok(Some(v)))),
            (GetPhase::Decoding, CacheEvent::Decoded(Err(e))) => (done, CacheAction::Finish(Err(e))),
            _ => (self, CacheAction::Idle),
        }
    }

    /// Starts reading `key`; the first action is to connect.
    pub fn begin<R>(key: String) -> (r: (GetFlow, CacheAction<R>))
        ensures
            r.0 == GetFlow::initial(key),
            r.1 is Connect,
    {
        (GetFlow { key, phase: GetPhase::Connecting }, CacheAction::Connect)
    }

    pub fn step<T>(self, ev: CacheEvent<T>) -> (r: (GetFlow, CacheAction<Option<T>>))
        ensures
            r == self.next(ev),
    {
        let key = self.key;
        match (self.phase, ev) {
            (GetPhase::Connecting, CacheEvent::Connected(Ok(()))) => {
                let k = key.clone();
                (GetFlow { key, phase: GetPhase::Reading }, CacheAction::Send(CacheCommand::Get { key: k }))
            },
            (GetPhase::Connecting, CacheEvent::Connected(Err(e))) => (
                GetFlow { key, phase: GetPhase::Done },
                CacheAction::Finish(Err(e)),
            ),
            (GetPhase::Reading, CacheEvent::Replied(Ok(CacheReply::Value(None)))) => (
                GetFlow { key, phase: GetPhase::Done },
                CacheAction::Finish(Ok(None)),
            ),
            (GetPhase::Reading, CacheEvent::Replied(Ok(CacheReply::Value(Some(text))))) => (
                GetFlow { key, phase: GetPhase::Decoding },
                CacheAction::Decode(text),
            ),
            (GetPhase::Reading, CacheEvent::Replied(Err(e))) => (
                GetFlow { key, phase: GetPhase::Done },
                CacheAction::Finish(Err(e)),
            ),
            (GetPhase::Decoding, CacheEvent::Decoded(Ok(v))) => (
                GetFlow { key, phase: GetPhase::Done },
                CacheAction::Finish(Ok(Some(v))),
            ),
            (GetPhase::Decoding, CacheEvent::Decoded(Err(e))) => (
                GetFlow { key, phase: GetPhase::Done },
                CacheAction::Finish(Err(e)),
            ),
            (phase, _) => (GetFlow { key, phase }, CacheAction::Idle),
        }
    }
}

// ---------------------------------------------------------------------------
// SET / SETEX: encode a value and store it, with or without a time to live.

pub enum SetPhase {
    Connecting,
    Encoding,
    Writing,
    Done,
}

/// Storing a value under `key`; with `ttl_seconds`, the entry expires.
pub struct SetFlow {
    pub key: String,
    pub ttl_seconds: Option<usize>,
    pub phase: SetPhase,
}

/// The command that stores `value` under `key`: `SETEX` when a time to live
/// is given, `SET` otherwise.
pub open spec fn store_command(key: String, ttl_seconds: Option<usize>, value: String) -> CacheCommand {
    match ttl_seconds {
        Some(ttl) => CacheCommand::SetValueEx { key, ttl_seconds: ttl, value },
        None => CacheCommand::SetValue { key, value },
    }
}

impl SetFlow {
    pub open spec fn initial(key: String, ttl_seconds: Option<usize>) -> SetFlow {
        SetFlow { key, ttl_seconds, phase: SetPhase::Connecting }
    }

    /// One step of a write: connect, encode the value, send the store command.
    /// Every failure finishes with that error.
    pub open spec fn next<T>(self, ev: CacheEvent<T>) -> (SetFlow, CacheAction<()>) {
        let done = SetFlow { phase: SetPhase::Done, ..self };
        match (self.phase, ev) {
            (SetPhase::Connecting, CacheEvent::Connected(Ok(()))) => (
                SetFlow { phase: SetPhase::Encoding, ..self },
                CacheAction::Encode,
            ),
            (SetPhase::Connecting, CacheEvent::Connected(Err(e))) => (done, CacheAction::Finish(Err(e))),
            (SetPhase::Encoding, CacheEvent::Encoded(Ok(text))) => (
                SetFlow { phase: SetPhase::Writing, ..self },
                CacheAction::Send(store_command(self.key, self.ttl_seconds, text)),
            ),
            (SetPhase::Encoding, CacheEvent::Encoded(Err(e))) => (done, CacheAction::Finish(Err(e))),
            (SetPhase::Writing, CacheEvent::Replied(Ok(CacheReply::Unit))) => (done, CacheAction::Finish(Ok(()))),
            (SetPhase::Writing, CacheEvent::Replied(Err(e))) => (done, CacheAction::Finish(Err(e))),
            _ => (self, CacheAction::Idle),
        }
    }

    /// Starts storing a value under `key`; the first action is to connect.
    pub fn begin<R>(key: String, ttl_seconds: Option<usize>) -> (r: (SetFlow, CacheAction<R>))
        ensures
            r.0 == SetFlow::initial(key, ttl_seconds),
            r.1 is Connect,
    {
        (SetFlow { key, ttl_seconds, phase: SetPhase::Connecting }, CacheAction::Connect)
    }

    pub fn step<T>(self, ev: CacheEvent<T>) -> (r: (SetFlow, CacheAction<()>))
        ensures
            r == self.next(ev),
    {
        let key = self.key;
        let ttl_seconds = self.ttl_seconds;
        match (self.phase, ev) {
            (SetPhase::Connecting, CacheEvent::Connected(Ok(()))) => (
                SetFlow { key, ttl_seconds, phase: SetPhase::Encoding },
                CacheAction::Encode,
            ),
            (SetPhase::Connecting, CacheEvent::Connected(Err(e))) => (
                SetFlow { key, ttl_seconds, phase: SetPhase::Done },
                CacheAction::Finish(Err(e)),
            ),
            (SetPhase::Encoding, CacheEvent::Encoded(Ok(text))) => {
                let k = key.clone();
                let command = match ttl_seconds {
                    Some(ttl) => CacheCommand::SetValueEx { key: k, ttl_seconds: ttl, value: text },
                    None => CacheCommand::SetValue { key: k, value: text },
                };
                (SetFlow { key, ttl_seconds, phase: SetPhase::Writing }, CacheAction::Send(command))
            },
            (SetPhase::Encoding, CacheEvent::Encoded(Err(e))) => (
                SetFlow { key, ttl_seconds, phase: SetPhase::Done },
                CacheAction::Finish(Err(e)),
            ),
            (SetPhase::Writing, CacheEvent::Replied(Ok(CacheReply::Unit))) => (
                SetFlow { key, ttl_seconds, phase: SetPhase::Done },
                CacheAction::Finish(Ok(())),
            ),
            (SetPhase::Writing, CacheEvent::Replied(Err(e))) => (
                SetFlow { key, ttl_seconds, phase: SetPhase::Done },
                CacheAction::Finish(Err(e)),
            ),
            (phase, _) => (SetFlow { key, ttl_seconds, phase }, CacheAction::Idle),
        }
    }
}

// ---------------------------------------------------------------------------
// DEL: remove one key.

pub enum DeletePhase {
    Connecting,
    Deleting,
    Done,
}

/// Removing `key` from the cache.
pub struct DeleteFlow {
    pub key: String,
    pub phase: DeletePhase,
}

impl DeleteFlow {
    pub open spec fn initial(key: String) -> DeleteFlow {
        DeleteFlow { key, phase: DeletePhase::Connecting }
    }

    /// One step of a removal: connect, send `DEL key`.
    /// Every failure finishes with that error.
    pub open spec fn next<T>(self, ev: CacheEvent<T>) -> (DeleteFlow, CacheAction<()>) {
        let done = DeleteFlow { key: self.key, phase: DeletePhase::Done };
        match (self.phase, ev) {
            (DeletePhase::Connecting, CacheEvent::Connected(Ok(()))) => (
                DeleteFlow { key: self.key, phase: DeletePhase::Deleting },
                CacheAction::Send(CacheCommand::Del { key: self.key }),
            ),
            (DeletePhase::Connecting, CacheEvent::Connected(Err(e))) => (done, CacheAction::Finish(Err(e))),
            (DeletePhase::Deleting, CacheEvent::Replied(Ok(CacheReply::Unit))) => (
                done,
                CacheAction::Finish(Ok(())),
            ),
            (DeletePhase::Deleting, CacheEvent::Replied(Err(e))) => (done, CacheAction::Finish(Err(e))),
            _ => (self, CacheAction::Idle),
        }
    }

    /// Starts removing `key`; the first action is to connect.
    pub fn begin<R>(key: String) -> (r: (DeleteFlow, CacheAction<R>))
        ensures
            r.0 == DeleteFlow::initial(key),
            r.1 is Connect,
    {
        (DeleteFlow { key, phase: DeletePhase::Connecting }, CacheAction::Connect)
    }

    pub fn step<T>(self, ev: CacheEvent<T>) -> (r: (DeleteFlow, CacheAction<()>))
        ensures
            r == self.next(ev),
    {
        let key = self.key;
        match (self.phase, ev) {
            (DeletePhase::Connecting, CacheEvent::Connected(Ok(()))) => {
                let k = key.clone();
                (DeleteFlow { key, phase: DeletePhase::Deleting }, CacheAction::Send(CacheCommand::Del { key: k }))
            },
            (DeletePhase::Connecting, CacheEvent::Connected(Err(e))) => (
                DeleteFlow { key, phase: DeletePhase::Done },
                CacheAction::Finish(Err(e)),
            ),
            (DeletePhase::Deleting, CacheEvent::Replied(Ok(CacheReply::Unit))) => (
                DeleteFlow { key, phase: DeletePhase::Done },
                CacheAction::Finish(Ok(())),
            ),
            (DeletePhase::Deleting, CacheEvent::Replied(Err(e))) => (
                DeleteFlow { key, phase: DeletePhase::Done },
                CacheAction::Finish(Err(e)),
            ),
            (phase, _) => (DeleteFlow { key, phase }, CacheAction::Idle),
        }
    }
}

// ---------------------------------------------------------------------------
// KEYS + DEL: remove every key that matches a pattern.

pub enum InvalidatePhase {
    Connecting,
    Listing,
    Deleting,
    Done,
}

/// Removing every key that matches `pattern` (such as `user:*`).
pub struct InvalidateFlow {
    pub pattern: String,
    pub phase: InvalidatePhase,
}

impl InvalidateFlow {
    pub open spec fn initial(pattern: String) -> InvalidateFlow {
        InvalidateFlow { pattern, phase: InvalidatePhase::Connecting }
    }

    /// One step of an invalidation: connect, list the matching keys with
    /// `KEYS pattern`; when there are none, finish with 0 and send nothing
    /// more; otherwise remove exactly the listed keys with one `DEL` and
    /// finish with the number of keys Redis reports removed.
    /// Every failure finishes with that error.
    pub open spec fn next<T>(self, ev: CacheEvent<T>) -> (InvalidateFlow, CacheAction<u64>) {
        let done = InvalidateFlow { pattern: self.pattern, phase: InvalidatePhase::Done };
        match (self.phase, ev) {
            (InvalidatePhase::Connecting, CacheEvent::Connected(Ok(()))) => (
                InvalidateFlow { pattern: self.pattern, phase: InvalidatePhase::Listing },
                CacheAction::Send(CacheCommand::Keys { pattern: self.pattern }),
            ),
            (InvalidatePhase::Connecting, CacheEvent::Connected(Err(e))) => (done, CacheAction::Finish(Err(e))),
            (InvalidatePhase::Listing, CacheEvent::Replied(Ok(CacheReply::Keys(keys)))) => {
                if keys@.len() == 0 {
                    (done, CacheAction::Finish(Ok(0)))
                } else {
                    (
                        InvalidateFlow { pattern: self.pattern, phase: InvalidatePhase::Deleting },
                        CacheAction::Send(CacheCommand::DelMany { keys }),
                    )
                }
            },
            (InvalidatePhase::Listing, CacheEvent::Replied(Err(e))) => (done, CacheAction::Finish(Err(e))),
            (InvalidatePhase::Deleting, CacheEvent::Replied(Ok(CacheReply::Count(n)))) => (
                done,
                CacheAction::Finish(Ok(n)),
            ),
            (InvalidatePhase::Deleting, CacheEvent::Replied(Err(e))) => (done, CacheAction::Finish(Err(e))),
            _ => (self, CacheAction::Idle),
        }
    }

    /// Starts invalidating `pattern`; the first action is to connect.
    pub fn begin<R>(pattern: String) -> (r: (InvalidateFlow, CacheAction<R>))
        ensures
            r.0 == InvalidateFlow::initial(pattern),
            r.1 is Connect,
    {
        (InvalidateFlow { pattern, phase: InvalidatePhase::Connecting }, CacheAction::Connect)
    }

    pub fn step<T>(self, ev: CacheEvent<T>) -> (r: (InvalidateFlow, CacheAction<u64>))
        ensures
            r == self.next(ev),
    {
        let pattern = self.pattern;
        match (self.phase, ev) {
            (InvalidatePhase::Connecting, CacheEvent::Connected(Ok(()))) => {
                let p = pattern.clone();
                (
                    InvalidateFlow { pattern, phase: InvalidatePhase::Listing },
                    CacheAction::Send(CacheCommand::Keys { pattern: p }),
                )
            },
            (InvalidatePhase::Connecting, CacheEvent::Connected(Err(e))) => (
                InvalidateFlow { pattern, phase: InvalidatePhase::Done },
                CacheAction::Finish(Err(e)),
            ),
            (InvalidatePhase::Listing, CacheEvent::Replied(Ok(CacheReply::Keys(keys)))) => {
                if keys.len() == 0 {
                    (InvalidateFlow { pattern, phase: InvalidatePhase::Done }, CacheAction::Finish(Ok(0)))
                } else {
                    (
                        InvalidateFlow { pattern, phase: InvalidatePhase::Deleting },
                        CacheAction::Send(CacheCommand::DelMany { keys }),
                    )
                }
            },
            (InvalidatePhase::Listing, CacheEvent::Replied(Err(e))) => (
                InvalidateFlow { pattern, phase: InvalidatePhase::Done },
                CacheAction::Finish(Err(e)),
            ),
            (InvalidatePhase::Deleting, CacheEvent::Replied(Ok(CacheReply::Count(n)))) => (
                InvalidateFlow { pattern, phase: InvalidatePhase::Done },
                CacheAction::Finish(Ok(n)),
            ),
            (InvalidatePhase::Deleting, CacheEvent::Replied(Err(e))) => (
                InvalidateFlow { pattern, phase: InvalidatePhase::Done },
                CacheAction::Finish(Err(e)),
            ),
            (phase, _) => (InvalidateFlow { pattern, phase }, CacheAction::Idle),
        }
    }
}

// ---------------------------------------------------------------------------
// Cache-aside: read through the cache, or refresh it from the source.

pub enum AsidePhase<T> {
    /// Looking the key up in the cache.
    Reading(GetFlow),
    /// Waiting for the fetch function.
    Fetching,
    /// Storing the fetched value, which is returned once it is stored.
    Storing(SetFlow, T),
    Done,
}

/// A cache-aside operation on `key`, storing fetched values for
/// `ttl_seconds` seconds.
pub struct AsideFlow<T> {
    pub key: String,
    pub ttl_seconds: usize,
    pub phase: AsidePhase<T>,
}

impl<T> AsideFlow<T> {
    /// `get_or_fetch` starts by reading the key from the cache.
    pub open spec fn initial_get_or_fetch(key: String, ttl_seconds: usize) -> AsideFlow<T> {
        AsideFlow { key, ttl_seconds, phase: AsidePhase::Reading(GetFlow::initial(key)) }
    }

    /// `fetch_and_cache` starts by calling the fetch function.
    pub open spec fn initial_fetch_and_cache(key: String, ttl_seconds: usize) -> AsideFlow<T> {
        AsideFlow { key, ttl_seconds, phase: AsidePhase::Fetching }
    }

    pub open spec fn finished(self) -> AsideFlow<T> {
        AsideFlow { key: self.key, ttl_seconds: self.ttl_seconds, phase: AsidePhase::Done }
    }

    /// One step of a cache-aside operation. A cache hit is returned as it
    /// was decoded; a miss calls the fetch function; a fetched value is
    /// stored with `SETEX key ttl_seconds` and then returned.
    /// Every failure finishes with that error.
    pub open spec fn next(self, ev: CacheEvent<T>) -> (AsideFlow<T>, CacheAction<T>) {
        match self.phase {
            AsidePhase::Reading(g) => {
                let (g2, a) = g.next(ev);
                match a {
                    CacheAction::Finish(Ok(Some(v))) => (self.finished(), CacheAction::Finish(Ok(v))),
                    CacheAction::Finish(Ok(None)) => (
                        AsideFlow { phase: AsidePhase::Fetching, ..self },
                        CacheAction::Fetch,
                    ),
                    CacheAction::Finish(Err(e)) => (self.finished(), CacheAction::Finish(Err(e))),
                    _ => (AsideFlow { phase: AsidePhase::Reading(g2), ..self }, forwarded(a)),
                }
            },
            AsidePhase::Fetching => match ev {
                CacheEvent::Fetched(Ok(v)) => (
                    AsideFlow {
                        phase: AsidePhase::Storing(SetFlow::initial(self.key, Some(self.ttl_seconds)), v),
                        ..self
                    },
                    CacheAction::Connect,
                ),
                CacheEvent::Fetched(Err(e)) => (self.finished(), CacheAction::Finish(Err(e))),
                _ => (self, CacheAction::Idle),
            },
            AsidePhase::Storing(s, v) => {
                let (s2, a) = s.next(ev);
                match a {
                    CacheAction::Finish(Ok(())) => (self.finished(), CacheAction::Finish(Ok(v))),
                    CacheAction::Finish(Err(e)) => (self.finished(), CacheAction::Finish(Err(e))),
                    _ => (AsideFlow { phase: AsidePhase::Storing(s2, v), ..self }, forwarded(a)),
                }
            },
            AsidePhase::Done => (self, CacheAction::Idle),
        }
    }

    /// Starts `get_or_fetch` on `key`; the first action is to connect.
    pub fn begin_get_or_fetch(key: String, ttl_seconds: usize) -> (r: (AsideFlow<T>, CacheAction<T>))
        ensures
            r.0 == AsideFlow::<T>::initial_get_or_fetch(key, ttl_seconds),
            r.1 is Connect,
    {
        let k = key.clone();
        let (reading, first) = GetFlow::begin(k);
        (AsideFlow { key, ttl_seconds, phase: AsidePhase::Reading(reading) }, first)
    }

    /// Starts `fetch_and_cache` on `key`; the first action is to fetch.
    pub fn begin_fetch_and_cache(key: String, ttl_seconds: usize) -> (r: (AsideFlow<T>, CacheAction<T>))
        ensures
            r.0 == AsideFlow::<T>::initial_fetch_and_cache(key, ttl_seconds),
            r.1 is Fetch,
    {
        (AsideFlow { key, ttl_seconds, phase: AsidePhase::Fetching }, CacheAction::Fetch)
    }

    pub fn step(self, ev: CacheEvent<T>) -> (r: (AsideFlow<T>, CacheAction<T>))
        ensures
            r == self.next(ev),
    {
        let key = self.key;
        let ttl_seconds = self.ttl_seconds;
        match self.phase {
            AsidePhase::Reading(g) => {
                let (g2, a) = g.step(ev);
                match a {
                    CacheAction::Finish(Ok(Some(v))) => (
                        AsideFlow { key, ttl_seconds, phase: AsidePhase::Done },
                        CacheAction::Finish(Ok(v)),
                    ),
                    CacheAction::Finish(Ok(None)) => (
                        AsideFlow { key, ttl_seconds, phase: AsidePhase::Fetching },
                        CacheAction::Fetch,
                    ),
                    CacheAction::Finish(Err(e)) => (
                        AsideFlow { key, ttl_seconds, phase: AsidePhase::Done },
                        CacheAction::Finish(Err(e)),
                    ),
                    a => (AsideFlow { key, ttl_seconds, phase: AsidePhase::Reading(g2) }, forward(a)),
                }
            },
            AsidePhase::Fetching => match ev {
                CacheEvent::Fetched(Ok(v)) => {
                    let k = key.clone();
                    let (storing, first) = SetFlow::begin(k, Some(ttl_seconds));
                    (AsideFlow { key, ttl_seconds, phase: AsidePhase::Storing(storing, v) }, first)
                },
                CacheEvent::Fetched(Err(e)) => (
                    AsideFlow { key, ttl_seconds, phase: AsidePhase::Done },
                    CacheAction::Finish(Err(e)),
                ),
                _ => (AsideFlow { key, ttl_seconds, phase: AsidePhase::Fetching }, CacheAction::Idle),
            },
            AsidePhase::Storing(s, v) => {
                let (s2, a) = s.step(ev);
                match a {
                    CacheAction::Finish(Ok(())) => (
                        AsideFlow { key, ttl_seconds, phase: AsidePhase::Done },
                        CacheAction::Finish(Ok(v)),
                    ),
                    CacheAction::Finish(Err(e)) => (
                        AsideFlow { key, ttl_seconds, phase: AsidePhase::Done },
                        CacheAction::Finish(Err(e)),
                    ),
                    a => (AsideFlow { key, ttl_seconds, phase: AsidePhase::Storing(s2, v) }, forward(a)),
                }
            },
            AsidePhase::Done => (AsideFlow { key, ttl_seconds, phase: AsidePhase::Done }, CacheAction::Idle),
        }
    }

    /// The value being stored, which the driver encodes on `Encode`.
    pub fn held_value(&self) -> (r: Option<&T>)
        ensures
            match self.phase {
                AsidePhase::Storing(_, v) => r == Some(&v),
                _ => r is None,
            },
    {
        match &self.phase {
            AsidePhase::Storing(_, v) => Some(v),
            _ => None,
        }
    }
}

} // verus!
