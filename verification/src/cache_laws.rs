//! Properties of the cache flows over whole operations.

use crate::cache_flow::{
    answers, store_command, AsideFlow, AsidePhase, CacheAction, CacheCommand, CacheEvent, CacheReply, DeleteFlow, GetFlow,
    GetPhase, InvalidateFlow, SetFlow, SetPhase,
};
use crate::DatabaseError;
use vstd::prelude::*;

verus! {

/// The flow and the actions that result from feeding `events` to `flow`,
/// one after another.
pub open spec fn run<T>(flow: AsideFlow<T>, events: Seq<CacheEvent<T>>) -> (AsideFlow<T>, Seq<CacheAction<T>>)
    decreases events.len(),
{
    if events.len() == 0 {
        (flow, Seq::empty())
    } else {
        let (next_flow, action) = flow.next(events[0]);
        let (last, rest) = run(next_flow, events.drop_first());
        (last, seq![action] + rest)
    }
}

/// The sub-flows of a cache-aside flow work on the flow's own key, and its
/// write carries the flow's time to live.
pub open spec fn consistent<T>(flow: AsideFlow<T>) -> bool {
    match flow.phase {
        AsidePhase::Reading(g) => g.key == flow.key,
        AsidePhase::Storing(s, _) => s.key == flow.key && s.ttl_seconds == Some(flow.ttl_seconds),
        _ => true,
    }
}

/// How far a cache-aside flow has come; every step that asks for work
/// moves it strictly forward.
pub open spec fn progress<T>(flow: AsideFlow<T>) -> int {
    match flow.phase {
        AsidePhase::Reading(g) => match g.phase {
            GetPhase::Connecting => 0,
            GetPhase::Reading => 1,
            GetPhase::Decoding => 2,
            GetPhase::Done => 3,
        },
        AsidePhase::Fetching => 3,
        AsidePhase::Storing(s, _) => match s.phase {
            SetPhase::Connecting => 4,
            SetPhase::Encoding => 5,
            SetPhase::Writing => 6,
            SetPhase::Done => 7,
        },
        AsidePhase::Done => 8,
    }
}

/// The failure of the outside action that `flow` is waiting for, if it is
/// waiting for one.
pub open spec fn failure_of<T>(flow: AsideFlow<T>, e: DatabaseError) -> Option<CacheEvent<T>> {
    match flow.phase {
        AsidePhase::Reading(g) => match g.phase {
            GetPhase::Connecting => Some(CacheEvent::Connected(Err(e))),
            GetPhase::Reading => Some(CacheEvent::Replied(Err(e))),
            GetPhase::Decoding => Some(CacheEvent::Decoded(Err(e))),
            GetPhase::Done => None,
        },
        AsidePhase::Fetching => Some(CacheEvent::Fetched(Err(e))),
        AsidePhase::Storing(s, _) => match s.phase {
            SetPhase::Connecting => Some(CacheEvent::Connected(Err(e))),
            SetPhase::Encoding => Some(CacheEvent::Encoded(Err(e))),
            SetPhase::Writing => Some(CacheEvent::Replied(Err(e))),
            SetPhase::Done => None,
        },
        AsidePhase::Done => None,
    }
}

/// A cache hit: `get_or_fetch` returns the decoded cached value, after
/// exactly one `GET` of its key, and never calls the fetch function nor
/// writes to the cache.
pub proof fn lemma_hit_returns_cached_value<T>(key: String, ttl_seconds: usize, text: String, value: T)
    ensures
        run(
            AsideFlow::<T>::initial_get_or_fetch(key, ttl_seconds),
            seq![
                CacheEvent::Connected(Ok(())),
                CacheEvent::Replied(Ok(CacheReply::Value(Some(text)))),
                CacheEvent::Decoded(Ok(value)),
            ],
        ) == (
            AsideFlow::<T> { key, ttl_seconds, phase: AsidePhase::Done },
            seq![
                CacheAction::Send(CacheCommand::Get { key }),
                CacheAction::Decode(text),
                CacheAction::Finish(Ok(value)),
            ],
        ),
{
    reveal_with_fuel(run, 4);
    let f0 = AsideFlow::<T>::initial_get_or_fetch(key, ttl_seconds);
    let e: Seq<CacheEvent<T>> = seq![
        CacheEvent::Connected(Ok(())),
        CacheEvent::Replied(Ok(CacheReply::Value(Some(text)))),
        CacheEvent::Decoded(Ok(value)),
    ];
    assert(e.drop_first() =~= seq![e[1], e[2]]);
    assert(e.drop_first().drop_first() =~= seq![e[2]]);
    assert(e.drop_first().drop_first().drop_first() =~= Seq::<CacheEvent<T>>::empty());
    let (f1, a1) = f0.next(e[0]);
    let (f2, a2) = f1.next(e[1]);
    let (f3, a3) = f2.next(e[2]);
    assert(run(f3, Seq::<CacheEvent<T>>::empty()).1 =~= Seq::<CacheAction<T>>::empty());
    assert(run(f2, seq![e[2]]).1 =~= seq![a3]);
    assert(run(f1, seq![e[1], e[2]]).1 =~= seq![a2, a3]);
    assert(run(f0, e).1 =~= seq![a1, a2, a3]);
}

/// A cache miss: `get_or_fetch` reads the key once, calls the fetch
/// function, stores the encoded value with `SETEX key ttl`, and returns the
/// fetched value.
pub proof fn lemma_miss_fetches_and_stores<T>(key: String, ttl_seconds: usize, value: T, text: String)
    ensures
        run(
            AsideFlow::<T>::initial_get_or_fetch(key, ttl_seconds),
            seq![
                CacheEvent::Connected(Ok(())),
                CacheEvent::Replied(Ok(CacheReply::Value(None))),
                CacheEvent::Fetched(Ok(value)),
                CacheEvent::Connected(Ok(())),
                CacheEvent::Encoded(Ok(text)),
                CacheEvent::Replied(Ok(CacheReply::Unit)),
            ],
        ) == (
            AsideFlow::<T> { key, ttl_seconds, phase: AsidePhase::Done },
            seq![
                CacheAction::Send(CacheCommand::Get { key }),
                CacheAction::Fetch,
                CacheAction::Connect,
                CacheAction::Encode,
                CacheAction::Send(CacheCommand::SetValueEx { key, ttl_seconds, value: text }),
                CacheAction::Finish(Ok(value)),
            ],
        ),
{
    reveal_with_fuel(run, 7);
    let f0 = AsideFlow::<T>::initial_get_or_fetch(key, ttl_seconds);
    let e: Seq<CacheEvent<T>> = seq![
        CacheEvent::Connected(Ok(())),
        CacheEvent::Replied(Ok(CacheReply::Value(None))),
        CacheEvent::Fetched(Ok(value)),
        CacheEvent::Connected(Ok(())),
        CacheEvent::Encoded(Ok(text)),
        CacheEvent::Replied(Ok(CacheReply::Unit)),
    ];
    let (f1, a1) = f0.next(e[0]);
    let (f2, a2) = f1.next(e[1]);
    let (f3, a3) = f2.next(e[2]);
    let (f4, a4) = f3.next(e[3]);
    let (f5, a5) = f4.next(e[4]);
    let (f6, a6) = f5.next(e[5]);
    assert(e.skip(6) =~= Seq::<CacheEvent<T>>::empty());
    assert(run(f6, e.skip(6)).1 =~= Seq::<CacheAction<T>>::empty());
    assert(e.skip(5).drop_first() =~= e.skip(6));
    assert(run(f5, e.skip(5)).1 =~= seq![a6]);
    assert(e.skip(4).drop_first() =~= e.skip(5));
    assert(run(f4, e.skip(4)).1 =~= seq![a5, a6]);
    assert(e.skip(3).drop_first() =~= e.skip(4));
    assert(run(f3, e.skip(3)).1 =~= seq![a4, a5, a6]);
    assert(e.skip(2).drop_first() =~= e.skip(3));
    assert(run(f2, e.skip(2)).1 =~= seq![a3, a4, a5, a6]);
    assert(e.skip(1).drop_first() =~= e.skip(2));
    assert(run(f1, e.skip(1)).1 =~= seq![a2, a3, a4, a5, a6]);
    assert(e.drop_first() =~= e.skip(1));
    assert(run(f0, e).1 =~= seq![a1, a2, a3, a4, a5, a6]);
}

/// `fetch_and_cache` always calls the fetch function first, then stores
/// the encoded value with `SETEX key ttl` and returns the fetched value;
/// it never reads the cache.
pub proof fn lemma_refresh_fetches_then_stores<T>(key: String, ttl_seconds: usize, value: T, text: String)
    ensures
        run(
            AsideFlow::<T>::initial_fetch_and_cache(key, ttl_seconds),
            seq![
                CacheEvent::Fetched(Ok(value)),
                CacheEvent::Connected(Ok(())),
                CacheEvent::Encoded(Ok(text)),
                CacheEvent::Replied(Ok(CacheReply::Unit)),
            ],
        ) == (
            AsideFlow::<T> { key, ttl_seconds, phase: AsidePhase::Done },
            seq![
                CacheAction::Connect,
                CacheAction::Encode,
                CacheAction::Send(CacheCommand::SetValueEx { key, ttl_seconds, value: text }),
                CacheAction::Finish(Ok(value)),
            ],
        ),
{
    reveal_with_fuel(run, 5);
    let f0 = AsideFlow::<T>::initial_fetch_and_cache(key, ttl_seconds);
    let e: Seq<CacheEvent<T>> = seq![
        CacheEvent::Fetched(Ok(value)),
        CacheEvent::Connected(Ok(())),
        CacheEvent::Encoded(Ok(text)),
        CacheEvent::Replied(Ok(CacheReply::Unit)),
    ];
    let (f1, a1) = f0.next(e[0]);
    let (f2, a2) = f1.next(e[1]);
    let (f3, a3) = f2.next(e[2]);
    let (f4, a4) = f3.next(e[3]);
    assert(e.skip(4) =~= Seq::<CacheEvent<T>>::empty());
    assert(run(f4, e.skip(4)).1 =~= Seq::<CacheAction<T>>::empty());
    assert(e.skip(3).drop_first() =~= e.skip(4));
    assert(run(f3, e.skip(3)).1 =~= seq![a4]);
    assert(e.skip(2).drop_first() =~= e.skip(3));
    assert(run(f2, e.skip(2)).1 =~= seq![a3, a4]);
    assert(e.skip(1).drop_first() =~= e.skip(2));
    assert(run(f1, e.skip(1)).1 =~= seq![a2, a3, a4]);
    assert(e.drop_first() =~= e.skip(1));
    assert(run(f0, e).1 =~= seq![a1, a2, a3, a4]);
}

/// Every step keeps a cache-aside flow consistent.
pub proof fn lemma_step_keeps_consistent<T>(flow: AsideFlow<T>, ev: CacheEvent<T>)
    requires
        consistent(flow),
    ensures
        consistent(flow.next(ev).0),
{
}

/// The fetch function is called, during a `get_or_fetch`, only on a cache
/// miss: right after the lookup reported that the key holds nothing.
pub proof fn lemma_fetch_only_on_miss<T>(flow: AsideFlow<T>, ev: CacheEvent<T>)
    requires
        flow.next(ev).1 is Fetch,
    ensures
        flow.phase matches AsidePhase::Reading(g) && g.phase is Reading,
        ev == CacheEvent::<T>::Replied(Ok(CacheReply::Value(None))),
{
}

/// The only writes a cache-aside flow issues are `SETEX` commands of the
/// text the driver encoded, under the flow's key, with the flow's time to
/// live, and they come only while a fetched value is being stored.
pub proof fn lemma_writes_only_fetched_values<T>(flow: AsideFlow<T>, ev: CacheEvent<T>)
    requires
        consistent(flow),
        flow.next(ev).1 matches CacheAction::Send(c) && (c is SetValue || c is SetValueEx),
    ensures
        flow.phase is Storing,
        ev matches CacheEvent::Encoded(Ok(text)) && flow.next(ev).1 == CacheAction::<T>::Send(
            CacheCommand::SetValueEx { key: flow.key, ttl_seconds: flow.ttl_seconds, value: text },
        ),
{
}

/// A failure of the outside action a cache-aside flow waits for ends the
/// operation at once, with that very error.
pub proof fn lemma_failure_ends_with_that_error<T>(flow: AsideFlow<T>, e: DatabaseError)
    requires
        failure_of(flow, e) is Some,
    ensures
        flow.next(failure_of(flow, e)->0) == (flow.finished(), CacheAction::<T>::Finish(Err(e))),
{
}

/// An event the flow is not waiting for changes nothing.
pub proof fn lemma_idle_changes_nothing<T>(flow: AsideFlow<T>, ev: CacheEvent<T>)
    requires
        flow.next(ev).1 is Idle,
    ensures
        flow.next(ev).0 == flow,
{
}

/// Every step that asks for work moves the flow strictly forward, within a
/// bounded range, so an operation performs at most 8 outside actions; a
/// finished flow asks for nothing more.
pub proof fn lemma_steps_make_progress<T>(flow: AsideFlow<T>, ev: CacheEvent<T>)
    ensures
        0 <= progress(flow) <= 8,
        !(flow.next(ev).1 is Idle) ==> progress(flow) < progress(flow.next(ev).0),
        flow.phase is Done ==> flow.next(ev).1 is Idle,
{
}

/// A flow that is not reading the cache never starts to.
pub proof fn lemma_no_read_after_reading<T>(flow: AsideFlow<T>, ev: CacheEvent<T>)
    requires
        !(flow.phase is Reading),
    ensures
        !(flow.next(ev).0.phase is Reading),
        !(flow.next(ev).1 matches CacheAction::Send(c) && c is Get),
        !(flow.next(ev).1 is Decode),
{
}

/// `fetch_and_cache` never reads the cache: whatever events it is fed, no
/// action it asks for is a `GET` or a decode of cached text.
pub proof fn lemma_refresh_never_reads<T>(key: String, ttl_seconds: usize, events: Seq<CacheEvent<T>>)
    ensures
        forall|i: int|
            0 <= i < events.len() ==> {
                let a = #[trigger] run(AsideFlow::<T>::initial_fetch_and_cache(key, ttl_seconds), events).1[i];
                !(a matches CacheAction::Send(c) && c is Get) && !(a is Decode)
            },
{
    lemma_run_never_reads(AsideFlow::<T>::initial_fetch_and_cache(key, ttl_seconds), events);
}

proof fn lemma_run_never_reads<T>(flow: AsideFlow<T>, events: Seq<CacheEvent<T>>)
    requires
        !(flow.phase is Reading),
    ensures
        run(flow, events).1.len() == events.len(),
        forall|i: int|
            0 <= i < events.len() ==> {
                let a = #[trigger] run(flow, events).1[i];
                !(a matches CacheAction::Send(c) && c is Get) && !(a is Decode)
            },
    decreases events.len(),
{
    if events.len() > 0 {
        let (next_flow, action) = flow.next(events[0]);
        lemma_no_read_after_reading(flow, events[0]);
        lemma_run_never_reads(next_flow, events.drop_first());
        let rest = run(next_flow, events.drop_first()).1;
        assert(run(flow, events).1 == seq![action] + rest);
        assert forall|i: int| 0 <= i < events.len() implies {
            let a = #[trigger] run(flow, events).1[i];
            !(a matches CacheAction::Send(c) && c is Get) && !(a is Decode)
        } by {
            if i > 0 {
                assert(run(flow, events).1[i] == rest[i - 1]);
            }
        }
    }
}

/// `get` on a key that holds nothing returns `None` after one `GET`, with
/// nothing to decode; on a key that holds text it decodes that text and
/// returns the value.
pub proof fn lemma_get_reads_once<T>(key: String, text: String, value: T)
    ensures
        ({
            let (f1, a1) = GetFlow::initial(key).next(CacheEvent::<T>::Connected(Ok(())));
            let (f2, a2) = f1.next(CacheEvent::<T>::Replied(Ok(CacheReply::Value(None))));
            &&& a1 == CacheAction::<Option<T>>::Send(CacheCommand::Get { key })
            &&& a2 == CacheAction::<Option<T>>::Finish(Ok(None))
            &&& f2.phase is Done
        }),
        ({
            let (f1, a1) = GetFlow::initial(key).next(CacheEvent::<T>::Connected(Ok(())));
            let (f2, a2) = f1.next(CacheEvent::<T>::Replied(Ok(CacheReply::Value(Some(text)))));
            let (f3, a3) = f2.next(CacheEvent::<T>::Decoded(Ok(value)));
            &&& a2 == CacheAction::<Option<T>>::Decode(text)
            &&& a3 == CacheAction::<Option<T>>::Finish(Ok(Some(value)))
            &&& f3.phase is Done
        }),
{
}

/// `set` stores the encoded text under the key: with `SETEX` and the given
/// time to live when there is one, with `SET` otherwise; it returns `()`
/// once Redis accepts the write.
pub proof fn lemma_set_stores_encoded_text<T>(key: String, ttl_seconds: Option<usize>, text: String)
    ensures
        ({
            let (f1, a1) = SetFlow::initial(key, ttl_seconds).next(CacheEvent::<T>::Connected(Ok(())));
            let (f2, a2) = f1.next(CacheEvent::<T>::Encoded(Ok(text)));
            let (f3, a3) = f2.next(CacheEvent::<T>::Replied(Ok(CacheReply::Unit)));
            &&& a1 is Encode
            &&& a2 == CacheAction::<()>::Send(store_command(key, ttl_seconds, text))
            &&& a3 == CacheAction::<()>::Finish(Ok(()))
            &&& f3.phase is Done
        }),
        ttl_seconds matches Some(ttl) ==> store_command(key, ttl_seconds, text) == (CacheCommand::SetValueEx {
            key,
            ttl_seconds: ttl,
            value: text,
        }),
        ttl_seconds is None ==> store_command(key, ttl_seconds, text) == (CacheCommand::SetValue {
            key,
            value: text,
        }),
{
}

/// `delete` sends `DEL key` for exactly its key and returns `()`.
pub proof fn lemma_delete_removes_its_key<T>(key: String)
    ensures
        ({
            let (f1, a1) = DeleteFlow::initial(key).next(CacheEvent::<T>::Connected(Ok(())));
            let (f2, a2) = f1.next(CacheEvent::<T>::Replied(Ok(CacheReply::Unit)));
            &&& a1 == CacheAction::<()>::Send(CacheCommand::Del { key })
            &&& a2 == CacheAction::<()>::Finish(Ok(()))
            &&& f2.phase is Done
        }),
{
}

/// `invalidate_pattern` lists the keys matching its pattern; when none
/// match it returns 0 and sends nothing more; otherwise it deletes exactly
/// the listed keys in one `DEL` and returns the count Redis reports.
pub proof fn lemma_invalidate_deletes_listed_keys<T>(pattern: String, keys: Vec<String>, removed: u64)
    ensures
        ({
            let (f1, a1) = InvalidateFlow::initial(pattern).next(CacheEvent::<T>::Connected(Ok(())));
            let (f2, a2) = f1.next(CacheEvent::<T>::Replied(Ok(CacheReply::Keys(keys))));
            let (f3, a3) = f2.next(CacheEvent::<T>::Replied(Ok(CacheReply::Count(removed))));
            &&& a1 == CacheAction::<u64>::Send(CacheCommand::Keys { pattern })
            &&& keys@.len() == 0 ==> a2 == CacheAction::<u64>::Finish(Ok(0)) && f2.phase is Done
            &&& keys@.len() > 0 ==> a2 == CacheAction::<u64>::Send(CacheCommand::DelMany { keys })
                && a3 == CacheAction::<u64>::Finish(Ok(removed)) && f3.phase is Done
        }),
{
}

/// A failure of whatever a `get`, `set`, `delete` or `invalidate_pattern`
/// is waiting for ends it at once with that very error.
pub proof fn lemma_simple_failures_end_with_that_error<T>(
    g: GetFlow,
    s: SetFlow,
    d: DeleteFlow,
    inv: InvalidateFlow,
    e: DatabaseError,
)
    ensures
        g.phase is Connecting ==> g.next(CacheEvent::<T>::Connected(Err(e))).1 == CacheAction::<Option<T>>::Finish(Err(e)),
        g.phase is Reading ==> g.next(CacheEvent::<T>::Replied(Err(e))).1 == CacheAction::<Option<T>>::Finish(Err(e)),
        g.phase is Decoding ==> g.next(CacheEvent::<T>::Decoded(Err(e))).1 == CacheAction::<Option<T>>::Finish(Err(e)),
        s.phase is Connecting ==> s.next(CacheEvent::<T>::Connected(Err(e))).1 == CacheAction::<()>::Finish(Err(e)),
        s.phase is Encoding ==> s.next(CacheEvent::<T>::Encoded(Err(e))).1 == CacheAction::<()>::Finish(Err(e)),
        s.phase is Writing ==> s.next(CacheEvent::<T>::Replied(Err(e))).1 == CacheAction::<()>::Finish(Err(e)),
        d.phase is Connecting ==> d.next(CacheEvent::<T>::Connected(Err(e))).1 == CacheAction::<()>::Finish(Err(e)),
        d.phase is Deleting ==> d.next(CacheEvent::<T>::Replied(Err(e))).1 == CacheAction::<()>::Finish(Err(e)),
        inv.phase is Connecting ==> inv.next(CacheEvent::<T>::Connected(Err(e))).1 == CacheAction::<u64>::Finish(Err(e)),
        inv.phase is Listing ==> inv.next(CacheEvent::<T>::Replied(Err(e))).1 == CacheAction::<u64>::Finish(Err(e)),
        inv.phase is Deleting ==> inv.next(CacheEvent::<T>::Replied(Err(e))).1 == CacheAction::<u64>::Finish(Err(e)),
{
}

/// Whether a cache-aside flow stands past a successful connect in its
/// current stage (reading or storing), so that it may send commands.
pub open spec fn connected<T>(flow: AsideFlow<T>) -> bool {
    match flow.phase {
        AsidePhase::Reading(g) => g.phase is Reading || g.phase is Decoding,
        AsidePhase::Storing(s, _) => s.phase is Encoding || s.phase is Writing,
        _ => false,
    }
}

/// An action a cache-aside flow asks for is never ignored: fed an outcome
/// of that action, the flow moves on. This holds of the first action of
/// either operation and of every action a step asks for.
pub proof fn lemma_aside_answers_are_taken<T>(
    flow: AsideFlow<T>,
    ev: CacheEvent<T>,
    answer: CacheEvent<T>,
    key: String,
    ttl_seconds: usize,
)
    ensures
        answers(CacheAction::<T>::Connect, answer) ==> !(AsideFlow::<T>::initial_get_or_fetch(
            key,
            ttl_seconds,
        ).next(answer).1 is Idle),
        answers(CacheAction::<T>::Fetch, answer) ==> !(AsideFlow::<T>::initial_fetch_and_cache(
            key,
            ttl_seconds,
        ).next(answer).1 is Idle),
        !(flow.next(ev).1 is Idle) && !(flow.next(ev).1 is Finish) && answers(flow.next(ev).1, answer)
            ==> !(flow.next(ev).0.next(answer).1 is Idle),
{
}

/// The same of `get`, `set`, `delete` and `invalidate_pattern`.
pub proof fn lemma_simple_answers_are_taken<T>(
    g: GetFlow,
    s: SetFlow,
    d: DeleteFlow,
    inv: InvalidateFlow,
    ev: CacheEvent<T>,
    answer: CacheEvent<T>,
)
    ensures
        answers(CacheAction::<()>::Connect, answer) ==> {
            &&& !(GetFlow::initial(g.key).next(answer).1 is Idle)
            &&& !(SetFlow::initial(s.key, s.ttl_seconds).next(answer).1 is Idle)
            &&& !(DeleteFlow::initial(d.key).next(answer).1 is Idle)
            &&& !(InvalidateFlow::initial(inv.pattern).next(answer).1 is Idle)
        },
        !(g.next(ev).1 is Idle) && !(g.next(ev).1 is Finish) && answers(g.next(ev).1, answer)
            ==> !(g.next(ev).0.next(answer).1 is Idle),
        !(s.next(ev).1 is Idle) && !(s.next(ev).1 is Finish) && answers(s.next(ev).1, answer)
            ==> !(s.next(ev).0.next(answer).1 is Idle),
        !(d.next(ev).1 is Idle) && !(d.next(ev).1 is Finish) && answers(d.next(ev).1, answer)
            ==> !(d.next(ev).0.next(answer).1 is Idle),
        !(inv.next(ev).1 is Idle) && !(inv.next(ev).1 is Finish) && answers(inv.next(ev).1, answer)
            ==> !(inv.next(ev).0.next(answer).1 is Idle),
{
}

/// A `get`, `set`, `delete` or `invalidate_pattern` asks to send a command
/// only once it has connected: its first send follows a successful
/// connect, it never goes back to connecting, and it leaves connecting for
/// anything but the end only on a successful connect.
pub proof fn lemma_simple_sends_follow_connect<T>(
    g: GetFlow,
    s: SetFlow,
    d: DeleteFlow,
    inv: InvalidateFlow,
    ev: CacheEvent<T>,
)
    ensures
        g.next(ev).1 is Send ==> !(g.phase is Connecting) || ev matches CacheEvent::Connected(Ok(_)),
        s.next(ev).1 is Send ==> !(s.phase is Connecting) || ev matches CacheEvent::Connected(Ok(_)),
        d.next(ev).1 is Send ==> !(d.phase is Connecting) || ev matches CacheEvent::Connected(Ok(_)),
        inv.next(ev).1 is Send ==> !(inv.phase is Connecting) || ev matches CacheEvent::Connected(Ok(_)),
        !(g.phase is Connecting) ==> !(g.next(ev).0.phase is Connecting),
        !(s.phase is Connecting) ==> !(s.next(ev).0.phase is Connecting),
        !(d.phase is Connecting) ==> !(d.next(ev).0.phase is Connecting),
        !(inv.phase is Connecting) ==> !(inv.next(ev).0.phase is Connecting),
        g.phase is Connecting && !(g.next(ev).0.phase is Connecting) && !(g.next(ev).0.phase is Done)
            ==> ev matches CacheEvent::Connected(Ok(_)),
        s.phase is Connecting && !(s.next(ev).0.phase is Connecting) && !(s.next(ev).0.phase is Done)
            ==> ev matches CacheEvent::Connected(Ok(_)),
        d.phase is Connecting && !(d.next(ev).0.phase is Connecting) && !(d.next(ev).0.phase is Done)
            ==> ev matches CacheEvent::Connected(Ok(_)),
        inv.phase is Connecting && !(inv.next(ev).0.phase is Connecting) && !(inv.next(ev).0.phase is Done)
            ==> ev matches CacheEvent::Connected(Ok(_)),
{
}

proof fn lemma_aside_send_needs_connect<T>(flow: AsideFlow<T>, ev: CacheEvent<T>)
    ensures
        flow.next(ev).1 is Send ==> connected(flow) || ev matches CacheEvent::Connected(Ok(_)),
        !connected(flow) && connected(flow.next(ev).0) ==> ev matches CacheEvent::Connected(Ok(_)),
{
}

proof fn lemma_run_sends_after_connect<T>(flow: AsideFlow<T>, events: Seq<CacheEvent<T>>)
    ensures
        run(flow, events).1.len() == events.len(),
        forall|i: int|
            0 <= i < events.len() && (#[trigger] run(flow, events).1[i] is Send) ==> connected(flow) || exists|j: int|
                0 <= j <= i && events[j] is Connected && events[j]->Connected_0 is Ok,
    decreases events.len(),
{
    if events.len() > 0 {
        let (next_flow, action) = flow.next(events[0]);
        let rest = events.drop_first();
        lemma_aside_send_needs_connect(flow, events[0]);
        lemma_run_sends_after_connect(next_flow, rest);
        let acts = run(next_flow, rest).1;
        assert(run(flow, events).1 == seq![action] + acts);
        assert forall|i: int|
            0 <= i < events.len() && (#[trigger] run(flow, events).1[i] is Send) implies connected(flow) || exists|j: int|
                0 <= j <= i && events[j] is Connected && events[j]->Connected_0 is Ok by {
            if i == 0 {
                if !connected(flow) {
                    assert(events[0] matches CacheEvent::Connected(Ok(_)));
                }
            } else {
                assert(run(flow, events).1[i] == acts[i - 1]);
                assert(acts[i - 1] is Send);
                if !connected(flow) {
                    if connected(next_flow) {
                        assert(events[0] matches CacheEvent::Connected(Ok(_)));
                    } else {
                        let j2 = choose|j: int| 0 <= j <= i - 1 && rest[j] is Connected && rest[j]->Connected_0 is Ok;
                        assert(events[j2 + 1] == rest[j2]);
                    }
                }
            }
        }
    }
}

/// A cache-aside operation asks to send a command only after a successful
/// connect: in every run of either operation, each `Send` comes at or
/// after an event that reports a connection obtained.
pub proof fn lemma_aside_sends_follow_connect<T>(key: String, ttl_seconds: usize, events: Seq<CacheEvent<T>>)
    ensures
        forall|i: int|
            0 <= i < events.len() && (#[trigger] run(
                AsideFlow::<T>::initial_get_or_fetch(key, ttl_seconds),
                events,
            ).1[i] is Send) ==> exists|j: int| 0 <= j <= i && events[j] is Connected && events[j]->Connected_0 is Ok,
        forall|i: int|
            0 <= i < events.len() && (#[trigger] run(
                AsideFlow::<T>::initial_fetch_and_cache(key, ttl_seconds),
                events,
            ).1[i] is Send) ==> exists|j: int| 0 <= j <= i && events[j] is Connected && events[j]->Connected_0 is Ok,
{
    lemma_run_sends_after_connect(AsideFlow::<T>::initial_get_or_fetch(key, ttl_seconds), events);
    lemma_run_sends_after_connect(AsideFlow::<T>::initial_fetch_and_cache(key, ttl_seconds), events);
}

proof fn lemma_run_no_fetch<T>(flow: AsideFlow<T>, events: Seq<CacheEvent<T>>)
    requires
        !(flow.phase is Reading),
    ensures
        run(flow, events).1.len() == events.len(),
        forall|i: int| 0 <= i < events.len() ==> !(#[trigger] run(flow, events).1[i] is Fetch),
    decreases events.len(),
{
    if events.len() > 0 {
        let (next_flow, action) = flow.next(events[0]);
        if action is Fetch {
            lemma_fetch_only_on_miss(flow, events[0]);
        }
        lemma_no_read_after_reading(flow, events[0]);
        lemma_run_no_fetch(next_flow, events.drop_first());
        let acts = run(next_flow, events.drop_first()).1;
        assert(run(flow, events).1 == seq![action] + acts);
        assert forall|i: int| 0 <= i < events.len() implies !(#[trigger] run(flow, events).1[i] is Fetch) by {
            if i > 0 {
                assert(run(flow, events).1[i] == acts[i - 1]);
            }
        }
    }
}

proof fn lemma_run_fetch_at_most_once<T>(flow: AsideFlow<T>, events: Seq<CacheEvent<T>>)
    ensures
        run(flow, events).1.len() == events.len(),
        forall|i: int, j: int|
            0 <= i < j < events.len() ==> !(#[trigger] run(flow, events).1[i] is Fetch && #[trigger] run(
                flow,
                events,
            ).1[j] is Fetch),
    decreases events.len(),
{
    if events.len() > 0 {
        let (next_flow, action) = flow.next(events[0]);
        let rest = events.drop_first();
        lemma_run_fetch_at_most_once(next_flow, rest);
        let acts = run(next_flow, rest).1;
        assert(run(flow, events).1 == seq![action] + acts);
        if action is Fetch {
            lemma_fetch_only_on_miss(flow, events[0]);
            lemma_run_no_fetch(next_flow, rest);
        }
        assert forall|i: int, j: int| 0 <= i < j < events.len() implies !(#[trigger] run(flow, events).1[i] is Fetch
            && #[trigger] run(flow, events).1[j] is Fetch) by {
            assert(run(flow, events).1[j] == acts[j - 1]);
            if i > 0 {
                assert(run(flow, events).1[i] == acts[i - 1]);
            }
        }
    }
}

/// The fetch function is called at most once per operation: `get_or_fetch`
/// asks for it at most once in any run, and `fetch_and_cache`, whose first
/// action is the fetch, never asks for it again.
pub proof fn lemma_fetch_at_most_once<T>(key: String, ttl_seconds: usize, events: Seq<CacheEvent<T>>)
    ensures
        forall|i: int, j: int|
            0 <= i < j < events.len() ==> !(#[trigger] run(
                AsideFlow::<T>::initial_get_or_fetch(key, ttl_seconds),
                events,
            ).1[i] is Fetch && #[trigger] run(AsideFlow::<T>::initial_get_or_fetch(key, ttl_seconds), events).1[j] is Fetch),
        forall|i: int|
            0 <= i < events.len() ==> !(#[trigger] run(
                AsideFlow::<T>::initial_fetch_and_cache(key, ttl_seconds),
                events,
            ).1[i] is Fetch),
{
    lemma_run_fetch_at_most_once(AsideFlow::<T>::initial_get_or_fetch(key, ttl_seconds), events);
    lemma_run_no_fetch(AsideFlow::<T>::initial_fetch_and_cache(key, ttl_seconds), events);
}

} // verus!
