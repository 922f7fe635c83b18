use pleme_database::cache_flow::{
    AsideFlow, CacheAction, CacheCommand, CacheEvent, CacheReply, DeleteFlow, GetFlow, InvalidateFlow, SetFlow,
};
use pleme_database::DatabaseError;

fn ok_connect<T>() -> CacheEvent<T> {
    CacheEvent::Connected(Ok(()))
}

fn key(s: &str) -> String {
    s.to_string()
}

#[test]
fn get_hit_decodes_cached_text() {
    let (f, a) = GetFlow::begin::<Option<u32>>(key("user:1"));
    assert!(matches!(a, CacheAction::Connect));
    let (f, a) = f.step::<u32>(ok_connect());
    assert!(matches!(a, CacheAction::Send(CacheCommand::Get { ref key }) if key == "user:1"));
    let (f, a) = f.step::<u32>(CacheEvent::Replied(Ok(CacheReply::Value(Some("42".to_string())))));
    assert!(matches!(a, CacheAction::Decode(ref t) if t == "42"));
    let (_f, a) = f.step::<u32>(CacheEvent::Decoded(Ok(42)));
    assert!(matches!(a, CacheAction::Finish(Ok(Some(42)))));
}

#[test]
fn get_miss_returns_none() {
    let (f, _) = GetFlow::begin::<Option<u32>>(key("k"));
    let (f, _) = f.step::<u32>(ok_connect());
    let (f, a) = f.step::<u32>(CacheEvent::Replied(Ok(CacheReply::Value(None))));
    assert!(matches!(a, CacheAction::Finish(Ok(None))));
    let (_f, a) = f.step::<u32>(CacheEvent::Decoded(Ok(1)));
    assert!(matches!(a, CacheAction::Idle));
}

#[test]
fn get_decode_failure_is_cache_error() {
    let (f, _) = GetFlow::begin::<Option<u32>>(key("k"));
    let (f, _) = f.step::<u32>(ok_connect());
    let (f, _) = f.step::<u32>(CacheEvent::Replied(Ok(CacheReply::Value(Some("x".to_string())))));
    let (_f, a) = f.step::<u32>(CacheEvent::Decoded(Err(DatabaseError::CacheError("bad json".to_string()))));
    assert!(matches!(a, CacheAction::Finish(Err(DatabaseError::CacheError(ref m))) if m == "bad json"));
}

#[test]
fn get_connection_failure_ends_read() {
    let (f, _) = GetFlow::begin::<Option<u32>>(key("k"));
    let (_f, a) = f.step::<u32>(CacheEvent::Connected(Err(DatabaseError::CacheError("refused".to_string()))));
    assert!(matches!(a, CacheAction::Finish(Err(DatabaseError::CacheError(ref m))) if m == "refused"));
}

#[test]
fn unexpected_event_is_ignored() {
    let (f, _) = GetFlow::begin::<Option<u32>>(key("k"));
    let (f, a) = f.step::<u32>(CacheEvent::Fetched(Ok(3)));
    assert!(matches!(a, CacheAction::Idle));
    let (_f, a) = f.step::<u32>(ok_connect());
    assert!(matches!(a, CacheAction::Send(CacheCommand::Get { .. })));
}

#[test]
fn set_with_ttl_sends_setex() {
    let (f, a) = SetFlow::begin::<()>(key("k"), Some(60));
    assert!(matches!(a, CacheAction::Connect));
    let (f, a) = f.step::<()>(ok_connect());
    assert!(matches!(a, CacheAction::Encode));
    let (f, a) = f.step::<()>(CacheEvent::Encoded(Ok("\"v\"".to_string())));
    assert!(matches!(a, CacheAction::Send(CacheCommand::SetValueEx { ref key, ttl_seconds: 60, ref value })
        if key == "k" && value == "\"v\""));
    let (_f, a) = f.step::<()>(CacheEvent::Replied(Ok(CacheReply::Unit)));
    assert!(matches!(a, CacheAction::Finish(Ok(()))));
}

#[test]
fn set_without_ttl_sends_set() {
    let (f, _) = SetFlow::begin::<()>(key("k"), None);
    let (f, _) = f.step::<()>(ok_connect());
    let (_f, a) = f.step::<()>(CacheEvent::Encoded(Ok("1".to_string())));
    assert!(matches!(a, CacheAction::Send(CacheCommand::SetValue { ref key, ref value }) if key == "k" && value == "1"));
}

#[test]
fn set_encode_failure_sends_nothing() {
    let (f, _) = SetFlow::begin::<()>(key("k"), Some(5));
    let (f, _) = f.step::<()>(ok_connect());
    let (_f, a) = f.step::<()>(CacheEvent::Encoded(Err(DatabaseError::CacheError("no".to_string()))));
    assert!(matches!(a, CacheAction::Finish(Err(DatabaseError::CacheError(_)))));
}

#[test]
fn delete_sends_del_for_key() {
    let (f, _) = DeleteFlow::begin::<()>(key("gone"));
    let (f, a) = f.step::<()>(ok_connect());
    assert!(matches!(a, CacheAction::Send(CacheCommand::Del { ref key }) if key == "gone"));
    let (_f, a) = f.step::<()>(CacheEvent::Replied(Ok(CacheReply::Unit)));
    assert!(matches!(a, CacheAction::Finish(Ok(()))));
}

#[test]
fn delete_reply_failure_is_reported() {
    let (f, _) = DeleteFlow::begin::<()>(key("gone"));
    let (f, _) = f.step::<()>(ok_connect());
    let (_f, a) = f.step::<()>(CacheEvent::Replied(Err(DatabaseError::CacheError("io".to_string()))));
    assert!(matches!(a, CacheAction::Finish(Err(DatabaseError::CacheError(ref m))) if m == "io"));
}

#[test]
fn invalidate_without_matches_returns_zero() {
    let (f, _) = InvalidateFlow::begin::<u64>(key("user:*"));
    let (f, a) = f.step::<()>(ok_connect());
    assert!(matches!(a, CacheAction::Send(CacheCommand::Keys { ref pattern }) if pattern == "user:*"));
    let (f, a) = f.step::<()>(CacheEvent::Replied(Ok(CacheReply::Keys(vec![]))));
    assert!(matches!(a, CacheAction::Finish(Ok(0))));
    let (_f, a) = f.step::<()>(CacheEvent::Replied(Ok(CacheReply::Count(9))));
    assert!(matches!(a, CacheAction::Idle));
}

#[test]
fn invalidate_deletes_listed_keys() {
    let (f, _) = InvalidateFlow::begin::<u64>(key("user:*"));
    let (f, _) = f.step::<()>(ok_connect());
    let listed = vec![key("user:1"), key("user:2")];
    let (f, a) = f.step::<()>(CacheEvent::Replied(Ok(CacheReply::Keys(listed))));
    match a {
        CacheAction::Send(CacheCommand::DelMany { keys }) => assert_eq!(keys, vec![key("user:1"), key("user:2")]),
        _ => panic!("expected DEL of the listed keys"),
    }
    let (_f, a) = f.step::<()>(CacheEvent::Replied(Ok(CacheReply::Count(2))));
    assert!(matches!(a, CacheAction::Finish(Ok(2))));
}

#[test]
fn get_or_fetch_hit_never_fetches() {
    let (f, a) = AsideFlow::<String>::begin_get_or_fetch(key("test:key"), 60);
    assert!(matches!(a, CacheAction::Connect));
    let (f, a) = f.step(ok_connect());
    assert!(matches!(a, CacheAction::Send(CacheCommand::Get { ref key }) if key == "test:key"));
    let (f, a) = f.step(CacheEvent::Replied(Ok(CacheReply::Value(Some("\"value\"".to_string())))));
    assert!(matches!(a, CacheAction::Decode(_)));
    let (f, a) = f.step(CacheEvent::Decoded(Ok("value".to_string())));
    assert!(matches!(a, CacheAction::Finish(Ok(ref v)) if v == "value"));
    let (_f, a) = f.step(CacheEvent::Fetched(Ok("other".to_string())));
    assert!(matches!(a, CacheAction::Idle));
}

#[test]
fn get_or_fetch_miss_fetches_and_stores() {
    let (f, _) = AsideFlow::<String>::begin_get_or_fetch(key("test:key"), 60);
    let (f, _) = f.step(ok_connect());
    let (f, a) = f.step(CacheEvent::Replied(Ok(CacheReply::Value(None))));
    assert!(matches!(a, CacheAction::Fetch));
    assert!(f.held_value().is_none());
    let (f, a) = f.step(CacheEvent::Fetched(Ok("value".to_string())));
    assert!(matches!(a, CacheAction::Connect));
    assert_eq!(f.held_value().map(|v| v.as_str()), Some("value"));
    let (f, a) = f.step(ok_connect());
    assert!(matches!(a, CacheAction::Encode));
    let (f, a) = f.step(CacheEvent::Encoded(Ok("\"value\"".to_string())));
    assert!(matches!(a, CacheAction::Send(CacheCommand::SetValueEx { ref key, ttl_seconds: 60, ref value })
        if key == "test:key" && value == "\"value\""));
    let (_f, a) = f.step(CacheEvent::Replied(Ok(CacheReply::Unit)));
    assert!(matches!(a, CacheAction::Finish(Ok(ref v)) if v == "value"));
}

#[test]
fn get_or_fetch_fetch_failure_is_returned() {
    let (f, _) = AsideFlow::<u8>::begin_get_or_fetch(key("k"), 1);
    let (f, _) = f.step(ok_connect());
    let (f, _) = f.step(CacheEvent::Replied(Ok(CacheReply::Value(None))));
    let (_f, a) = f.step(CacheEvent::Fetched(Err(DatabaseError::NotFound("row".to_string()))));
    assert!(matches!(a, CacheAction::Finish(Err(DatabaseError::NotFound(ref m))) if m == "row"));
}

#[test]
fn get_or_fetch_store_failure_is_returned() {
    let (f, _) = AsideFlow::<u8>::begin_get_or_fetch(key("k"), 1);
    let (f, _) = f.step(ok_connect());
    let (f, _) = f.step(CacheEvent::Replied(Ok(CacheReply::Value(None))));
    let (f, _) = f.step(CacheEvent::Fetched(Ok(7)));
    let (f, _) = f.step(ok_connect());
    let (f, _) = f.step(CacheEvent::Encoded(Ok("7".to_string())));
    let (_f, a) = f.step(CacheEvent::Replied(Err(DatabaseError::CacheError("down".to_string()))));
    assert!(matches!(a, CacheAction::Finish(Err(DatabaseError::CacheError(ref m))) if m == "down"));
}

#[test]
fn get_or_fetch_lookup_failure_stops_before_fetch() {
    let (f, _) = AsideFlow::<u8>::begin_get_or_fetch(key("k"), 1);
    let (_f, a) = f.step(CacheEvent::Connected(Err(DatabaseError::CacheError("refused".to_string()))));
    assert!(matches!(a, CacheAction::Finish(Err(DatabaseError::CacheError(_)))));
}

#[test]
fn fetch_and_cache_always_fetches() {
    let (f, a) = AsideFlow::<u8>::begin_fetch_and_cache(key("k"), 300);
    assert!(matches!(a, CacheAction::Fetch));
    let (f, a) = f.step(CacheEvent::Replied(Ok(CacheReply::Value(Some("1".to_string())))));
    assert!(matches!(a, CacheAction::Idle));
    let (f, a) = f.step(CacheEvent::Fetched(Ok(9)));
    assert!(matches!(a, CacheAction::Connect));
    let (f, _) = f.step(ok_connect());
    let (f, a) = f.step(CacheEvent::Encoded(Ok("9".to_string())));
    assert!(matches!(a, CacheAction::Send(CacheCommand::SetValueEx { ttl_seconds: 300, .. })));
    let (_f, a) = f.step(CacheEvent::Replied(Ok(CacheReply::Unit)));
    assert!(matches!(a, CacheAction::Finish(Ok(9))));
}
