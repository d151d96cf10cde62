use kv_coordinator::errors::ApiError;
use kv_coordinator::read::{
    admits, deliver, get_data_handler, read_begin, try_get_data_handler, Lookup, ReadAction,
    ReadAnswer, ReadState,
};
use kv_coordinator::reply::{get_data_reply, set_data_reply};
use kv_coordinator::write::{
    cache_entry, set_data_handler, store_or_reject, write_begin, SetRequestData, WriteAction,
    WriteState,
};
use std::collections::{HashMap, HashSet};
use valence_core::api::responses::JsonReply;
use warp::hyper::StatusCode;

/// Three in-memory backends, each of which can be told to fail, and a log of
/// what was asked of them.
struct World {
    filter: HashSet<String>,
    cache: HashMap<String, Option<String>>,
    expiry: HashMap<String, usize>,
    store: HashMap<String, serde_json::Value>,
    store_blobs: HashMap<String, Option<String>>,
    fail_cache: bool,
    fail_expiry: bool,
    fail_store: bool,
    fail_filter: bool,
    log: Vec<String>,
}

fn world() -> World {
    World {
        filter: HashSet::new(),
        cache: HashMap::new(),
        expiry: HashMap::new(),
        store: HashMap::new(),
        store_blobs: HashMap::new(),
        fail_cache: false,
        fail_expiry: false,
        fail_store: false,
        fail_filter: false,
        log: Vec::new(),
    }
}

fn request(address: &str, data: &str) -> SetRequestData {
    SetRequestData { address: address.to_string(), data: data.to_string() }
}

fn lookup(found: Option<&Option<String>>) -> Lookup {
    match found {
        Some(Some(blob)) => Lookup::Found(blob.clone()),
        Some(None) => Lookup::Empty,
        None => Lookup::Failed,
    }
}

/// Performs a write against the world and returns the state and the action
/// that ended it.
fn run_set(w: &mut World, req: &SetRequestData, ttl: usize) -> (WriteState, WriteAction) {
    let (mut state, mut action) = write_begin(req);
    loop {
        let ok = match action {
            WriteAction::WriteCache { key, blob } => {
                w.log.push("cache.set".to_string());
                if !w.fail_cache {
                    w.cache.insert(key, Some(blob));
                }
                !w.fail_cache
            }
            WriteAction::SetExpiry { key, ttl } => {
                w.log.push("cache.expire".to_string());
                if !w.fail_expiry {
                    w.expiry.insert(key, ttl);
                }
                !w.fail_expiry
            }
            WriteAction::WriteStore { key, value } => {
                w.log.push("store.set".to_string());
                if !w.fail_store {
                    w.store.insert(key, value);
                }
                !w.fail_store
            }
            WriteAction::AddToFilter { key } => {
                w.log.push("filter.add".to_string());
                if !w.fail_filter {
                    w.filter.insert(key);
                }
                !w.fail_filter
            }
            last => return (state, last),
        };
        let next = set_data_handler(req, ttl, state, ok);
        state = next.0;
        action = next.1;
    }
}

/// Performs a read against the world and returns the state and the action
/// that ended it.
fn run_get(w: &mut World, key: &str) -> (ReadState, ReadAction) {
    let (mut state, mut action) = read_begin(key);
    loop {
        let answer = match action {
            ReadAction::CheckFilter { key } => {
                w.log.push("filter.contains".to_string());
                ReadAnswer::Filter(w.filter.contains(&key))
            }
            ReadAction::QueryCache { key } => {
                w.log.push("cache.get".to_string());
                ReadAnswer::Backend(lookup(w.cache.get(&key)))
            }
            ReadAction::QueryStore { key } => {
                w.log.push("store.get".to_string());
                ReadAnswer::Backend(lookup(w.store_blobs.get(&key)))
            }
            last => return (state, last),
        };
        let next = try_get_data_handler(key, state, answer).expect("an answer that can be read");
        state = next.0;
        action = next.1;
    }
}

fn shown(reply: &JsonReply) -> String {
    format!("{:?}", reply)
}

fn envelope(body: &str, code: StatusCode) -> String {
    shown(&JsonReply::new(body.as_bytes().to_vec()).with_code(code))
}

fn unreadable() -> ReadAnswer {
    ReadAnswer::Backend(Lookup::Found("not json".to_string()))
}

fn json_object_a1() -> serde_json::Value {
    let mut fields = serde_json::Map::new();
    fields.insert("a".to_string(), serde_json::Value::from(1));
    serde_json::Value::Object(fields)
}

#[test]
fn set_then_get_round_trip() {
    let mut w = world();
    let req = request("addr1", "{\"a\":1}");
    let (state, last) = run_set(&mut w, &req, 60);
    assert_eq!(state, WriteState::Done);
    assert_eq!(w.cache.get("addr1"), Some(&Some("\"{\\\"a\\\":1}\"".to_string())));
    assert_eq!(w.expiry.get("addr1"), Some(&60));
    assert_eq!(w.store.get("addr1"), Some(&json_object_a1()));
    assert!(w.filter.contains("addr1"));
    assert_eq!(w.log, vec!["cache.set", "cache.expire", "store.set", "filter.add"]);
    match &last {
        WriteAction::Succeed { payload } => assert_eq!(payload, "addr1"),
        _ => panic!("the write did not succeed"),
    }
    let reply = set_data_reply(last).unwrap().unwrap();
    assert_eq!(
        shown(&reply),
        envelope(
            "{\"status\":\"Success\",\"reason\":\"Data set succcessfully\",\"route\":\"set_data\",\"content\":\"addr1\"}",
            StatusCode::OK
        )
    );

    w.log.clear();
    let (state, last) = run_get(&mut w, "addr1");
    assert_eq!(state, ReadState::Done);
    assert_eq!(w.log, vec!["filter.contains", "cache.get"]);
    match &last {
        ReadAction::Succeed { record } => assert_eq!(record, "{\"a\":1}"),
        _ => panic!("the read did not succeed"),
    }
    let reply = get_data_reply(last).unwrap().unwrap();
    assert_eq!(
        shown(&reply),
        envelope(
            "{\"status\":\"Success\",\"reason\":\"Data retrieved successfully\",\"route\":\"get_data\",\"content\":\"{\\\"a\\\":1}\"}",
            StatusCode::OK
        )
    );
}

#[test]
fn get_unknown_key_fails_at_the_filter() {
    let mut w = world();
    w.cache.insert("unknown".to_string(), Some("\"cached\"".to_string()));
    w.store_blobs.insert("unknown".to_string(), Some("\"stored\"".to_string()));
    let (state, last) = run_get(&mut w, "unknown");
    assert_eq!(state, ReadState::Failed(ApiError::CuckooFilterLookupFailed));
    assert_eq!(w.log, vec!["filter.contains"]);
    match &last {
        ReadAction::Fail { error } => assert_eq!(*error, ApiError::CuckooFilterLookupFailed),
        _ => panic!("the read did not fail"),
    }
    let reply = get_data_reply(last).unwrap().unwrap_err();
    assert_eq!(
        shown(&reply),
        envelope(
            "{\"status\":\"Error\",\"reason\":\"Cuckoo filter lookup failed, data for address not found on this Valence\",\"route\":\"get_data\",\"content\":\"null\"}",
            StatusCode::INTERNAL_SERVER_ERROR
        )
    );
}

#[test]
fn get_prefers_the_cache() {
    let mut w = world();
    w.filter.insert("k".to_string());
    w.cache.insert("k".to_string(), Some("\"from cache\"".to_string()));
    w.store_blobs.insert("k".to_string(), Some("\"from store\"".to_string()));
    let (state, last) = run_get(&mut w, "k");
    assert_eq!(state, ReadState::Done);
    assert_eq!(w.log, vec!["filter.contains", "cache.get"]);
    match last {
        ReadAction::Succeed { record } => assert_eq!(record, "from cache"),
        _ => panic!("the read did not succeed"),
    }
}

#[test]
fn get_falls_back_to_the_store() {
    let mut w = world();
    w.filter.insert("k".to_string());
    w.store_blobs.insert("k".to_string(), Some("\"from store\"".to_string()));
    let (state, last) = run_get(&mut w, "k");
    assert_eq!(state, ReadState::Done);
    assert_eq!(w.log, vec!["filter.contains", "cache.get", "store.get"]);
    match last {
        ReadAction::Succeed { record } => assert_eq!(record, "from store"),
        _ => panic!("the read did not succeed"),
    }
    // The fallback does not fill the cache.
    assert!(w.cache.get("k").is_none());
}

#[test]
fn get_takes_an_empty_cache_entry_as_an_answer() {
    let mut w = world();
    w.filter.insert("k".to_string());
    w.cache.insert("k".to_string(), None);
    w.store_blobs.insert("k".to_string(), Some("\"from store\"".to_string()));
    let (state, last) = run_get(&mut w, "k");
    assert_eq!(state, ReadState::Done);
    assert_eq!(w.log, vec!["filter.contains", "cache.get"]);
    match last {
        ReadAction::Succeed { record } => assert_eq!(record, ""),
        _ => panic!("the read did not succeed"),
    }
}

#[test]
fn get_fails_when_cache_and_store_fail() {
    let mut w = world();
    w.filter.insert("k".to_string());
    let (state, last) = run_get(&mut w, "k");
    assert_eq!(state, ReadState::Failed(ApiError::DBInsertionFailed));
    assert_eq!(w.log, vec!["filter.contains", "cache.get", "store.get"]);
    let reply = get_data_reply(last).unwrap().unwrap_err();
    assert_eq!(
        shown(&reply),
        envelope(
            "{\"status\":\"Error\",\"reason\":\"DB insertion failed\",\"route\":\"get_data\",\"content\":\"null\"}",
            StatusCode::INTERNAL_SERVER_ERROR
        )
    );
}

#[test]
fn get_step_is_undefined_on_what_cannot_be_read() {
    let bad = ReadAnswer::Backend(Lookup::Found("{\"a\":1}".to_string()));
    assert!(!admits(ReadState::FilterPassed, &bad));
    assert!(!admits(ReadState::CacheMissed, &bad));
    assert!(try_get_data_handler("k", ReadState::FilterPassed, bad.clone()).is_none());
    assert!(try_get_data_handler("k", ReadState::CacheMissed, bad).is_none());
    let empty = ReadAnswer::Backend(Lookup::Empty);
    assert!(admits(ReadState::FilterPassed, &empty));
    assert!(admits(ReadState::CacheMissed, &empty));
    assert!(admits(ReadState::Start, &unreadable()));
    let good = ReadAnswer::Backend(Lookup::Found("\"x\\ny\"".to_string()));
    assert!(admits(ReadState::CacheMissed, &good));
    let (state, action) = get_data_handler("k", ReadState::CacheMissed, good);
    assert_eq!(state, ReadState::Done);
    match action {
        ReadAction::Succeed { record } => assert_eq!(record, "x\ny"),
        _ => panic!("the read did not succeed"),
    }
}

#[test]
fn get_passes_over_an_answer_of_the_wrong_kind() {
    let (state, action) =
        get_data_handler("k", ReadState::Start, ReadAnswer::Backend(Lookup::Failed));
    assert_eq!(state, ReadState::Start);
    assert!(matches!(action, ReadAction::Nothing));
    let (state, action) = get_data_handler("k", ReadState::FilterPassed, ReadAnswer::Filter(true));
    assert_eq!(state, ReadState::FilterPassed);
    assert!(matches!(action, ReadAction::Nothing));
    let (state, action) = get_data_handler("k", ReadState::Done, ReadAnswer::Filter(true));
    assert_eq!(state, ReadState::Done);
    assert!(matches!(action, ReadAction::Nothing));
    assert!(get_data_reply(action).is_none());
    assert!(ReadState::Done.is_terminal());
    assert!(ReadState::Failed(ApiError::DBInsertionFailed).is_terminal());
    assert!(!ReadState::CacheMissed.is_terminal());
}

#[test]
fn deliver_ends_the_read() {
    let (state, action) = deliver("abc".to_string());
    assert_eq!(state, ReadState::Done);
    match action {
        ReadAction::Succeed { record } => assert_eq!(record, "abc"),
        _ => panic!("the read did not succeed"),
    }
}

#[test]
fn set_stops_at_a_failing_cache() {
    let mut w = world();
    w.fail_cache = true;
    let (state, last) = run_set(&mut w, &request("k", "{}"), 5);
    assert_eq!(state, WriteState::Failed(ApiError::CacheInsertionFailed));
    assert_eq!(w.log, vec!["cache.set"]);
    assert!(w.store.is_empty());
    assert!(w.filter.is_empty());
    let reply = set_data_reply(last).unwrap().unwrap_err();
    assert_eq!(
        shown(&reply),
        envelope(
            "{\"status\":\"Error\",\"reason\":\"Cache insertion failed\",\"route\":\"set_data\",\"content\":\"null\"}",
            StatusCode::INTERNAL_SERVER_ERROR
        )
    );
}

#[test]
fn set_stops_at_a_failing_store() {
    let mut w = world();
    w.fail_store = true;
    let (state, last) = run_set(&mut w, &request("k", "[1,2]"), 5);
    assert_eq!(state, WriteState::Failed(ApiError::DBInsertionFailed));
    assert_eq!(w.log, vec!["cache.set", "cache.expire", "store.set"]);
    assert!(w.filter.is_empty());
    // The cache entry stays.
    assert_eq!(w.cache.get("k"), Some(&Some("\"[1,2]\"".to_string())));
    assert!(matches!(last, WriteAction::Fail { error: ApiError::DBInsertionFailed }));
}

#[test]
fn set_reports_a_failing_filter() {
    let mut w = world();
    w.fail_filter = true;
    let (state, last) = run_set(&mut w, &request("k", "true"), 5);
    assert_eq!(state, WriteState::Failed(ApiError::CuckooFilterInsertionFailed));
    assert_eq!(w.store.get("k"), Some(&serde_json::Value::Bool(true)));
    assert!(w.cache.contains_key("k"));
    assert!(matches!(last, WriteAction::Fail { error: ApiError::CuckooFilterInsertionFailed }));
}

#[test]
fn set_rejects_a_malformed_record_before_the_store() {
    let mut w = world();
    let (state, last) = run_set(&mut w, &request("k", "{not json"), 5);
    assert_eq!(state, WriteState::Failed(ApiError::DataSerializationFailed));
    assert_eq!(w.log, vec!["cache.set", "cache.expire"]);
    assert!(w.store.is_empty());
    assert!(w.filter.is_empty());
    let reply = set_data_reply(last).unwrap().unwrap_err();
    assert_eq!(
        shown(&reply),
        envelope(
            "{\"status\":\"Error\",\"reason\":\"Data serialization failed\",\"route\":\"set_data\",\"content\":\"null\"}",
            StatusCode::INTERNAL_SERVER_ERROR
        )
    );
}

#[test]
fn set_goes_on_after_a_failing_expiry() {
    let mut w = world();
    w.fail_expiry = true;
    let req = request("k", "{\"a\":1}");
    let (state, action) = set_data_handler(&req, 9, WriteState::CacheWritten, false);
    assert_eq!(state, WriteState::ExpirySkipped);
    assert!(matches!(action, WriteAction::WriteStore { .. }));
    let (state, last) = run_set(&mut w, &req, 9);
    assert_eq!(state, WriteState::Done);
    assert_eq!(w.log, vec!["cache.set", "cache.expire", "store.set", "filter.add"]);
    assert!(w.expiry.is_empty());
    assert_eq!(w.store.get("k"), Some(&json_object_a1()));
    assert!(w.filter.contains("k"));
    assert!(matches!(last, WriteAction::Succeed { .. }));
}

#[test]
fn set_twice_changes_nothing_more() {
    let mut w = world();
    let req = request("k", "{\"a\":1}");
    let (first, _) = run_set(&mut w, &req, 60);
    let (cache, expiry, store, filter) =
        (w.cache.clone(), w.expiry.clone(), w.store.clone(), w.filter.clone());
    let (second, _) = run_set(&mut w, &req, 60);
    assert_eq!(first, WriteState::Done);
    assert_eq!(second, WriteState::Done);
    assert_eq!(w.cache, cache);
    assert_eq!(w.expiry, expiry);
    assert_eq!(w.store, store);
    assert_eq!(w.filter, filter);
}

#[test]
fn set_steps_one_by_one() {
    let req = request("addr1", "{\"a\":1}");
    let (state, action) = write_begin(&req);
    assert_eq!(state, WriteState::Start);
    match action {
        WriteAction::WriteCache { key, blob } => {
            assert_eq!(key, "addr1");
            assert_eq!(blob, "\"{\\\"a\\\":1}\"");
        }
        _ => panic!("the first action is the cache write"),
    }
    let (state, action) = set_data_handler(&req, 60, WriteState::Start, true);
    assert_eq!(state, WriteState::CacheWritten);
    match action {
        WriteAction::SetExpiry { key, ttl } => {
            assert_eq!(key, "addr1");
            assert_eq!(ttl, 60);
        }
        _ => panic!("the second action sets the expiry"),
    }
    let (state, action) = set_data_handler(&req, 60, WriteState::CacheWritten, true);
    assert_eq!(state, WriteState::ExpirySet);
    match action {
        WriteAction::WriteStore { key, value } => {
            assert_eq!(key, "addr1");
            assert_eq!(value, json_object_a1());
        }
        _ => panic!("the third action is the store write"),
    }
    let (state, action) = set_data_handler(&req, 60, WriteState::ExpirySet, true);
    assert_eq!(state, WriteState::StoreWritten);
    match action {
        WriteAction::AddToFilter { key } => assert_eq!(key, "addr1"),
        _ => panic!("the fourth action is the filter insert"),
    }
    let (state, action) = set_data_handler(&req, 60, WriteState::StoreWritten, true);
    assert_eq!(state, WriteState::Done);
    assert!(matches!(action, WriteAction::Succeed { .. }));
    let (state, action) = set_data_handler(&req, 60, WriteState::Done, false);
    assert_eq!(state, WriteState::Done);
    assert!(matches!(action, WriteAction::Nothing));
    assert!(set_data_reply(action).is_none());
    assert!(WriteState::Done.is_terminal());
    assert!(!WriteState::StoreWritten.is_terminal());
}

#[test]
fn store_or_reject_follows_the_parse() {
    let req = request("k", "ignored");
    let good = serde_json::from_str::<serde_json::Value>("[null]");
    let (state, action) = store_or_reject(&req, false, good);
    assert_eq!(state, WriteState::ExpirySkipped);
    match action {
        WriteAction::WriteStore { key, value } => {
            assert_eq!(key, "k");
            assert_eq!(value, serde_json::Value::Array(vec![serde_json::Value::Null]));
        }
        _ => panic!("a parsed record goes to the store"),
    }
    let bad = serde_json::from_str::<serde_json::Value>("[");
    let (state, action) = store_or_reject(&req, true, bad);
    assert_eq!(state, WriteState::Failed(ApiError::DataSerializationFailed));
    assert!(matches!(action, WriteAction::Fail { error: ApiError::DataSerializationFailed }));
}

#[test]
fn cache_entry_carries_the_blob() {
    let req = request("k", "ignored");
    let (state, action) = cache_entry(&req, "\"blob\"".to_string());
    assert_eq!(state, WriteState::Start);
    match action {
        WriteAction::WriteCache { key, blob } => {
            assert_eq!(key, "k");
            assert_eq!(blob, "\"blob\"");
        }
        _ => panic!("the first action is the cache write"),
    }
}

#[test]
fn set_escapes_the_record_for_the_cache() {
    let req = request("k", "a\"b\\c\nd");
    match write_begin(&req).1 {
        WriteAction::WriteCache { blob, .. } => assert_eq!(blob, "\"a\\\"b\\\\c\\nd\""),
        _ => panic!("the first action is the cache write"),
    }
}

#[test]
fn get_fails_when_the_store_has_no_value() {
    let mut w = world();
    w.filter.insert("k".to_string());
    w.store_blobs.insert("k".to_string(), None);
    let (state, last) = run_get(&mut w, "k");
    assert_eq!(state, ReadState::Failed(ApiError::DBInsertionFailed));
    assert_eq!(w.log, vec!["filter.contains", "cache.get", "store.get"]);
    match &last {
        ReadAction::Fail { error } => assert_eq!(*error, ApiError::DBInsertionFailed),
        _ => panic!("the read did not fail"),
    }
    let reply = get_data_reply(last).unwrap().unwrap_err();
    assert_eq!(
        shown(&reply),
        envelope(
            "{\"status\":\"Error\",\"reason\":\"DB insertion failed\",\"route\":\"get_data\",\"content\":\"null\"}",
            StatusCode::INTERNAL_SERVER_ERROR
        )
    );
}

#[test]
fn get_step_on_an_empty_store_answer() {
    let empty = ReadAnswer::Backend(Lookup::Empty);
    let (state, action) = get_data_handler("k", ReadState::CacheMissed, empty.clone());
    assert_eq!(state, ReadState::Failed(ApiError::DBInsertionFailed));
    assert!(matches!(action, ReadAction::Fail { error: ApiError::DBInsertionFailed }));
    let (state, action) = try_get_data_handler("k", ReadState::CacheMissed, empty).unwrap();
    assert_eq!(state, ReadState::Failed(ApiError::DBInsertionFailed));
    assert!(matches!(action, ReadAction::Fail { error: ApiError::DBInsertionFailed }));
}

#[test]
fn cached_blob_decodes_to_the_record_written() {
    let records = [
        "",
        "{\"a\":1}",
        "quote \" backslash \\ slash /",
        "line\nfeed\ttab\rreturn",
        "\u{0}\u{1}\u{8}\u{c}\u{1f}\u{7f}",
        "gr\u{fc}\u{df}e \u{4e16}\u{754c} \u{1f600}",
        "\\u0041 is no escape here",
    ];
    for record in records {
        let req = request("k", record);
        let blob = match write_begin(&req).1 {
            WriteAction::WriteCache { blob, .. } => blob,
            _ => panic!("the first action is the cache write"),
        };
        let answer = ReadAnswer::Backend(Lookup::Found(blob));
        assert!(admits(ReadState::FilterPassed, &answer));
        assert!(admits(ReadState::CacheMissed, &answer));
        let (state, action) = get_data_handler("k", ReadState::FilterPassed, answer);
        assert_eq!(state, ReadState::Done);
        match action {
            ReadAction::Succeed { record: found } => assert_eq!(found, record),
            _ => panic!("the read did not succeed"),
        }
    }
}
