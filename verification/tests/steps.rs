use std::path::PathBuf;
use std::time::{Duration, UNIX_EPOCH};

use cacache::Integrity;
use cacache_ttl::ttl::{empty_metadata, metadata_with_ttl, recorded_expiry_of, write_opts, write_opts_at};
use cacache_ttl::{
    duration_millis, expires_at_millis, millis_since_epoch, expiry_from, is_expired, is_expired_at, list_entry, list_entry_at,
    metadata_with_expiry, now_millis, Error, Json, JsonNumber, ListStep, Metadata, ReadOp, ReadStep, WriteOp,
    EXPIRES_AT_MILLIS,
};

fn object(entries: Vec<(&str, Json)>) -> Json {
    Json::Object(entries.into_iter().map(|(k, v)| (k.to_owned(), v)).collect())
}

fn uint(n: u64) -> Json {
    Json::Number(JsonNumber::PosInt(n))
}

fn text(s: &str) -> Json {
    Json::String(s.to_owned())
}

fn entry(key: &str, metadata: Json) -> Metadata {
    Metadata {
        key: key.to_owned(),
        integrity: Integrity::from(b"content"),
        time: 0,
        size: 7,
        metadata,
        raw_metadata: None,
    }
}

fn keys(json: &Json) -> Vec<String> {
    match json {
        Json::Object(entries) => entries.iter().map(|(k, _)| k.clone()).collect(),
        _ => panic!("not an object"),
    }
}

fn lookup<'a>(json: &'a Json, key: &str) -> Option<&'a Json> {
    json.get(key)
}

fn io_error() -> cacache::Error {
    cacache::Error::SizeMismatch(1, 2)
}

#[test]
fn duration_millis_counts_whole_milliseconds() {
    assert_eq!(duration_millis(Duration::from_secs(60)), 60_000);
    assert_eq!(duration_millis(Duration::from_nanos(1_999_999)), 1);
    assert_eq!(duration_millis(Duration::from_millis(0)), 0);
}

#[test]
fn duration_millis_saturates() {
    assert_eq!(duration_millis(Duration::MAX), u64::MAX);
    assert_eq!(duration_millis(Duration::from_secs(u64::MAX / 1000 + 1)), u64::MAX);
}

#[test]
fn expiry_adds_ttl_to_start() {
    assert_eq!(expiry_from(1_000, Duration::from_secs(60)), 61_000);
    assert_eq!(expiry_from(5, Duration::from_millis(0)), 5);
}

#[test]
fn expiry_saturates() {
    assert_eq!(expiry_from(u64::MAX - 5, Duration::from_secs(1)), u64::MAX);
    assert_eq!(expiry_from(1, Duration::MAX), u64::MAX);
}

#[test]
fn millis_since_epoch_of_clock_readings() {
    assert_eq!(millis_since_epoch(Ok(Duration::from_millis(1_700_000_000_123))), 1_700_000_000_123);
    assert_eq!(millis_since_epoch(Ok(Duration::MAX)), u64::MAX);
    let before_epoch = UNIX_EPOCH.duration_since(UNIX_EPOCH + Duration::from_secs(1));
    assert_eq!(millis_since_epoch(before_epoch), 0);
}

#[test]
fn now_is_after_2020() {
    assert!(now_millis() > 1_577_836_800_000);
}

#[test]
fn expires_at_millis_lies_ahead() {
    let before = now_millis();
    let at = expires_at_millis(Duration::from_secs(60));
    let after = now_millis();
    assert!(at >= before + 60_000);
    assert!(at <= after + 60_000);
}

#[test]
fn expired_only_past_recorded_time() {
    let m = entry("k", object(vec![(EXPIRES_AT_MILLIS, uint(10))]));
    assert!(!is_expired_at(&m, 9));
    assert!(!is_expired_at(&m, 10));
    assert!(is_expired_at(&m, 11));
    assert!(is_expired(&entry("k", object(vec![("expires_at_millis", uint(1))]))));
}

#[test]
fn metadata_without_expiry_never_expires() {
    assert!(!is_expired_at(&entry("k", Json::Null), u64::MAX));
    assert!(!is_expired_at(&entry("k", object(vec![])), u64::MAX));
    assert!(!is_expired_at(&entry("k", object(vec![("custom", uint(1))])), u64::MAX));
    assert!(!is_expired(&entry("k", object(vec![("custom", uint(1))]))));
}

#[test]
fn expiry_that_is_no_u64_is_ignored() {
    let negative = object(vec![(EXPIRES_AT_MILLIS, Json::Number(JsonNumber::NegInt(-1)))]);
    let float = object(vec![(EXPIRES_AT_MILLIS, Json::Number(JsonNumber::Float(1.0f64.to_bits())))]);
    let string = object(vec![(EXPIRES_AT_MILLIS, text("1"))]);
    for metadata in [negative, float, string] {
        assert_eq!(recorded_expiry_of(&metadata), None);
        assert!(!is_expired_at(&entry("k", metadata), u64::MAX));
    }
}

#[test]
fn expiry_is_read_at_first_entry() {
    let m = object(vec![(EXPIRES_AT_MILLIS, uint(3)), (EXPIRES_AT_MILLIS, uint(30))]);
    assert_eq!(recorded_expiry_of(&m), Some(3));
    assert_eq!(recorded_expiry_of(&Json::Array(vec![uint(3)])), None);
}

#[test]
fn non_negative_integer_reads_as_u64() {
    assert_eq!(uint(7).as_u64(), Some(7));
    assert_eq!(Json::Number(JsonNumber::NegInt(7)).as_u64(), Some(7));
    assert_eq!(Json::Number(JsonNumber::NegInt(-7)).as_u64(), None);
    assert_eq!(Json::Bool(true).as_u64(), None);
}

#[test]
fn empty_metadata_is_empty_object() {
    let m = empty_metadata();
    assert!(m.is_object());
    assert!(keys(&m).is_empty());
}

#[test]
fn expiry_added_to_existing_object() {
    let existing = object(vec![
        ("custom", text("preserved")),
        ("nested", object(vec![("ok", Json::Bool(true))])),
    ]);
    let m = metadata_with_expiry(Some(existing), 1234);
    assert_eq!(keys(&m), vec!["custom", "nested", "expires_at_millis"]);
    assert!(matches!(lookup(&m, "custom"), Some(Json::String(s)) if s == "preserved"));
    assert!(matches!(lookup(&m, "nested"), Some(Json::Object(e)) if e.len() == 1));
    assert_eq!(lookup(&m, EXPIRES_AT_MILLIS).and_then(Json::as_u64), Some(1234));
}

#[test]
fn expiry_replaced_in_place() {
    let existing = object(vec![(EXPIRES_AT_MILLIS, uint(1)), ("custom", uint(2))]);
    let m = metadata_with_expiry(Some(existing), 99);
    assert_eq!(keys(&m), vec!["expires_at_millis", "custom"]);
    assert_eq!(recorded_expiry_of(&m), Some(99));
    assert_eq!(lookup(&m, "custom").and_then(Json::as_u64), Some(2));
    let again = metadata_with_expiry(Some(m), 7);
    assert_eq!(keys(&again), vec!["expires_at_millis", "custom"]);
    assert_eq!(recorded_expiry_of(&again), Some(7));
}

#[test]
fn non_object_metadata_gives_way() {
    for existing in [None, Some(Json::Null), Some(text("s")), Some(Json::Array(vec![uint(1)]))] {
        let m = metadata_with_expiry(existing, 5);
        assert_eq!(keys(&m), vec!["expires_at_millis"]);
        assert_eq!(recorded_expiry_of(&m), Some(5));
    }
}

#[test]
fn metadata_with_ttl_records_future_expiry() {
    let before = now_millis();
    let m = metadata_with_ttl(Some(object(vec![("a", uint(1))])), Duration::from_secs(60));
    let expiry = recorded_expiry_of(&m).unwrap();
    assert!(expiry >= before + 60_000);
    assert_eq!(lookup(&m, "a").and_then(Json::as_u64), Some(1));
}

#[test]
fn write_opts_keep_previous_metadata() {
    let current = entry("k", Json::Null);
    let mut previous = entry("k", object(vec![("custom", text("preserved"))]));
    previous.raw_metadata = Some(b"raw".to_vec());
    previous.integrity = Integrity::from(b"old");
    let opts = write_opts_at(current, 500, Some(previous));
    assert_eq!(opts.integrity, Integrity::from(b"content"));
    assert_eq!(opts.size, 7);
    assert_eq!(opts.raw_metadata, Some(b"raw".to_vec()));
    assert_eq!(keys(&opts.metadata), vec!["custom", "expires_at_millis"]);
    assert_eq!(recorded_expiry_of(&opts.metadata), Some(500));
}

#[test]
fn write_opts_without_previous_entry() {
    let opts = write_opts(entry("k", Json::Null), Duration::from_secs(1), None);
    assert_eq!(opts.raw_metadata, None);
    assert_eq!(keys(&opts.metadata), vec!["expires_at_millis"]);
    assert!(recorded_expiry_of(&opts.metadata).unwrap() >= 1000);
}

fn read_op(key: &str) -> ReadOp {
    ReadOp::new(PathBuf::from("cache"), key.to_owned())
}

#[test]
fn read_of_missing_entry_reports_it() {
    match read_op("gone").on_metadata_at(Ok(None), 0) {
        ReadStep::Done(Err(Error::EntryNotFoundOrExpired(cache, key))) => {
            assert_eq!(cache, PathBuf::from("cache"));
            assert_eq!(key, "gone");
        },
        _ => panic!("expected a missing entry"),
    }
}

#[test]
fn read_of_expired_entry_removes_it() {
    let found = entry("old", object(vec![(EXPIRES_AT_MILLIS, uint(1))]));
    match read_op("old").on_metadata_at(Ok(Some(found)), 2) {
        ReadStep::Remove(removal) => {
            assert_eq!(removal.key, "old");
            assert!(matches!(removal.on_removed(Ok(())), Error::EntryNotFoundOrExpired(_, k) if k == "old"));
        },
        _ => panic!("expected a removal"),
    }
}

#[test]
fn read_forwards_removal_error() {
    let found = entry("old", object(vec![(EXPIRES_AT_MILLIS, uint(1))]));
    match read_op("old").on_metadata(Ok(Some(found))) {
        ReadStep::Remove(removal) => {
            assert!(matches!(removal.on_removed(Err(io_error())), Error::Cacache(cacache::Error::SizeMismatch(1, 2))));
        },
        _ => panic!("expected a removal"),
    }
}

#[test]
fn read_of_live_entry_returns_content() {
    let found = entry("new", object(vec![(EXPIRES_AT_MILLIS, uint(10))]));
    match read_op("new").on_metadata_at(Ok(Some(found)), 10) {
        ReadStep::Fetch(fetch) => {
            assert_eq!(fetch.on_content(Ok(b"data".to_vec())).unwrap(), b"data".to_vec());
        },
        _ => panic!("expected a fetch"),
    }
    match read_op("plain").on_metadata(Ok(Some(entry("plain", Json::Null)))) {
        ReadStep::Fetch(fetch) => {
            assert!(matches!(fetch.on_content(Err(io_error())), Err(Error::Cacache(_))));
        },
        _ => panic!("expected a fetch"),
    }
}

#[test]
fn read_forwards_lookup_error() {
    assert!(matches!(read_op("k").on_metadata_at(Err(io_error()), 0), ReadStep::Done(Err(Error::Cacache(_)))));
}

#[test]
fn write_steps_keep_metadata_and_return_integrity() {
    let op = WriteOp::new(PathBuf::from("cache"), "k".to_owned(), Duration::from_secs(60));
    let mut previous = entry("k", object(vec![("custom", text("preserved")), (EXPIRES_AT_MILLIS, uint(3))]));
    previous.raw_metadata = Some(b"raw".to_vec());
    let content = op.on_previous(Ok(Some(previous))).unwrap();
    let written = Integrity::from(b"new content");
    let current = content.on_written(Ok(written.clone())).unwrap();
    let mut now_entry = entry("k", Json::Null);
    now_entry.integrity = written.clone();
    now_entry.size = 11;
    let (opts, index) = current.on_current_at(Ok(Some(now_entry)), 1_000).unwrap();
    assert_eq!(opts.integrity, written);
    assert_eq!(opts.size, 11);
    assert_eq!(opts.raw_metadata, Some(b"raw".to_vec()));
    assert_eq!(keys(&opts.metadata), vec!["custom", "expires_at_millis"]);
    assert_eq!(recorded_expiry_of(&opts.metadata), Some(61_000));
    assert_eq!(index.on_inserted(Ok(Integrity::from(b"other"))).unwrap(), written);
}

#[test]
fn write_of_new_entry_records_only_expiry() {
    let op = WriteOp::new(PathBuf::from("cache"), "k".to_owned(), Duration::from_millis(5));
    let content = op.on_previous(Ok(None)).unwrap();
    let current = content.on_written(Ok(Integrity::from(b"x"))).unwrap();
    let (opts, _) = current.on_current(Ok(Some(entry("k", Json::Null)))).unwrap();
    assert_eq!(keys(&opts.metadata), vec!["expires_at_millis"]);
    assert_eq!(opts.raw_metadata, None);
}

#[test]
fn write_reports_vanished_entry() {
    let op = WriteOp::new(PathBuf::from("cache"), "k".to_owned(), Duration::from_secs(1));
    let current = op.on_previous(Ok(None)).unwrap().on_written(Ok(Integrity::from(b"x"))).unwrap();
    assert!(matches!(current.on_current_at(Ok(None), 0), Err(Error::EntryNotFoundOrExpired(_, k)) if k == "k"));
}

#[test]
fn write_forwards_errors() {
    let op = || WriteOp::new(PathBuf::from("cache"), "k".to_owned(), Duration::from_secs(1));
    assert!(matches!(op().on_previous(Err(io_error())), Err(Error::Cacache(_))));
    let content = op().on_previous(Ok(None)).unwrap();
    assert!(matches!(content.on_written(Err(io_error())), Err(Error::Cacache(_))));
    let current = op().on_previous(Ok(None)).unwrap().on_written(Ok(Integrity::from(b"x"))).unwrap();
    assert!(matches!(current.on_current_at(Err(io_error()), 0), Err(Error::Cacache(_))));
    let current = op().on_previous(Ok(None)).unwrap().on_written(Ok(Integrity::from(b"x"))).unwrap();
    let (_, index) = current.on_current_at(Ok(Some(entry("k", Json::Null))), 0).unwrap();
    assert!(matches!(index.on_inserted(Err(io_error())), Err(Error::Cacache(_))));
}

#[test]
fn written_entry_is_live_until_expiry() {
    let op = WriteOp::new(PathBuf::from("cache"), "k".to_owned(), Duration::from_millis(10));
    let current = op.on_previous(Ok(None)).unwrap().on_written(Ok(Integrity::from(b"x"))).unwrap();
    let (opts, _) = current.on_current_at(Ok(Some(entry("k", Json::Null))), 100).unwrap();
    let expiry = recorded_expiry_of(&opts.metadata).unwrap();
    assert_eq!(expiry, 110);
    assert!(matches!(read_op("k").on_metadata_at(Ok(Some(entry("k", opts.metadata))), 100), ReadStep::Fetch(_)));
    let rebuilt = || entry("k", metadata_with_expiry(None, expiry));
    assert!(matches!(read_op("k").on_metadata_at(Ok(Some(rebuilt())), 110), ReadStep::Fetch(_)));
    assert!(matches!(read_op("k").on_metadata_at(Ok(Some(rebuilt())), 111), ReadStep::Remove(_)));
}

#[test]
fn list_removes_expired_and_yields_the_rest() {
    match list_entry_at(Ok(entry("old", object(vec![(EXPIRES_AT_MILLIS, uint(1))]))), 5) {
        ListStep::Remove(removal) => {
            assert_eq!(removal.key, "old");
            assert!(removal.on_removed(Ok(())).is_none());
        },
        _ => panic!("expected a removal"),
    }
    match list_entry_at(Ok(entry("new", object(vec![(EXPIRES_AT_MILLIS, uint(9))]))), 5) {
        ListStep::Yield(Ok(m)) => assert_eq!(m.key, "new"),
        _ => panic!("expected the entry"),
    }
    match list_entry(Ok(entry("plain", Json::Null))) {
        ListStep::Yield(Ok(m)) => assert_eq!(m.key, "plain"),
        _ => panic!("expected the entry"),
    }
}

#[test]
fn list_forwards_errors() {
    assert!(matches!(list_entry_at(Err(io_error()), 0), ListStep::Yield(Err(Error::Cacache(_)))));
    match list_entry_at(Ok(entry("old", object(vec![(EXPIRES_AT_MILLIS, uint(1))]))), 5) {
        ListStep::Remove(removal) => {
            assert!(matches!(removal.on_removed(Err(io_error())), Some(Err(Error::Cacache(_)))));
        },
        _ => panic!("expected a removal"),
    }
}
