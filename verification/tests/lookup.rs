use callrx::api::CallsignRecord;
use callrx::cache::{apply_schema, get_at, get_history, store_at, TTL_SECS};
use callrx::lookup::{cached_lookup_at, finish_lookup_at, history_for, LookupSource};
use rusqlite::Connection;

fn open_cache() -> Option<Connection> {
    let mut conn = Connection::open_in_memory().unwrap();
    apply_schema(&mut conn).unwrap();
    Some(conn)
}

fn record(callsign: &str, name: &str) -> CallsignRecord {
    CallsignRecord {
        call_sign: Some(callsign.to_string()),
        display_name: name.to_string(),
        license_status: "A".to_string(),
        license_status_label: "Active".to_string(),
        ..Default::default()
    }
}

#[test]
fn source_names_match_the_history_column() {
    assert_eq!(LookupSource::Cache.as_str(), "cache");
    assert_eq!(LookupSource::Api.as_str(), "api");
}

#[test]
fn cache_answers_a_fresh_entry() {
    let mut cache = open_cache();
    store_at(cache.as_mut().unwrap(), &record("W1AW", "ARRL"), 5_000).unwrap();
    let hit = cached_lookup_at(&cache, "W1AW", false, 5_000 + 60).unwrap();
    assert_eq!(hit.0.display_name, "ARRL");
    assert_eq!(hit.1, 5_000);
    assert!(cached_lookup_at(&cache, "W1AW", false, 5_000 + TTL_SECS + 1).is_none());
}

#[test]
fn no_cache_flag_bypasses_the_read() {
    let mut cache = open_cache();
    store_at(cache.as_mut().unwrap(), &record("W1AW", "ARRL"), 5_000).unwrap();
    assert!(cached_lookup_at(&cache, "W1AW", true, 5_000).is_none());
    assert!(cached_lookup_at(&None, "W1AW", false, 5_000).is_none());
}

#[test]
fn fetched_record_is_written_back_and_logged_live() {
    let mut cache = open_cache();
    let rec = record("W1AW", "FRESH");
    assert!(finish_lookup_at(&mut cache, "W1AW", &rec, LookupSource::Api, 9_000));
    let conn = cache.as_ref().unwrap();
    let (got, at) = get_at(conn, "W1AW", 9_000 + 10).unwrap();
    assert_eq!(got.display_name, "FRESH");
    assert_eq!(at, 9_000);
    assert_eq!(get_history(conn, "W1AW"), vec![(9_000, "api".to_string())]);
}

#[test]
fn cached_answer_is_logged_without_rewriting() {
    let mut cache = open_cache();
    store_at(cache.as_mut().unwrap(), &record("W1AW", "OLD"), 1_000).unwrap();
    let rec = record("W1AW", "SHOWN");
    assert!(finish_lookup_at(&mut cache, "W1AW", &rec, LookupSource::Cache, 2_000));
    let conn = cache.as_ref().unwrap();
    let (got, at) = get_at(conn, "W1AW", 2_000).unwrap();
    assert_eq!(got.display_name, "OLD");
    assert_eq!(at, 1_000);
    assert_eq!(get_history(conn, "W1AW"), vec![(2_000, "cache".to_string())]);
}

#[test]
fn lookup_without_cache_writes_nothing() {
    let mut cache: Option<Connection> = None;
    assert!(!finish_lookup_at(&mut cache, "W1AW", &record("W1AW", "X"), LookupSource::Api, 1));
    assert!(cache.is_none());
    assert!(history_for(&cache, "W1AW").is_empty());
}

#[test]
fn history_for_lists_newest_first() {
    let mut cache = open_cache();
    let rec = record("W1AW", "X");
    finish_lookup_at(&mut cache, "W1AW", &rec, LookupSource::Api, 100);
    finish_lookup_at(&mut cache, "W1AW", &rec, LookupSource::Cache, 200);
    finish_lookup_at(&mut cache, "KD9ABC", &record("KD9ABC", "Y"), LookupSource::Api, 300);
    assert_eq!(
        history_for(&cache, "W1AW"),
        vec![(200, "cache".to_string()), (100, "api".to_string())]
    );
}
