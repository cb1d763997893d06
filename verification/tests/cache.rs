use callrx::api::{AddressInfo, CallsignRecord};
use callrx::cache::{apply_schema, entry_from_row, needs_rebuild, get, get_at, get_history, now_secs, record_lookup, store, store_at, SCHEMA_VERSION, TTL_SECS};
use rusqlite::Connection;

fn make_conn() -> Connection {
    let mut conn = Connection::open_in_memory().unwrap();
    apply_schema(&mut conn).unwrap();
    conn
}

fn sample_record(callsign: &str) -> CallsignRecord {
    CallsignRecord {
        call_sign: Some(callsign.to_string()),
        display_name: "TEST OPERATOR".to_string(),
        license_type: Some("Individual".to_string()),
        license_status: "A".to_string(),
        license_status_label: "Active".to_string(),
        operator_class_label: Some("Amateur Extra".to_string()),
        previous_callsign: None,
        trustee_callsign: None,
        trustee_name: None,
        address: AddressInfo {
            street: Some("123 MAIN ST".to_string()),
            city: Some("ANYTOWN".to_string()),
            state: Some("ST".to_string()),
            zip_code: Some("00000".to_string()),
            po_box: None,
        },
        frn: Some("1234567890".to_string()),
        grant_date: Some("2020-01-01".to_string()),
        expired_date: Some("2030-01-01".to_string()),
        last_action_date: Some("2020-01-01".to_string()),
        uls_url: Some("http://example.com".to_string()),
        ..Default::default()
    }
}

fn user_version(conn: &Connection) -> i32 {
    conn.pragma_query_value(None, "user_version", |r| r.get(0)).unwrap()
}

fn count(conn: &Connection, sql: &str) -> i64 {
    conn.query_row(sql, [], |r| r.get(0)).unwrap()
}

#[test]
fn schema_sets_user_version() {
    let conn = make_conn();
    assert_eq!(user_version(&conn), SCHEMA_VERSION);
}

#[test]
fn schema_apply_is_idempotent() {
    let mut conn = make_conn();
    apply_schema(&mut conn).unwrap();
    assert_eq!(user_version(&conn), SCHEMA_VERSION);
}

#[test]
fn schema_upgrade_keeps_history() {
    let mut conn = make_conn();
    record_lookup(&mut conn, "W1AW", "api").unwrap();
    store(&mut conn, &sample_record("W1AW")).unwrap();
    conn.pragma_update(None, "user_version", 1).unwrap();
    apply_schema(&mut conn).unwrap();
    assert_eq!(user_version(&conn), SCHEMA_VERSION);
    assert!(get(&conn, "W1AW").is_none());
    assert_eq!(get_history(&conn, "W1AW").len(), 1);
}

#[test]
fn get_returns_none_when_empty() {
    let conn = make_conn();
    assert!(get(&conn, "W1AW").is_none());
}

#[test]
fn store_and_get_round_trip() {
    let mut conn = make_conn();
    store(&mut conn, &sample_record("W1AW")).unwrap();

    let (rec, _) = get(&conn, "W1AW").unwrap();
    assert_eq!(rec.license_status_label, "Active");
    assert_eq!(rec.callsign(), "W1AW");
    assert_eq!(rec.license_class_label(), "Amateur Extra");
    assert_eq!(rec.display_name, "TEST OPERATOR");
    assert_eq!(rec.address.street.as_deref(), Some("123 MAIN ST"));
    assert_eq!(rec.address.city.as_deref(), Some("ANYTOWN"));
    assert_eq!(rec.frn.as_deref(), Some("1234567890"));
}

#[test]
fn get_respects_ttl_and_rejects_stale_entry() {
    let mut conn = make_conn();
    store(&mut conn, &sample_record("W1AW")).unwrap();

    let stale = (now_secs() - TTL_SECS - 1) as i64;
    conn.execute("UPDATE callsigns SET cached_at = ?1 WHERE callsign = 'W1AW'", [stale]).unwrap();

    assert!(get(&conn, "W1AW").is_none());
}

#[test]
fn get_accepts_entry_within_ttl() {
    let mut conn = make_conn();
    store(&mut conn, &sample_record("W1AW")).unwrap();

    let fresh = (now_secs() - TTL_SECS + 60) as i64;
    conn.execute("UPDATE callsigns SET cached_at = ?1 WHERE callsign = 'W1AW'", [fresh]).unwrap();

    assert!(get(&conn, "W1AW").is_some());
}

#[test]
fn freshness_window_is_inclusive_at_ttl() {
    let mut conn = make_conn();
    store_at(&mut conn, &sample_record("W1AW"), 1_000_000).unwrap();
    assert_eq!(get_at(&conn, "W1AW", 1_000_000 + TTL_SECS).map(|(_, t)| t), Some(1_000_000));
    assert!(get_at(&conn, "W1AW", 1_000_000 + TTL_SECS + 1).is_none());
    assert!(get_at(&conn, "W1AW", 0).is_some());
}

#[test]
fn get_returns_correct_cached_at_timestamp() {
    let mut conn = make_conn();
    let before = now_secs();
    store(&mut conn, &sample_record("W1AW")).unwrap();
    let after = now_secs();

    let (_, cached_at) = get(&conn, "W1AW").unwrap();
    assert!(cached_at >= before && cached_at <= after);
}

#[test]
fn store_upserts_on_conflict() {
    let mut conn = make_conn();
    store(&mut conn, &sample_record("W1AW")).unwrap();

    let mut updated = sample_record("W1AW");
    updated.display_name = "UPDATED NAME".to_string();
    store(&mut conn, &updated).unwrap();

    assert_eq!(count(&conn, "SELECT COUNT(*) FROM callsigns WHERE callsign = 'W1AW'"), 1);

    let (rec, _) = get(&conn, "W1AW").unwrap();
    assert_eq!(rec.display_name, "UPDATED NAME");
}

#[test]
fn store_handles_all_none_optional_fields() {
    let mut conn = make_conn();
    let minimal = CallsignRecord {
        call_sign: Some("W1AW".to_string()),
        display_name: "MINIMAL".to_string(),
        license_type: None,
        license_status: "A".to_string(),
        license_status_label: "Active".to_string(),
        operator_class_label: None,
        previous_callsign: None,
        trustee_callsign: None,
        trustee_name: None,
        address: AddressInfo::default(),
        frn: None,
        grant_date: None,
        expired_date: None,
        last_action_date: None,
        uls_url: None,
        ..Default::default()
    };
    store(&mut conn, &minimal).unwrap();

    let (rec, _) = get(&conn, "W1AW").unwrap();
    assert_eq!(rec.display_name, "MINIMAL");
    assert!(rec.license_type.is_none());
    assert!(rec.operator_class_label.is_none());
    assert!(rec.previous_callsign.is_none());
    assert!(rec.trustee_callsign.is_none());
    assert!(rec.address.street.is_none());
}

#[test]
fn previous_and_trustee_round_trip() {
    let mut conn = make_conn();
    let mut rec = sample_record("W1AW");
    rec.previous_callsign = Some("KA1ABC".to_string());
    rec.trustee_callsign = Some("K1ZZ".to_string());
    rec.trustee_name = Some("SUMNER, DAVID G".to_string());
    store(&mut conn, &rec).unwrap();

    let (got, _) = get(&conn, "W1AW").unwrap();
    assert_eq!(got.previous_callsign.as_deref(), Some("KA1ABC"));
    assert_eq!(got.trustee_callsign.as_deref(), Some("K1ZZ"));
    assert_eq!(got.trustee_name.as_deref(), Some("SUMNER, DAVID G"));
}

#[test]
fn empty_string_previous_callsign_is_stored_as_none() {
    let mut conn = make_conn();
    let mut rec = sample_record("W1AW");
    rec.previous_callsign = Some(String::new());
    store(&mut conn, &rec).unwrap();

    let (got, _) = get(&conn, "W1AW").unwrap();
    assert!(got.previous_callsign.is_none());
}

#[test]
fn record_without_callsign_is_kept_under_dash() {
    let mut conn = make_conn();
    let mut rec = sample_record("W1AW");
    rec.call_sign = None;
    store(&mut conn, &rec).unwrap();
    let (got, _) = get(&conn, "—").unwrap();
    assert_eq!(got.callsign(), "—");
    assert!(get(&conn, "W1AW").is_none());
}

#[test]
fn record_lookup_appends_history() {
    let mut conn = make_conn();
    store(&mut conn, &sample_record("W1AW")).unwrap();

    record_lookup(&mut conn, "W1AW", "api").unwrap();
    record_lookup(&mut conn, "W1AW", "cache").unwrap();
    record_lookup(&mut conn, "W1AW", "api").unwrap();

    assert_eq!(count(&conn, "SELECT COUNT(*) FROM lookup_history WHERE callsign = 'W1AW'"), 3);
}

#[test]
fn record_lookup_is_independent_of_callsigns_table() {
    let mut conn = make_conn();
    record_lookup(&mut conn, "W1AW", "api").unwrap();

    assert_eq!(count(&conn, "SELECT COUNT(*) FROM lookup_history WHERE callsign = 'W1AW'"), 1);
}

#[test]
fn lookup_history_records_correct_source() {
    let mut conn = make_conn();
    record_lookup(&mut conn, "W1AW", "api").unwrap();
    record_lookup(&mut conn, "W1AW", "cache").unwrap();

    let sources: Vec<String> = {
        let mut stmt = conn.prepare("SELECT source FROM lookup_history WHERE callsign = 'W1AW' ORDER BY id").unwrap();
        stmt.query_map([], |r| r.get(0)).unwrap().map(|r| r.unwrap()).collect()
    };
    assert_eq!(sources, vec!["api", "cache"]);
}

#[test]
fn get_history_returns_empty_when_no_entries() {
    let conn = make_conn();
    assert!(get_history(&conn, "W1AW").is_empty());
}

#[test]
fn get_history_returns_events_newest_first() {
    let conn = make_conn();
    conn.execute("INSERT INTO lookup_history (callsign, looked_up_at, source) VALUES ('W1AW', 1000, 'api')", []).unwrap();
    conn.execute("INSERT INTO lookup_history (callsign, looked_up_at, source) VALUES ('W1AW', 3000, 'cache')", []).unwrap();
    conn.execute("INSERT INTO lookup_history (callsign, looked_up_at, source) VALUES ('W1AW', 2000, 'api')", []).unwrap();

    let events = get_history(&conn, "W1AW");
    assert_eq!(events.len(), 3);
    assert_eq!(events[0].0, 3000);
    assert_eq!(events[1].0, 2000);
    assert_eq!(events[2].0, 1000);
}

#[test]
fn get_history_filters_by_callsign() {
    let mut conn = make_conn();

    record_lookup(&mut conn, "W1AW", "api").unwrap();
    record_lookup(&mut conn, "KD9ABC", "api").unwrap();
    record_lookup(&mut conn, "W1AW", "cache").unwrap();

    let w1aw = get_history(&conn, "W1AW");
    assert_eq!(w1aw.len(), 2);
    assert!(w1aw.iter().all(|(_, src)| src == "api" || src == "cache"));

    let kd9abc = get_history(&conn, "KD9ABC");
    assert_eq!(kd9abc.len(), 1);
}

#[test]
fn get_history_returns_correct_source_values() {
    let conn = make_conn();
    conn.execute("INSERT INTO lookup_history (callsign, looked_up_at, source) VALUES ('W1AW', 1000, 'api')", []).unwrap();
    conn.execute("INSERT INTO lookup_history (callsign, looked_up_at, source) VALUES ('W1AW', 2000, 'cache')", []).unwrap();

    let events = get_history(&conn, "W1AW");
    assert_eq!(events[0].1, "cache");
    assert_eq!(events[1].1, "api");
}

#[test]
fn rows_become_entries_only_with_required_columns() {
    assert!(matches!(entry_from_row("W1AW", None), Ok(None)));
    let mut cols: Vec<Option<String>> = vec![None; 18];
    cols[0] = Some("NAME".to_string());
    cols[2] = Some("A".to_string());
    assert!(entry_from_row("W1AW", Some((cols.clone(), 5))).is_err());
    cols[3] = Some("Active".to_string());
    cols[9] = Some("ANYTOWN".to_string());
    let (rec, at) = entry_from_row("W1AW", Some((cols, 5))).unwrap().unwrap();
    assert_eq!(at, 5);
    assert_eq!(rec.callsign(), "W1AW");
    assert_eq!(rec.display_name, "NAME");
    assert_eq!(rec.license_status_label, "Active");
    assert_eq!(rec.address.city.as_deref(), Some("ANYTOWN"));
    assert!(rec.address.street.is_none());
}

#[test]
fn history_never_shows_more_than_logged() {
    let mut conn = make_conn();
    record_lookup(&mut conn, "W1AW", "api").unwrap();
    assert_eq!(get_history(&conn, "W1AW").len(), 1);
    assert_eq!(get_history(&conn, "K1ZZ").len(), 0);
}

#[test]
fn record_lookup_refuses_unknown_source() {
    let mut conn = make_conn();
    assert!(record_lookup(&mut conn, "W1AW", "web").is_err());
    assert!(record_lookup(&mut conn, "W1AW", "").is_err());
    assert_eq!(count(&conn, "SELECT COUNT(*) FROM lookup_history"), 0);
    assert!(get_history(&conn, "W1AW").is_empty());
}

#[test]
fn only_older_schemas_are_rebuilt() {
    assert!(needs_rebuild(0));
    assert!(needs_rebuild(1));
    assert!(!needs_rebuild(SCHEMA_VERSION));
    assert!(!needs_rebuild(3));
}
