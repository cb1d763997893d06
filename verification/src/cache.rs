//! The local SQLite cache of callsign records and the lookup history.
//!
//! The database is reached through a handful of trusted statements (below,
//! under "Statements"); everything the cache decides (which columns are
//! kept, when an entry is fresh, how rows become records and listings) is
//! verified against names for what the database holds: the callsigns
//! table, the lookup log and the schema version.
//!
//! The model assumes a single writer: no other connection or process writes
//! to the database file while this connection is in use. Writes made that
//! way fall outside it.

use rusqlite::OptionalExtension;
use vstd::prelude::*;
use crate::api::{AddressInfo, CallsignRecord, RecordView, AddressView, empty_record, opt_text, record_callsign};
use crate::text::str_eq;

verus! {

broadcast use vstd::seq_lib::group_to_multiset_ensures;

/// Version stamped into `PRAGMA user_version` once the schema is in place.
pub const SCHEMA_VERSION: i32 = 2;

/// Cache TTL: 7 days, matching the FCC's weekly ULS bulk-data publication.
pub const TTL_SECS: u64 = 7 * 24 * 60 * 60;

/// A statement against the cache database failed.
#[derive(Debug, PartialEq, Eq, Structural, Clone, Copy)]
pub enum CacheError {
    Database,
}

#[verifier::external_type_specification]
#[verifier::external_body]
pub struct ExConnection(rusqlite::Connection);

#[verifier::external_type_specification]
#[verifier::external_body]
pub struct ExSqliteError(rusqlite::Error);

#[verifier::external_type_specification]
#[verifier::external_body]
pub struct ExSystemTime(std::time::SystemTime);

/// The `callsigns` table of the connection's database: each callsign maps to
/// its 18 text columns (in table order, `None` for SQL NULL) and `cached_at`.
/// The contracts that speak of it assume that no other connection writes to
/// the database while this one is in use.
pub uninterp spec fn callsign_table(conn: rusqlite::Connection) -> Map<Seq<char>, (Seq<Option<Seq<char>>>, int)>;

/// The `lookup_history` table of the connection's database, in insertion
/// order: `(callsign, looked_up_at, source)`. The contracts that speak of it
/// assume that no other connection writes to the database while this one is
/// in use.
pub uninterp spec fn lookup_log(conn: rusqlite::Connection) -> Seq<(Seq<char>, int, Seq<char>)>;

/// `PRAGMA user_version` of the connection's database (under the same
/// assumption of a single writer).
pub uninterp spec fn schema_version(conn: rusqlite::Connection) -> int;

/// The schema version after the schema is applied to a database at `version`.
pub open spec fn version_after_schema(version: int) -> int {
    if version >= SCHEMA_VERSION { version } else { SCHEMA_VERSION as int }
}

/// The callsigns table after the schema is applied to a database at
/// `version` holding `table`: an older schema loses its cached rows.
pub open spec fn table_after_schema(
    version: int,
    table: Map<Seq<char>, (Seq<Option<Seq<char>>>, int)>,
) -> Map<Seq<char>, (Seq<Option<Seq<char>>>, int)> {
    if version >= SCHEMA_VERSION { table } else { no_cached_rows() }
}

pub open spec fn column_texts(cols: Seq<Option<String>>) -> Seq<Option<Seq<char>>> {
    cols.map_values(|c: Option<String>| opt_text(c))
}

pub open spec fn listing_rows(rows: Seq<Option<(i64, String)>>) -> Seq<Option<(int, Seq<char>)>> {
    rows.map_values(|r: Option<(i64, String)>| match r {
        Some(p) => Some((p.0 as int, p.1@)),
        None => None,
    })
}

/// The `(looked_up_at, source)` of every logged lookup of `callsign`, oldest first.
pub open spec fn entries_for(log: Seq<(Seq<char>, int, Seq<char>)>, callsign: Seq<char>) -> Seq<(int, Seq<char>)>
    decreases log.len(),
{
    if log.len() == 0 {
        Seq::empty()
    } else {
        let rest = entries_for(log.drop_last(), callsign);
        if log.last().0 == callsign {
            rest.push((log.last().1, log.last().2))
        } else {
            rest
        }
    }
}

/// A callsigns table with no rows.
pub open spec fn no_cached_rows() -> Map<Seq<char>, (Seq<Option<Seq<char>>>, int)> {
    Map::empty()
}

/// Entries ordered by `looked_up_at`, most recent first.
pub open spec fn newest_first(s: Seq<(int, Seq<char>)>) -> bool {
    forall|i: int, j: int| 0 <= i < j < s.len() ==> s[i].0 >= s[j].0
}

/// `rows` is what reading `ORDER BY looked_up_at DESC` for `callsign` gives:
/// the callsign's entries in some newest-first order `ord`, where a row that
/// could not be read is `None`. A failed step ends the reading with one
/// `None`, so the rows may stop short of `ord` or hold one `None` past its
/// end; when every row could be read, they are all of `ord`.
pub open spec fn listed_newest_first(rows: Seq<Option<(int, Seq<char>)>>, log: Seq<(Seq<char>, int, Seq<char>)>, callsign: Seq<char>) -> bool {
    exists|ord: Seq<(int, Seq<char>)>| listing_of(rows, ord) && {
        &&& ord.to_multiset() == entries_for(log, callsign).to_multiset()
        &&& newest_first(ord)
    }
}

/// `rows` reads `ord` in order, as [`listed_newest_first`] describes.
pub open spec fn listing_of(rows: Seq<Option<(int, Seq<char>)>>, ord: Seq<(int, Seq<char>)>) -> bool {
    &&& rows.len() <= ord.len() + 1
    &&& forall|i: int| 0 <= i < rows.len() && (#[trigger] rows[i]) is Some ==> i < ord.len() && rows[i]->0 == ord[i]
    &&& (forall|i: int| 0 <= i < rows.len() ==> (#[trigger] rows[i]) is Some) ==> rows.len() == ord.len()
}

// ── Statements ───────────────────────────────────────────────────────────────

const CONNECTION_PRAGMAS: &'static str = "PRAGMA journal_mode = WAL; PRAGMA foreign_keys = ON;";

const RECREATE_TABLES: &'static str = "DROP TABLE IF EXISTS callsigns;
     CREATE TABLE callsigns (
         id                    INTEGER PRIMARY KEY,
         callsign              TEXT    NOT NULL UNIQUE,
         display_name          TEXT    NOT NULL,
         license_type          TEXT,
         license_status        TEXT    NOT NULL,
         license_status_label  TEXT    NOT NULL,
         operator_class_label  TEXT,
         previous_callsign     TEXT,
         trustee_callsign      TEXT,
         trustee_name          TEXT,
         street                TEXT,
         city                  TEXT,
         state                 TEXT,
         zip_code              TEXT,
         po_box                TEXT,
         frn                   TEXT,
         grant_date            TEXT,
         expired_date          TEXT,
         last_action_date      TEXT,
         uls_url               TEXT,
         cached_at             INTEGER NOT NULL
     );
     CREATE TABLE IF NOT EXISTS lookup_history (
         id           INTEGER PRIMARY KEY,
         callsign     TEXT    NOT NULL,
         looked_up_at INTEGER NOT NULL,
         source       TEXT    NOT NULL CHECK(source IN ('api', 'cache'))
     );
     CREATE INDEX IF NOT EXISTS idx_lookup_history_callsign
         ON lookup_history(callsign);
     CREATE INDEX IF NOT EXISTS idx_lookup_history_looked_up_at
         ON lookup_history(looked_up_at);";

const UPSERT_CALLSIGN: &'static str = "INSERT INTO callsigns (
         callsign, display_name, license_type, license_status, license_status_label,
         operator_class_label, previous_callsign, trustee_callsign, trustee_name,
         street, city, state, zip_code, po_box,
         frn, grant_date, expired_date, last_action_date, uls_url, cached_at
     ) VALUES (
         ?1,?2,?3,?4,?5,?6,?7,?8,?9,?10,?11,?12,?13,?14,?15,?16,?17,?18,?19,?20
     )
     ON CONFLICT(callsign) DO UPDATE SET
         display_name         = excluded.display_name,
         license_type         = excluded.license_type,
         license_status       = excluded.license_status,
         license_status_label = excluded.license_status_label,
         operator_class_label = excluded.operator_class_label,
         previous_callsign    = excluded.previous_callsign,
         trustee_callsign     = excluded.trustee_callsign,
         trustee_name         = excluded.trustee_name,
         street               = excluded.street,
         city                 = excluded.city,
         state                = excluded.state,
         zip_code             = excluded.zip_code,
         po_box               = excluded.po_box,
         frn                  = excluded.frn,
         grant_date           = excluded.grant_date,
         expired_date         = excluded.expired_date,
         last_action_date     = excluded.last_action_date,
         uls_url              = excluded.uls_url,
         cached_at            = excluded.cached_at";

const SELECT_FRESH_CALLSIGN: &'static str = "SELECT display_name, license_type, license_status, license_status_label,
            operator_class_label, previous_callsign,
            trustee_callsign, trustee_name,
            street, city, state, zip_code, po_box,
            frn, grant_date, expired_date, last_action_date, uls_url,
            cached_at
     FROM   callsigns
     WHERE  callsign = ?1 AND cached_at >= ?2";

const INSERT_LOOKUP: &'static str = "INSERT INTO lookup_history (callsign, looked_up_at, source)
     VALUES (?1, ?2, ?3)";

const SELECT_LOOKUPS: &'static str = "SELECT looked_up_at, source FROM lookup_history
     WHERE callsign = ?1 ORDER BY looked_up_at DESC";

/// Runs `PRAGMA journal_mode = WAL; PRAGMA foreign_keys = ON;` through
/// `Connection::execute_batch`. Connection settings only: no table changes.
#[verifier::external_body]
fn set_connection_pragmas(conn: &rusqlite::Connection) -> (res: Result<(), rusqlite::Error>) {
    conn.execute_batch(CONNECTION_PRAGMAS)
}

/// Reads `PRAGMA user_version` through `Connection::pragma_query_value`.
/// Claimed on success: the value is the database's schema version.
#[verifier::external_body]
fn read_user_version(conn: &rusqlite::Connection) -> (res: Result<i32, rusqlite::Error>)
    ensures
        res matches Ok(v) ==> v == schema_version(*conn),
{
    conn.pragma_query_value(None, "user_version", |row| row.get(0))
}

/// Writes `PRAGMA user_version` through `Connection::pragma_update`.
/// Claimed on success: the schema version is `version`. Claimed whatever
/// comes back: neither table changes, since the pragma writes no rows.
#[verifier::external_body]
fn write_user_version(conn: &mut rusqlite::Connection, version: i32) -> (res: Result<(), rusqlite::Error>)
    ensures
        res is Ok ==> schema_version(*final(conn)) == version,
        callsign_table(*final(conn)) == callsign_table(*old(conn)),
        lookup_log(*final(conn)) == lookup_log(*old(conn)),
{
    conn.pragma_update(None, "user_version", version)
}

/// Runs the schema batch through `Connection::execute_batch`: drops and
/// recreates `callsigns`, creates `lookup_history` only where it is missing.
/// Claimed on success: the callsigns table is empty. Claimed whatever comes
/// back: the lookup log and the schema version are as they were, since no
/// statement of the batch writes a row of `lookup_history` (it is only
/// created where missing, and indexed) or sets `user_version`. After a
/// failure the callsigns table is left unclaimed: the statements before the
/// failing one stay done.
#[verifier::external_body]
fn recreate_tables(conn: &mut rusqlite::Connection) -> (res: Result<(), rusqlite::Error>)
    ensures
        res is Ok ==> callsign_table(*final(conn)) == no_cached_rows(),
        lookup_log(*final(conn)) == lookup_log(*old(conn)),
        schema_version(*final(conn)) == schema_version(*old(conn)),
{
    conn.execute_batch(RECREATE_TABLES)
}

/// Runs the `INSERT ... ON CONFLICT(callsign) DO UPDATE` statement through
/// `Connection::execute`, binding `callsign`, the 18 columns and `cached_at`.
/// Claimed on success: the callsign's row is replaced by (or set to) the
/// given columns and time. Claimed after a failure: the callsigns table is
/// unchanged (the statement runs in autocommit mode, and SQLite's
/// `sqlite3VdbeHalt` rolls back a statement that ends in an error). Claimed
/// whatever comes back: the lookup log and the schema version are unchanged,
/// since the statement writes only `callsigns`.
#[verifier::external_body]
fn upsert_row(conn: &mut rusqlite::Connection, callsign: &str, cols: &Vec<Option<String>>, cached_at: i64) -> (res: Result<usize, rusqlite::Error>)
    requires
        cols.len() == 18,
    ensures
        res is Ok ==> callsign_table(*final(conn)) == callsign_table(*old(conn)).insert(callsign@, (column_texts(cols@), cached_at as int)),
        res is Err ==> callsign_table(*final(conn)) == callsign_table(*old(conn)),
        lookup_log(*final(conn)) == lookup_log(*old(conn)),
        schema_version(*final(conn)) == schema_version(*old(conn)),
{
    let mut params: Vec<&dyn rusqlite::ToSql> = vec![&callsign];
    for c in cols.iter() {
        params.push(c);
    }
    params.push(&cached_at);
    conn.execute(UPSERT_CALLSIGN, &params[..])
}

/// Runs the `SELECT ... WHERE callsign = ?1 AND cached_at >= ?2` query
/// through `Connection::query_row` and `OptionalExtension::optional`, reading
/// the 18 text columns and `cached_at`. Claimed: a row is returned exactly
/// when the table holds one for `callsign` at or after `min_cached_at`, and
/// it is that row. A failure (including an unreadable column) claims nothing.
#[verifier::external_body]
fn select_row(conn: &rusqlite::Connection, callsign: &str, min_cached_at: i64) -> (res: Result<Option<(Vec<Option<String>>, i64)>, rusqlite::Error>)
    ensures
        res matches Ok(Some(row)) ==> {
            &&& callsign_table(*conn).contains_key(callsign@)
            &&& callsign_table(*conn)[callsign@] == (column_texts(row.0@), row.1 as int)
            &&& row.1 >= min_cached_at
            &&& row.0.len() == 18
        },
        res matches Ok(None) ==> !(callsign_table(*conn).contains_key(callsign@)
            && callsign_table(*conn)[callsign@].1 >= min_cached_at),
{
    conn.query_row(SELECT_FRESH_CALLSIGN, (callsign, min_cached_at), |row| {
        let cols = (0..18usize).map(|i| row.get::<usize, Option<String>>(i))
            .collect::<Result<Vec<Option<String>>, rusqlite::Error>>()?;
        Ok((cols, row.get::<usize, i64>(18)?))
    }).optional()
}

/// Runs `INSERT INTO lookup_history ...` through `Connection::execute`.
/// Claimed on success: the entry is appended to the log. Claimed after a
/// failure: the log is unchanged (the statement runs in autocommit mode,
/// and SQLite's `sqlite3VdbeHalt` rolls back a statement that ends in an
/// error). Claimed whatever comes back: the callsigns table and the schema
/// version are unchanged, since the statement writes only `lookup_history`.
#[verifier::external_body]
fn insert_log_row(conn: &mut rusqlite::Connection, callsign: &str, looked_up_at: i64, source: &str) -> (res: Result<usize, rusqlite::Error>)
    ensures
        res is Ok ==> lookup_log(*final(conn)) == lookup_log(*old(conn)).push((callsign@, looked_up_at as int, source@)),
        res is Err ==> lookup_log(*final(conn)) == lookup_log(*old(conn)),
        callsign_table(*final(conn)) == callsign_table(*old(conn)),
        schema_version(*final(conn)) == schema_version(*old(conn)),
{
    conn.execute(INSERT_LOOKUP, (callsign, looked_up_at, source))
}

/// Runs the `... WHERE callsign = ?1 ORDER BY looked_up_at DESC` query
/// through `Connection::prepare` and `Statement::query_map`, each item read
/// as `(i64, String)` or `None` where it is an error. Claimed: the items
/// follow the callsign's logged lookups, most recent first (SQLite leaves
/// the order of equal times open). A row whose columns cannot be read is a
/// `None` in its place; a failed step (`Rows::advance`) yields one error and
/// resets the statement, which ends the iteration, so the items may stop
/// short, or end with one `None` past the last lookup. With no error item,
/// every lookup was read.
#[verifier::external_body]
fn select_log_rows(conn: &rusqlite::Connection, callsign: &str) -> (res: Result<Vec<Option<(i64, String)>>, rusqlite::Error>)
    ensures
        res matches Ok(rows) ==> listed_newest_first(listing_rows(rows@), lookup_log(*conn), callsign@),
{
    let mut stmt = conn.prepare(SELECT_LOOKUPS)?;
    let rows = stmt.query_map((callsign,), |row| Ok((row.get::<usize, i64>(0)?, row.get::<usize, String>(1)?)))?;
    let out: Vec<Option<(i64, String)>> = rows.map(|r| r.ok()).collect();
    Ok(out)
}

/// `SystemTime::now()`. Nothing is claimed of the time read.
#[verifier::external_body]
fn system_now() -> (res: std::time::SystemTime) {
    std::time::SystemTime::now()
}

/// `SystemTime::duration_since(UNIX_EPOCH)`, its error as `None`.
/// Nothing is claimed of the duration.
#[verifier::external_body]
fn since_unix_epoch(t: &std::time::SystemTime) -> (res: Option<core::time::Duration>) {
    t.duration_since(std::time::UNIX_EPOCH).ok()
}

/// `Duration::as_secs`. Nothing is claimed of the value.
#[verifier::external_body]
fn whole_secs(d: &core::time::Duration) -> (res: u64) {
    d.as_secs()
}

} // verus!

verus! {

// ── What the cache keeps ────────────────────────────────────────────────────

/// Text kept only when it is not blank (blank fields are stored as NULL).
pub open spec fn nonempty_text(o: Option<Seq<char>>) -> Option<Seq<char>> {
    match o {
        Some(s) => if s.len() == 0 { None } else { Some(s) },
        None => None,
    }
}

/// The 18 text columns stored for a record, in table order.
pub open spec fn stored_columns(r: RecordView) -> Seq<Option<Seq<char>>> {
    seq![
        Some(r.display_name),
        r.license_type,
        Some(r.license_status),
        Some(r.license_status_label),
        r.operator_class_label,
        nonempty_text(r.previous_callsign),
        nonempty_text(r.trustee_callsign),
        nonempty_text(r.trustee_name),
        nonempty_text(r.address.street),
        nonempty_text(r.address.city),
        nonempty_text(r.address.state),
        nonempty_text(r.address.zip_code),
        nonempty_text(r.address.po_box),
        nonempty_text(r.frn),
        nonempty_text(r.grant_date),
        nonempty_text(r.expired_date),
        nonempty_text(r.last_action_date),
        nonempty_text(r.uls_url),
    ]
}

pub open spec fn text_or_empty(o: Option<Seq<char>>) -> Seq<char> {
    match o {
        Some(s) => s,
        None => Seq::empty(),
    }
}

/// The record read back from a cached row of `callsign`.
pub open spec fn record_from_columns(callsign: Seq<char>, c: Seq<Option<Seq<char>>>) -> RecordView {
    RecordView {
        call_sign: Some(callsign),
        display_name: text_or_empty(c[0]),
        license_type: c[1],
        license_status: text_or_empty(c[2]),
        license_status_label: text_or_empty(c[3]),
        operator_class_label: c[4],
        previous_callsign: c[5],
        trustee_callsign: c[6],
        trustee_name: c[7],
        address: AddressView { street: c[8], city: c[9], state: c[10], zip_code: c[11], po_box: c[12] },
        frn: c[13],
        grant_date: c[14],
        expired_date: c[15],
        last_action_date: c[16],
        uls_url: c[17],
        ..empty_record()
    }
}

/// What the cache gives back of a record: its callsign, the fields the
/// cache stores (blank optional text becoming absent), and nothing else.
pub open spec fn cached_view(r: RecordView) -> RecordView {
    RecordView {
        call_sign: Some(record_callsign(r)),
        display_name: r.display_name,
        license_type: r.license_type,
        license_status: r.license_status,
        license_status_label: r.license_status_label,
        operator_class_label: r.operator_class_label,
        previous_callsign: nonempty_text(r.previous_callsign),
        trustee_callsign: nonempty_text(r.trustee_callsign),
        trustee_name: nonempty_text(r.trustee_name),
        address: AddressView {
            street: nonempty_text(r.address.street),
            city: nonempty_text(r.address.city),
            state: nonempty_text(r.address.state),
            zip_code: nonempty_text(r.address.zip_code),
            po_box: nonempty_text(r.address.po_box),
        },
        frn: nonempty_text(r.frn),
        grant_date: nonempty_text(r.grant_date),
        expired_date: nonempty_text(r.expired_date),
        last_action_date: nonempty_text(r.last_action_date),
        uls_url: nonempty_text(r.uls_url),
        ..empty_record()
    }
}

/// The oldest `cached_at` still served at time `now` (`now - TTL`, at least
/// zero, as the signed integer the database compares with).
pub open spec fn fresh_since(now: u64) -> int {
    let min_age: u64 = if now >= TTL_SECS { (now - TTL_SECS) as u64 } else { 0 };
    (min_age as i64) as int
}

/// The record and `cached_at` a lookup of `callsign` at time `now` is served
/// from the table, or `None` when the table has no fresh entry for it.
pub open spec fn fresh_entry(table: Map<Seq<char>, (Seq<Option<Seq<char>>>, int)>, callsign: Seq<char>, now: u64) -> Option<(RecordView, u64)> {
    if table.contains_key(callsign) && table[callsign].1 >= fresh_since(now) {
        Some((record_from_columns(callsign, table[callsign].0), table[callsign].1 as u64))
    } else {
        None
    }
}

/// A clock reading as the signed integer the database stores.
pub open spec fn stamp(t: u64) -> int {
    (t as i64) as int
}

pub open spec fn entry_view(v: Option<(CallsignRecord, u64)>) -> Option<(RecordView, u64)> {
    match v {
        Some(p) => Some((p.0@, p.1)),
        None => None,
    }
}

/// Maps an empty string to `None` so blank API fields are stored as SQL NULL.
pub fn nonempty(s: Option<&str>) -> (res: Option<&str>)
    ensures
        res == (match s {
            Some(v) => if v@.len() == 0 { None } else { Some(v) },
            None => None,
        }),
{
    match s {
        Some(v) => if v.is_empty() { None } else { Some(v) },
        None => None,
    }
}

/// Seconds since the Unix epoch by the system clock (0 if the clock reads
/// before the epoch).
pub fn now_secs() -> u64 {
    let now = system_now();
    match since_unix_epoch(&now) {
        Some(d) => whole_secs(&d),
        None => 0,
    }
}

fn copy_text(o: &Option<String>) -> (res: Option<String>)
    ensures
        opt_text(res) == opt_text(*o),
{
    match o {
        Some(s) => Some(s.clone()),
        None => None,
    }
}

fn stored_text(o: &Option<String>) -> (res: Option<String>)
    ensures
        opt_text(res) == nonempty_text(opt_text(*o)),
{
    let text = match o {
        Some(s) => Some(s.as_str()),
        None => None,
    };
    match nonempty(text) {
        Some(t) => Some(t.to_string()),
        None => None,
    }
}

fn stored_columns_of(record: &CallsignRecord) -> (cols: Vec<Option<String>>)
    ensures
        cols.len() == 18,
        column_texts(cols@) == stored_columns(record@),
{
    let addr = &record.address;
    let mut cols: Vec<Option<String>> = Vec::new();
    cols.push(Some(record.display_name.clone()));
    cols.push(copy_text(&record.license_type));
    cols.push(Some(record.license_status.clone()));
    cols.push(Some(record.license_status_label.clone()));
    cols.push(copy_text(&record.operator_class_label));
    cols.push(stored_text(&record.previous_callsign));
    cols.push(stored_text(&record.trustee_callsign));
    cols.push(stored_text(&record.trustee_name));
    cols.push(stored_text(&addr.street));
    cols.push(stored_text(&addr.city));
    cols.push(stored_text(&addr.state));
    cols.push(stored_text(&addr.zip_code));
    cols.push(stored_text(&addr.po_box));
    cols.push(stored_text(&record.frn));
    cols.push(stored_text(&record.grant_date));
    cols.push(stored_text(&record.expired_date));
    cols.push(stored_text(&record.last_action_date));
    cols.push(stored_text(&record.uls_url));
    assert(column_texts(cols@) =~= stored_columns(record@));
    cols
}

// ── Schema ───────────────────────────────────────────────────────────────────

/// Sets the connection pragmas and, when `user_version` is below
/// [`SCHEMA_VERSION`], recreates the callsigns table and stamps the
/// version. The lookup history is kept, whatever the database answers.
pub fn apply_schema(conn: &mut rusqlite::Connection) -> (res: Result<(), CacheError>)
    ensures
        lookup_log(*final(conn)) == lookup_log(*old(conn)),
        res is Ok ==> callsign_table(*final(conn)) == table_after_schema(
            schema_version(*old(conn)),
            callsign_table(*old(conn)),
        ),
        res is Ok ==> schema_version(*final(conn)) == version_after_schema(schema_version(*old(conn))),
{
    if set_connection_pragmas(conn).is_err() {
        return Err(CacheError::Database);
    }
    let version = match read_user_version(conn) {
        Ok(v) => v,
        Err(_) => return Err(CacheError::Database),
    };
    if !needs_rebuild(version) {
        return Ok(());
    }
    if recreate_tables(conn).is_err() {
        return Err(CacheError::Database);
    }
    match write_user_version(conn, SCHEMA_VERSION) {
        Ok(()) => Ok(()),
        Err(_) => Err(CacheError::Database),
    }
}

/// Whether a database at schema `version` needs its callsigns table rebuilt
/// (anything older than [`SCHEMA_VERSION`]).
pub fn needs_rebuild(version: i32) -> (res: bool)
    ensures
        res == (version < SCHEMA_VERSION),
{
    version < SCHEMA_VERSION
}

// ── Records ──────────────────────────────────────────────────────────────────

/// Upserts a callsign record under [`CallsignRecord::callsign`], with
/// `cached_at` set to `now`. A failed store leaves the table as it was; the
/// lookup history is never touched.
pub fn store_at(conn: &mut rusqlite::Connection, record: &CallsignRecord, now: u64) -> (res: Result<(), CacheError>)
    ensures
        res is Ok ==> callsign_table(*final(conn)) == callsign_table(*old(conn)).insert(
            record_callsign(record@), (stored_columns(record@), stamp(now))),
        res is Err ==> callsign_table(*final(conn)) == callsign_table(*old(conn)),
        lookup_log(*final(conn)) == lookup_log(*old(conn)),
{
    let callsign = record.callsign();
    let cols = stored_columns_of(record);
    match upsert_row(conn, callsign, &cols, now as i64) {
        Ok(_) => Ok(()),
        Err(_) => Err(CacheError::Database),
    }
}

/// Upserts a callsign record into the cache, updating `cached_at` to now.
pub fn store(conn: &mut rusqlite::Connection, record: &CallsignRecord) -> (res: Result<(), CacheError>)
    ensures
        res is Ok ==> exists|t: u64| callsign_table(*final(conn)) == callsign_table(*old(conn)).insert(
            record_callsign(record@), (stored_columns(record@), #[trigger] stamp(t))),
        res is Err ==> callsign_table(*final(conn)) == callsign_table(*old(conn)),
        lookup_log(*final(conn)) == lookup_log(*old(conn)),
{
    let now = now_secs();
    store_at(conn, record, now)
}

fn required_text(o: &Option<String>) -> (res: String)
    ensures
        res@ == text_or_empty(opt_text(*o)),
{
    match o {
        Some(s) => s.clone(),
        None => String::new(),
    }
}

/// The columns a record cannot be read without: display name, status code
/// and status label (NOT NULL in the table).
pub open spec fn required_present(c: Seq<Option<Seq<char>>>) -> bool {
    c[0] is Some && c[2] is Some && c[3] is Some
}

/// Turns the row read for `callsign` into a cache entry: no row gives
/// `Ok(None)`, a row missing a required column is an error, any other row
/// gives its record and `cached_at`.
pub fn entry_from_row(callsign: &str, row: Option<(Vec<Option<String>>, i64)>) -> (res: Result<Option<(CallsignRecord, u64)>, CacheError>)
    requires
        row matches Some(r) ==> r.0@.len() == 18,
    ensures
        match row {
            None => res matches Ok(None),
            Some(r) => if required_present(column_texts(r.0@)) {
                res matches Ok(Some(e)) && e.0@ == record_from_columns(callsign@, column_texts(r.0@)) && e.1 == r.1 as u64
            } else {
                res is Err
            },
        },
{
    match row {
        None => Ok(None),
        Some((cols, cached_at)) => {
            proof {
                let c = column_texts(cols@);
                assert(c[0] == opt_text(cols@[0]));
                assert(c[2] == opt_text(cols@[2]));
                assert(c[3] == opt_text(cols@[3]));
            }
            if cols[0].is_none() || cols[2].is_none() || cols[3].is_none() {
                return Err(CacheError::Database);
            }
            let record = CallsignRecord {
                unique_system_identifier: None,
                call_sign: Some(callsign.to_string()),
                display_name: required_text(&cols[0]),
                license_type: copy_text(&cols[1]),
                license_status: required_text(&cols[2]),
                license_status_label: required_text(&cols[3]),
                operator_class: None,
                operator_class_label: copy_text(&cols[4]),
                group_code: None,
                region_code: None,
                previous_callsign: copy_text(&cols[5]),
                previous_operator_class: None,
                previous_operator_class_label: None,
                trustee_callsign: copy_text(&cols[6]),
                trustee_name: copy_text(&cols[7]),
                vanity_call_sign_change: None,
                vanity_relationship: None,
                address: AddressInfo {
                    street: copy_text(&cols[8]),
                    city: copy_text(&cols[9]),
                    state: copy_text(&cols[10]),
                    zip_code: copy_text(&cols[11]),
                    po_box: copy_text(&cols[12]),
                },
                email: None,
                phone: None,
                frn: copy_text(&cols[13]),
                grant_date: copy_text(&cols[14]),
                expired_date: copy_text(&cols[15]),
                cancellation_date: None,
                effective_date: None,
                last_action_date: copy_text(&cols[16]),
                uls_url: copy_text(&cols[17]),
                service: None,
                service_label: None,
                frn_licenses: None,
            };
            proof {
                let c = column_texts(cols@);
                assert(c[0] == opt_text(cols@[0]));
                assert(record@ == record_from_columns(callsign@, c));
            }
            Ok(Some((record, cached_at as u64)))
        },
    }
}

/// Reads the entry of `callsign` that is fresh at time `now`, reporting a
/// database failure (or a row whose required columns are NULL) as an error.
pub fn fetch_at(conn: &rusqlite::Connection, callsign: &str, now: u64) -> (res: Result<Option<(CallsignRecord, u64)>, CacheError>)
    ensures
        res matches Ok(v) ==> entry_view(v) == fresh_entry(callsign_table(*conn), callsign@, now),
        res matches Ok(Some(_)) ==> required_present(callsign_table(*conn)[callsign@].0),
{
    let min_age = now.saturating_sub(TTL_SECS);
    let row = match select_row(conn, callsign, min_age as i64) {
        Ok(r) => r,
        Err(_) => return Err(CacheError::Database),
    };
    entry_from_row(callsign, row)
}

/// The cached record and its `cached_at` when an entry of `callsign` fresh
/// at time `now` exists; `None` otherwise or when the database fails.
pub fn get_at(conn: &rusqlite::Connection, callsign: &str, now: u64) -> (res: Option<(CallsignRecord, u64)>)
    ensures
        res is Some ==> entry_view(res) == fresh_entry(callsign_table(*conn), callsign@, now),
        fresh_entry(callsign_table(*conn), callsign@, now) is None ==> res is None,
{
    match fetch_at(conn, callsign, now) {
        Ok(v) => v,
        Err(_) => None,
    }
}

/// Returns the cached record and its `cached_at` Unix timestamp when a fresh
/// entry (within [`TTL_SECS`] of now) exists for `callsign`.
pub fn get(conn: &rusqlite::Connection, callsign: &str) -> (res: Option<(CallsignRecord, u64)>)
    ensures
        exists|now: u64| #![trigger fresh_since(now)] {
            &&& res is Some ==> entry_view(res) == fresh_entry(callsign_table(*conn), callsign@, now)
            &&& fresh_entry(callsign_table(*conn), callsign@, now) is None ==> res is None
        },
{
    let now = now_secs();
    get_at(conn, callsign, now)
}

// ── Lookup history ───────────────────────────────────────────────────────────

/// The sources the history table accepts (its `CHECK` constraint).
pub open spec fn known_source(source: Seq<char>) -> bool {
    source == "api"@ || source == "cache"@
}

/// Appends a lookup event stamped `now` to the history table. A source
/// other than `api` or `cache` is refused, as the table's `CHECK`
/// constraint refuses it, and nothing is added; any failure adds nothing,
/// and the callsigns table is never touched.
pub fn record_lookup_at(conn: &mut rusqlite::Connection, callsign: &str, source: &str, now: u64) -> (res: Result<(), CacheError>)
    ensures
        res is Ok ==> known_source(source@),
        !known_source(source@) ==> res is Err && *final(conn) == *old(conn),
        res is Ok ==> lookup_log(*final(conn)) == lookup_log(*old(conn)).push((callsign@, stamp(now), source@)),
        res is Err ==> lookup_log(*final(conn)) == lookup_log(*old(conn)),
        callsign_table(*final(conn)) == callsign_table(*old(conn)),
{
    if !(str_eq(source, "api") || str_eq(source, "cache")) {
        return Err(CacheError::Database);
    }
    match insert_log_row(conn, callsign, now as i64, source) {
        Ok(_) => Ok(()),
        Err(_) => Err(CacheError::Database),
    }
}

/// Appends a lookup event to the history table; a source other than `api`
/// or `cache` is refused and adds nothing.
pub fn record_lookup(conn: &mut rusqlite::Connection, callsign: &str, source: &str) -> (res: Result<(), CacheError>)
    ensures
        res is Ok ==> known_source(source@),
        !known_source(source@) ==> res is Err && *final(conn) == *old(conn),
        res is Ok ==> exists|t: u64| lookup_log(*final(conn)) == lookup_log(*old(conn)).push((callsign@, #[trigger] stamp(t), source@)),
        res is Err ==> lookup_log(*final(conn)) == lookup_log(*old(conn)),
        callsign_table(*final(conn)) == callsign_table(*old(conn)),
{
    let now = now_secs();
    record_lookup_at(conn, callsign, source, now)
}

/// The rows of a history listing that could be read, in order.
pub open spec fn kept_rows(rows: Seq<Option<(int, Seq<char>)>>) -> Seq<(int, Seq<char>)>
    decreases rows.len(),
{
    if rows.len() == 0 {
        Seq::empty()
    } else {
        let rest = kept_rows(rows.drop_last());
        match rows.last() {
            Some(p) => rest.push(p),
            None => rest,
        }
    }
}

/// `shown` lists `events`, each time as unsigned seconds.
pub open spec fn shows(shown: Seq<(u64, String)>, events: Seq<(int, Seq<char>)>) -> bool {
    &&& shown.len() == events.len()
    &&& forall|i: int| 0 <= i < shown.len() ==> (#[trigger] shown[i]).0 == events[i].0 as u64 && shown[i].1@ == events[i].1
}

/// Keeps the rows that could be read, in order, each time as `u64`.
pub fn history_from_rows(rows: Vec<Option<(i64, String)>>) -> (res: Vec<(u64, String)>)
    ensures
        shows(res@, kept_rows(listing_rows(rows@))),
{
    let mut out: Vec<(u64, String)> = Vec::new();
    let mut i: usize = 0;
    while i < rows.len()
        invariant
            i <= rows.len(),
            shows(out@, kept_rows(listing_rows(rows@).subrange(0, i as int))),
        decreases rows.len() - i,
    {
        proof {
            assert(listing_rows(rows@).subrange(0, i + 1).drop_last() =~= listing_rows(rows@).subrange(0, i as int));
        }
        match &rows[i] {
            Some(p) => {
                out.push((p.0 as u64, p.1.clone()));
                assert(listing_rows(rows@)[i as int] == Some((p.0 as int, p.1@)));
            },
            None => {
                assert(listing_rows(rows@)[i as int] is None);
            },
        }
        i = i + 1;
    }
    assert(listing_rows(rows@).subrange(0, rows@.len() as int) =~= listing_rows(rows@));
    out
}

proof fn lemma_kept_rows_len(rows: Seq<Option<(int, Seq<char>)>>)
    ensures
        kept_rows(rows).len() <= rows.len(),
    decreases rows.len(),
{
    if rows.len() > 0 {
        lemma_kept_rows_len(rows.drop_last());
    }
}

/// Returns the lookup events for `callsign`, most recent first. Each entry
/// is `(looked_up_at_unix_secs, source)`. A failed query gives none; a row
/// that cannot be read is left out, and a failed step ends the listing early.
/// Never more events are shown than were logged for `callsign`.
pub fn get_history(conn: &rusqlite::Connection, callsign: &str) -> (res: Vec<(u64, String)>)
    ensures
        res@.len() == 0 || exists|rows: Seq<Option<(int, Seq<char>)>>| {
            &&& listed_newest_first(rows, lookup_log(*conn), callsign@)
            &&& #[trigger] shows(res@, kept_rows(rows))
        },
        res@.len() <= entries_for(lookup_log(*conn), callsign@).len(),
{
    match select_log_rows(conn, callsign) {
        Ok(rows) => {
            let ghost listed = listing_rows(rows@);
            let res = history_from_rows(rows);
            assert(listed_newest_first(listed, lookup_log(*conn), callsign@));
            proof {
                let entries = entries_for(lookup_log(*conn), callsign@);
                let ord = choose|ord: Seq<(int, Seq<char>)>| listing_of(listed, ord) && {
                    &&& ord.to_multiset() == entries.to_multiset()
                    &&& newest_first(ord)
                };
                assert(ord.to_multiset().len() == ord.len());
                assert(entries.to_multiset().len() == entries.len());
                lemma_kept_rows_bounded(listed, ord);
            }
            res
        },
        Err(_) => {
            Vec::new()
        },
    }
}

} // verus!

verus! {

// ── Laws ─────────────────────────────────────────────────────────────────────

/// A read at a time when the entry is still fresh gives back what `store`
/// wrote: the record as the cache keeps it (its callsign, the stored fields
/// with blank optional text absent, nothing else) and the time it was stored.
pub proof fn law_read_after_write(
    table: Map<Seq<char>, (Seq<Option<Seq<char>>>, int)>,
    record: RecordView,
    stored_at: u64,
    now: u64,
)
    requires
        stamp(stored_at) >= fresh_since(now),
    ensures
        fresh_entry(
            table.insert(record_callsign(record), (stored_columns(record), stamp(stored_at))),
            record_callsign(record),
            now,
        ) == Some((cached_view(record), stored_at)),
{
    let key = record_callsign(record);
    let written = table.insert(key, (stored_columns(record), stamp(stored_at)));
    assert(written.contains_key(key));
    assert(record_from_columns(key, stored_columns(record)) == cached_view(record));
    assert((stored_at as i64) as u64 == stored_at) by (bit_vector);
}

/// Applying the schema again after it was applied changes nothing: the
/// version stays current and the cached rows stay.
pub proof fn law_schema_apply_idempotent(version: int, table: Map<Seq<char>, (Seq<Option<Seq<char>>>, int)>)
    ensures
        version_after_schema(version_after_schema(version)) == version_after_schema(version),
        table_after_schema(version_after_schema(version), table_after_schema(version, table))
            == table_after_schema(version, table),
        version_after_schema(version) >= SCHEMA_VERSION,
{
}

/// An entry stored before the freshness window of `now` is not served.
pub proof fn law_stale_entry_not_served(
    table: Map<Seq<char>, (Seq<Option<Seq<char>>>, int)>,
    callsign: Seq<char>,
    cols: Seq<Option<Seq<char>>>,
    stored_at: u64,
    now: u64,
)
    requires
        stamp(stored_at) < fresh_since(now),
    ensures
        fresh_entry(table.insert(callsign, (cols, stamp(stored_at))), callsign, now) is None,
{
}

/// With both clocks within the signed range the database stores, an entry is
/// served exactly while it is at most [`TTL_SECS`] seconds old.
pub proof fn law_served_within_ttl(
    table: Map<Seq<char>, (Seq<Option<Seq<char>>>, int)>,
    callsign: Seq<char>,
    cols: Seq<Option<Seq<char>>>,
    stored_at: u64,
    now: u64,
)
    requires
        stored_at <= i64::MAX,
        now <= i64::MAX,
    ensures
        fresh_entry(table.insert(callsign, (cols, stamp(stored_at))), callsign, now) is Some
            <==> now <= stored_at + TTL_SECS,
{
    let min_age: u64 = if now >= TTL_SECS { (now - TTL_SECS) as u64 } else { 0 };
    assert(stamp(stored_at) == stored_at as int);
    assert((min_age as i64) as int == min_age as int);
}

/// Writing one callsign leaves what is served for every other callsign.
pub proof fn law_other_entries_untouched(
    table: Map<Seq<char>, (Seq<Option<Seq<char>>>, int)>,
    written: Seq<char>,
    row: (Seq<Option<Seq<char>>>, int),
    other: Seq<char>,
    now: u64,
)
    requires
        written != other,
    ensures
        fresh_entry(table.insert(written, row), other, now) == fresh_entry(table, other, now),
{
}

/// The cache holds one entry per callsign: a second write replaces the first.
pub proof fn law_second_write_wins(
    table: Map<Seq<char>, (Seq<Option<Seq<char>>>, int)>,
    callsign: Seq<char>,
    first: (Seq<Option<Seq<char>>>, int),
    second: (Seq<Option<Seq<char>>>, int),
)
    ensures
        table.insert(callsign, first).insert(callsign, second) == table.insert(callsign, second),
{
    assert(table.insert(callsign, first).insert(callsign, second) =~= table.insert(callsign, second));
}

/// Logging a lookup of `callsign` adds exactly that event to its history.
pub proof fn law_logged_lookup_joins_history(
    log: Seq<(Seq<char>, int, Seq<char>)>,
    callsign: Seq<char>,
    at: int,
    source: Seq<char>,
)
    ensures
        entries_for(log.push((callsign, at, source)), callsign) == entries_for(log, callsign).push((at, source)),
{
    assert(log.push((callsign, at, source)).drop_last() =~= log);
}

/// Logging a lookup of one callsign leaves every other callsign's history.
pub proof fn law_history_is_per_callsign(
    log: Seq<(Seq<char>, int, Seq<char>)>,
    logged: Seq<char>,
    at: int,
    source: Seq<char>,
    other: Seq<char>,
)
    requires
        logged != other,
    ensures
        entries_for(log.push((logged, at, source)), other) == entries_for(log, other),
{
    assert(log.push((logged, at, source)).drop_last() =~= log);
}

/// Where each row kept from a listing came from: the kept rows are entries
/// of `ord` at increasing positions below `rows.len()`.
proof fn lemma_kept_rows_origin(rows: Seq<Option<(int, Seq<char>)>>, ord: Seq<(int, Seq<char>)>) -> (origin: Seq<int>)
    requires
        forall|i: int| 0 <= i < rows.len() && (#[trigger] rows[i]) is Some ==> i < ord.len() && rows[i]->0 == ord[i],
    ensures
        origin.len() == kept_rows(rows).len(),
        kept_rows(rows).len() <= rows.len(),
        forall|i: int| 0 <= i < origin.len() ==> 0 <= #[trigger] origin[i] < rows.len() && origin[i] < ord.len()
            && kept_rows(rows)[i] == ord[origin[i]],
        forall|i: int, j: int| 0 <= i < j < origin.len() ==> origin[i] < origin[j],
    decreases rows.len(),
{
    if rows.len() == 0 {
        Seq::empty()
    } else {
        let prefix = rows.drop_last();
        assert forall|i: int| 0 <= i < prefix.len() && (#[trigger] prefix[i]) is Some implies i < ord.len() && prefix[i]->0 == ord[i] by {
            assert(prefix[i] == rows[i]);
        }
        let before = lemma_kept_rows_origin(prefix, ord);
        let last = rows.len() - 1;
        assert(rows[last] == rows.last());
        if rows.last() is Some {
            let origin = before.push(last);
            assert forall|i: int| 0 <= i < origin.len() implies 0 <= #[trigger] origin[i] < rows.len() && origin[i] < ord.len()
                && kept_rows(rows)[i] == ord[origin[i]] by {
                if i < before.len() {
                    assert(origin[i] == before[i]);
                    assert(kept_rows(rows)[i] == kept_rows(prefix)[i]);
                }
            }
            origin
        } else {
            before
        }
    }
}

proof fn lemma_kept_rows_newest_first(rows: Seq<Option<(int, Seq<char>)>>, ord: Seq<(int, Seq<char>)>)
    requires
        forall|i: int| 0 <= i < rows.len() && (#[trigger] rows[i]) is Some ==> i < ord.len() && rows[i]->0 == ord[i],
        newest_first(ord),
    ensures
        newest_first(kept_rows(rows)),
{
    let origin = lemma_kept_rows_origin(rows, ord);
    let kept = kept_rows(rows);
    assert forall|i: int, j: int| 0 <= i < j < kept.len() implies kept[i].0 >= kept[j].0 by {
        assert(kept[i] == ord[origin[i]]);
        assert(kept[j] == ord[origin[j]]);
    }
}

/// The rows read of a listing never number more than the listed entries.
proof fn lemma_kept_rows_bounded(rows: Seq<Option<(int, Seq<char>)>>, ord: Seq<(int, Seq<char>)>)
    requires
        listing_of(rows, ord),
    ensures
        kept_rows(rows).len() <= ord.len(),
{
    let origin = lemma_kept_rows_origin(rows, ord);
    if rows.len() == ord.len() + 1 {
        let last = rows.len() - 1;
        assert(rows[last] == rows.last());
        assert(rows.last() is None);
        lemma_kept_rows_len(rows.drop_last());
    }
}

/// Every event a history listing shows is a logged lookup of that callsign.
pub proof fn law_history_shows_only_its_callsign(
    rows: Seq<Option<(int, Seq<char>)>>,
    log: Seq<(Seq<char>, int, Seq<char>)>,
    callsign: Seq<char>,
    i: int,
)
    requires
        listed_newest_first(rows, log, callsign),
        0 <= i < kept_rows(rows).len(),
    ensures
        entries_for(log, callsign).contains(kept_rows(rows)[i]),
{
    let ord = choose|ord: Seq<(int, Seq<char>)>| listing_of(rows, ord) && {
        &&& ord.to_multiset() == entries_for(log, callsign).to_multiset()
        &&& newest_first(ord)
    };
    let origin = lemma_kept_rows_origin(rows, ord);
    let k = origin[i];
    assert(kept_rows(rows)[i] == ord[k]);
    assert(ord.contains(ord[k]));
    assert(ord.to_multiset().count(ord[k]) > 0);
}

/// A history listing is ordered most recent first.
pub proof fn law_history_newest_first(
    rows: Seq<Option<(int, Seq<char>)>>,
    log: Seq<(Seq<char>, int, Seq<char>)>,
    callsign: Seq<char>,
)
    requires
        listed_newest_first(rows, log, callsign),
    ensures
        newest_first(kept_rows(rows)),
{
    let ord = choose|ord: Seq<(int, Seq<char>)>| listing_of(rows, ord) && {
        &&& ord.to_multiset() == entries_for(log, callsign).to_multiset()
        &&& newest_first(ord)
    };
    lemma_kept_rows_newest_first(rows, ord);
}

/// When every row could be read, a history listing shows every logged
/// lookup of the callsign.
pub proof fn law_history_is_complete(
    rows: Seq<Option<(int, Seq<char>)>>,
    log: Seq<(Seq<char>, int, Seq<char>)>,
    callsign: Seq<char>,
)
    requires
        listed_newest_first(rows, log, callsign),
        forall|i: int| 0 <= i < rows.len() ==> (#[trigger] rows[i]) is Some,
    ensures
        kept_rows(rows).len() == entries_for(log, callsign).len(),
{
    let ord = choose|ord: Seq<(int, Seq<char>)>| listing_of(rows, ord) && {
        &&& ord.to_multiset() == entries_for(log, callsign).to_multiset()
        &&& newest_first(ord)
    };
    lemma_kept_rows_all(rows);
    assert(ord.to_multiset().len() == ord.len());
    assert(entries_for(log, callsign).to_multiset().len() == entries_for(log, callsign).len());
}

proof fn lemma_kept_rows_all(rows: Seq<Option<(int, Seq<char>)>>)
    requires
        forall|i: int| 0 <= i < rows.len() ==> (#[trigger] rows[i]) is Some,
    ensures
        kept_rows(rows).len() == rows.len(),
    decreases rows.len(),
{
    if rows.len() > 0 {
        let prefix = rows.drop_last();
        assert forall|i: int| 0 <= i < prefix.len() implies (#[trigger] prefix[i]) is Some by {
            assert(prefix[i] == rows[i]);
        }
        lemma_kept_rows_all(prefix);
        assert(rows[rows.len() - 1] == rows.last());
    }
}

} // verus!
