//! The decisions of a callsign lookup around the cache: whether the cache
//! may answer, and what is written back once the record is known. Fetching
//! from the service and showing the result belong to the application.

use vstd::prelude::*;
use crate::api::{CallsignRecord, record_callsign};
use crate::cache::{
    cached_view, callsign_table, entries_for, entry_view, fresh_entry, fresh_since, get_at,
    get_history, kept_rows, law_logged_lookup_joins_history, listed_newest_first, shows, law_read_after_write, lookup_log, now_secs, record_lookup_at,
    stamp, store_at, stored_columns,
};

verus! {

/// Where the record shown by a lookup came from.
#[derive(Debug, PartialEq, Eq, Structural, Clone, Copy)]
pub enum LookupSource {
    /// Served from the local cache.
    Cache,
    /// Fetched live from the callrx-service API.
    Api,
}

/// The name a lookup source is logged under in the history.
pub open spec fn source_name(source: LookupSource) -> Seq<char> {
    match source {
        LookupSource::Cache => "cache"@,
        LookupSource::Api => "api"@,
    }
}

impl LookupSource {
    /// The name this source is logged under: `cache` or `api`.
    pub fn as_str(&self) -> (res: &'static str)
        ensures
            res@ == source_name(*self),
    {
        match self {
            LookupSource::Cache => "cache",
            LookupSource::Api => "api",
        }
    }
}

/// The cached answer to a lookup of `callsign` at time `now`: none when the
/// cache is bypassed (`--no-cache`) or could not be opened, else the fresh
/// entry the cache holds, if any.
pub fn cached_lookup_at(cache: &Option<rusqlite::Connection>, callsign: &str, no_cache: bool, now: u64) -> (res: Option<(CallsignRecord, u64)>)
    ensures
        no_cache || cache is None ==> res is None,
        !no_cache && cache is Some ==> {
            &&& res is Some ==> entry_view(res) == fresh_entry(callsign_table(cache->0), callsign@, now)
            &&& fresh_entry(callsign_table(cache->0), callsign@, now) is None ==> res is None
        },
{
    if no_cache {
        return None;
    }
    match cache {
        Some(conn) => get_at(conn, callsign, now),
        None => None,
    }
}

/// The cached answer to a lookup of `callsign` by the system clock.
pub fn cached_lookup(cache: &Option<rusqlite::Connection>, callsign: &str, no_cache: bool) -> (res: Option<(CallsignRecord, u64)>)
    ensures
        no_cache || cache is None ==> res is None,
        !no_cache && cache is Some ==> exists|now: u64| {
            &&& res is Some ==> entry_view(res) == #[trigger] fresh_entry(callsign_table(cache->0), callsign@, now)
            &&& fresh_entry(callsign_table(cache->0), callsign@, now) is None ==> res is None
        },
{
    let now = now_secs();
    cached_lookup_at(cache, callsign, no_cache, now)
}

/// The callsigns table after a lookup whose record came from `source` was
/// finished at time `now`: a fetched record is written back.
pub open spec fn table_after(
    table: Map<Seq<char>, (Seq<Option<Seq<char>>>, int)>,
    record: crate::api::RecordView,
    source: LookupSource,
    now: u64,
) -> Map<Seq<char>, (Seq<Option<Seq<char>>>, int)> {
    match source {
        LookupSource::Api => table.insert(record_callsign(record), (stored_columns(record), stamp(now))),
        LookupSource::Cache => table,
    }
}

/// Finishes a lookup of `callsign` at time `now` whose `record` came from
/// `source`. A record fetched from the service is written back to the cache
/// first (also when reading the cache was bypassed), then the lookup is
/// logged with its source. Returns whether every write went through; a
/// failed write is not an error for the lookup, whose record is shown anyway.
/// Whatever the database answers, each table either stays as it was or
/// takes exactly this lookup's write.
pub fn finish_lookup_at(
    cache: &mut Option<rusqlite::Connection>,
    callsign: &str,
    record: &CallsignRecord,
    source: LookupSource,
    now: u64,
) -> (res: bool)
    ensures
        (*final(cache)) is Some == (*old(cache)) is Some,
        (*old(cache)) is None ==> !res,
        res ==> callsign_table((*final(cache))->0) == table_after(callsign_table((*old(cache))->0), record@, source, now),
        res ==> lookup_log((*final(cache))->0) == lookup_log((*old(cache))->0).push((callsign@, stamp(now), source_name(source))),
        (*old(cache)) is Some ==> {
            ||| callsign_table((*final(cache))->0) == callsign_table((*old(cache))->0)
            ||| callsign_table((*final(cache))->0) == table_after(callsign_table((*old(cache))->0), record@, source, now)
        },
        (*old(cache)) is Some ==> {
            ||| lookup_log((*final(cache))->0) == lookup_log((*old(cache))->0)
            ||| lookup_log((*final(cache))->0) == lookup_log((*old(cache))->0).push((callsign@, stamp(now), source_name(source)))
        },
{
    match cache {
        Some(conn) => {
            let stored = match source {
                LookupSource::Api => store_at(conn, record, now).is_ok(),
                LookupSource::Cache => true,
            };
            let logged = record_lookup_at(conn, callsign, source.as_str(), now).is_ok();
            stored && logged
        },
        None => false,
    }
}

/// Finishes a lookup of `callsign` by the system clock (see
/// [`finish_lookup_at`]).
pub fn finish_lookup(
    cache: &mut Option<rusqlite::Connection>,
    callsign: &str,
    record: &CallsignRecord,
    source: LookupSource,
) -> (res: bool)
    ensures
        (*final(cache)) is Some == (*old(cache)) is Some,
        (*old(cache)) is None ==> !res,
        res ==> exists|now: u64| {
            &&& callsign_table((*final(cache))->0) == #[trigger] table_after(callsign_table((*old(cache))->0), record@, source, now)
            &&& lookup_log((*final(cache))->0) == lookup_log((*old(cache))->0).push((callsign@, stamp(now), source_name(source)))
        },
        (*old(cache)) is Some ==> exists|now: u64| {
            &&& {
                ||| callsign_table((*final(cache))->0) == callsign_table((*old(cache))->0)
                ||| callsign_table((*final(cache))->0) == #[trigger] table_after(callsign_table((*old(cache))->0), record@, source, now)
            }
            &&& {
                ||| lookup_log((*final(cache))->0) == lookup_log((*old(cache))->0)
                ||| lookup_log((*final(cache))->0) == lookup_log((*old(cache))->0).push((callsign@, stamp(now), source_name(source)))
            }
        },
{
    let now = now_secs();
    let ghost before = *cache;
    let res = finish_lookup_at(cache, callsign, record, source, now);
    proof {
        if before is Some {
            let _ = table_after(callsign_table(before->0), record@, source, now);
        }
    }
    res
}

/// The lookup history of `callsign` to show: none when the cache could not
/// be opened, else what the history table lists for it, newest first.
pub fn history_for(cache: &Option<rusqlite::Connection>, callsign: &str) -> (res: Vec<(u64, String)>)
    ensures
        cache is None ==> res@.len() == 0,
        cache is Some ==> res@.len() == 0 || exists|rows: Seq<Option<(int, Seq<char>)>>| {
            &&& listed_newest_first(rows, lookup_log(cache->0), callsign@)
            &&& #[trigger] shows(res@, kept_rows(rows))
        },
        cache is Some ==> res@.len() <= entries_for(lookup_log(cache->0), callsign@).len(),
{
    match cache {
        Some(conn) => get_history(conn, callsign),
        None => Vec::new(),
    }
}

// ── Laws ─────────────────────────────────────────────────────────────────────

/// A record fetched from the service (with or without `--no-cache`) is
/// written back, so a later lookup still within the freshness window is
/// served from the cache: the record as the cache keeps it, stamped with the
/// time of the fetch.
pub proof fn law_fetched_record_served_next(
    table: Map<Seq<char>, (Seq<Option<Seq<char>>>, int)>,
    record: crate::api::RecordView,
    fetched_at: u64,
    later: u64,
)
    requires
        stamp(fetched_at) >= fresh_since(later),
    ensures
        fresh_entry(table_after(table, record, LookupSource::Api, fetched_at), record_callsign(record), later)
            == Some((cached_view(record), fetched_at)),
{
    law_read_after_write(table, record, fetched_at, later);
}

/// A lookup answered by the cache writes no record.
pub proof fn law_cached_lookup_keeps_table(
    table: Map<Seq<char>, (Seq<Option<Seq<char>>>, int)>,
    record: crate::api::RecordView,
    now: u64,
)
    ensures
        table_after(table, record, LookupSource::Cache, now) == table,
{
}

/// Every finished lookup, served from the cache or fetched live, adds exactly
/// one event to the history of the callsign looked up: its time and source.
pub proof fn law_finished_lookup_in_history(
    log: Seq<(Seq<char>, int, Seq<char>)>,
    callsign: Seq<char>,
    source: LookupSource,
    now: u64,
)
    ensures
        entries_for(log.push((callsign, stamp(now), source_name(source))), callsign)
            == entries_for(log, callsign).push((stamp(now), source_name(source))),
{
    law_logged_lookup_joins_history(log, callsign, stamp(now), source_name(source));
}

} // verus!
