//! What the terminal shows: column widths, dates and times, ages, the
//! record table, the plain listing, the lookup history and error notes.
//! Each function returns the text; printing it is left to the caller.

use vstd::prelude::*;
use crate::calendar::{civil_date, civil_from_days};
use crate::text::{dec, dec_padded, decimal_string, zero_padded, str_eq, trim, trimmed};
use crate::api::{AddressInfo, AddressView, CallsignRecord, RecordView, opt_text, class_label, dash, record_callsign};
use crate::cache::{TTL_SECS, nonempty_text, text_or_empty};
use crate::hyperlink::{link, link_text};
use crate::style::{
    bold, dimmed, cyan, yellow, bright_red, bright_green, bright_yellow, bright_blue, bright_magenta, bright_cyan,
    bold_text, dimmed_text, fg_text, cyan_code, yellow_code, bright_red_code, bright_green_code,
    bright_yellow_code, bright_blue_code, bright_magenta_code, bright_cyan_code,
};

verus! {

// ── Visible width ────────────────────────────────────────────────────────────

/// Where the width scanner stands: in plain text, inside a CSI sequence
/// (`ESC [` … final letter), inside an OSC sequence (`ESC ]` … `BEL` or
/// `ESC \`), or just after the `ESC` that ends an OSC sequence.
#[derive(PartialEq, Eq, Structural, Clone, Copy)]
pub enum ScanState {
    Text,
    Csi,
    Osc,
    OscEscape,
}

pub open spec fn is_ascii_letter(c: char) -> bool {
    ('A' <= c && c <= 'Z') || ('a' <= c && c <= 'z')
}

/// Columns shown for `s[i..]`, scanning from state `st`: every character
/// outside an escape sequence counts one column; CSI and OSC sequences
/// count none.
pub open spec fn shown_width(s: Seq<char>, i: int, st: ScanState) -> int
    decreases s.len() - i,
{
    if i < 0 || i >= s.len() {
        0
    } else {
        match st {
            ScanState::Text => {
                if s[i] != '\u{1b}' {
                    1 + shown_width(s, i + 1, ScanState::Text)
                } else if i + 1 < s.len() && s[i + 1] == '[' {
                    shown_width(s, i + 2, ScanState::Csi)
                } else if i + 1 < s.len() && s[i + 1] == ']' {
                    shown_width(s, i + 2, ScanState::Osc)
                } else {
                    shown_width(s, i + 1, ScanState::Text)
                }
            },
            ScanState::Csi => {
                if is_ascii_letter(s[i]) {
                    shown_width(s, i + 1, ScanState::Text)
                } else {
                    shown_width(s, i + 1, ScanState::Csi)
                }
            },
            ScanState::Osc => {
                if s[i] == '\u{7}' {
                    shown_width(s, i + 1, ScanState::Text)
                } else if s[i] == '\u{1b}' {
                    shown_width(s, i + 1, ScanState::OscEscape)
                } else {
                    shown_width(s, i + 1, ScanState::Osc)
                }
            },
            ScanState::OscEscape => shown_width(s, i + 1, ScanState::Text),
        }
    }
}

/// The rendered width of a string.
pub open spec fn visible_width_of(s: Seq<char>) -> int {
    shown_width(s, 0, ScanState::Text)
}

/// Rendered width of a string, ignoring ANSI SGR color codes and OSC 8
/// hyperlink escape sequences.
pub fn visible_width(s: &str) -> (res: usize)
    ensures
        res == visible_width_of(s@),
{
    let n = s.unicode_len();
    let mut width: usize = 0;
    let mut i: usize = 0;
    let mut st = ScanState::Text;
    while i < n
        invariant
            n == s@.len(),
            i <= n,
            width <= i,
            width + shown_width(s@, i as int, st) == visible_width_of(s@),
        decreases n - i,
    {
        let c = s.get_char(i);
        match st {
            ScanState::Text => {
                if c != '\u{1b}' {
                    width = width + 1;
                    i = i + 1;
                } else if i + 1 < n && s.get_char(i + 1) == '[' {
                    st = ScanState::Csi;
                    i = i + 2;
                } else if i + 1 < n && s.get_char(i + 1) == ']' {
                    st = ScanState::Osc;
                    i = i + 2;
                } else {
                    i = i + 1;
                }
            },
            ScanState::Csi => {
                if ('A' <= c && c <= 'Z') || ('a' <= c && c <= 'z') {
                    st = ScanState::Text;
                }
                i = i + 1;
            },
            ScanState::Osc => {
                if c == '\u{7}' {
                    st = ScanState::Text;
                } else if c == '\u{1b}' {
                    st = ScanState::OscEscape;
                }
                i = i + 1;
            },
            ScanState::OscEscape => {
                st = ScanState::Text;
                i = i + 1;
            },
        }
    }
    width
}

// ── Dates, times and ages ────────────────────────────────────────────────────

/// `YYYY-MM-DD`, each part zero-padded (the year to at least four digits).
pub open spec fn date_text(d: (int, int, int)) -> Seq<char> {
    dec_padded(d.0 as nat, 4) + seq!['-'] + dec_padded(d.1 as nat, 2) + seq!['-'] + dec_padded(d.2 as nat, 2)
}

/// The UTC date of the Unix timestamp `ts`.
pub open spec fn unix_date_text(ts: u64) -> Seq<char> {
    date_text(civil_date((ts / 86_400) as int))
}

/// `HH:MM` (UTC) of the Unix timestamp `ts`.
pub open spec fn unix_time_text(ts: u64) -> Seq<char> {
    let secs = ts % 86_400;
    dec_padded((secs / 3_600) as nat, 2) + seq![':'] + dec_padded(((secs % 3_600) / 60) as nat, 2)
}

/// Converts a Unix timestamp to a YYYY-MM-DD string (UTC).
pub fn unix_to_date(ts: u64) -> (res: String)
    ensures
        res@ == unix_date_text(ts),
{
    let days = ts / 86_400;
    let (y, m, d) = civil_from_days(days);
    let mut res = zero_padded(y, 4);
    res.append("-");
    let month = zero_padded(m, 2);
    res.append(month.as_str());
    res.append("-");
    let day = zero_padded(d, 2);
    res.append(day.as_str());
    proof {
        reveal_strlit("-");
        assert(res@ =~= unix_date_text(ts));
    }
    res
}

/// Converts a Unix timestamp to an HH:MM string (UTC).
pub fn unix_to_time(ts: u64) -> (res: String)
    ensures
        res@ == unix_time_text(ts),
{
    let secs = ts % 86_400;
    let mut res = zero_padded(secs / 3_600, 2);
    res.append(":");
    let minutes = zero_padded((secs % 3_600) / 60, 2);
    res.append(minutes.as_str());
    proof {
        reveal_strlit(":");
        assert(res@ =~= unix_time_text(ts));
    }
    res
}

/// How long ago something happened, in words.
pub open spec fn age_text(age_secs: u64) -> Seq<char> {
    if age_secs < 120 {
        "just now"@
    } else if age_secs < 3_600 {
        dec((age_secs / 60) as nat) + " min ago"@
    } else if age_secs < 172_800 {
        dec((age_secs / 3_600) as nat) + " hr ago"@
    } else {
        dec((age_secs / 86_400) as nat) + " days ago"@
    }
}

/// How long until something happens, in words.
pub open spec fn remaining_text(remaining_secs: u64) -> Seq<char> {
    if remaining_secs < 3_600 {
        dec((remaining_secs / 60) as nat) + " min"@
    } else if remaining_secs < 172_800 {
        dec((remaining_secs / 3_600) as nat) + " hr"@
    } else {
        dec((remaining_secs / 86_400) as nat) + " days"@
    }
}

/// Describes an age: `just now` under two minutes, then whole minutes under
/// an hour, whole hours under two days, whole days after that.
pub fn age_words(age_secs: u64) -> (res: String)
    ensures
        res@ == age_text(age_secs),
{
    if age_secs < 120 {
        "just now".to_string()
    } else if age_secs < 3_600 {
        let mut res = decimal_string(age_secs / 60);
        res.append(" min ago");
        res
    } else if age_secs < 172_800 {
        let mut res = decimal_string(age_secs / 3_600);
        res.append(" hr ago");
        res
    } else {
        let mut res = decimal_string(age_secs / 86_400);
        res.append(" days ago");
        res
    }
}

/// Describes a remaining time: whole minutes under an hour, whole hours
/// under two days, whole days after that.
pub fn ttl_words(remaining_secs: u64) -> (res: String)
    ensures
        res@ == remaining_text(remaining_secs),
{
    if remaining_secs < 3_600 {
        let mut res = decimal_string(remaining_secs / 60);
        res.append(" min");
        res
    } else if remaining_secs < 172_800 {
        let mut res = decimal_string(remaining_secs / 3_600);
        res.append(" hr");
        res
    } else {
        let mut res = decimal_string(remaining_secs / 86_400);
        res.append(" days");
        res
    }
}

pub open spec fn age_at(cached_at: u64, now: u64) -> u64 {
    if now >= cached_at { (now - cached_at) as u64 } else { 0 }
}

pub open spec fn remaining_at(cached_at: u64, ttl_secs: u64, now: u64) -> u64 {
    if ttl_secs >= age_at(cached_at, now) { (ttl_secs - age_at(cached_at, now)) as u64 } else { 0 }
}

/// The note on a cache entry stored at `cached_at`, read at `now`:
/// `<date> · fetched <age> · refreshes in <remaining>`.
pub open spec fn cache_info_text(cached_at: u64, ttl_secs: u64, now: u64) -> Seq<char> {
    unix_date_text(cached_at) + " \u{b7} fetched "@ + age_text(age_at(cached_at, now))
        + " \u{b7} refreshes in "@ + remaining_text(remaining_at(cached_at, ttl_secs, now))
}

/// The cache note for an entry stored at `cached_at`, as read at time `now`,
/// e.g. "2026-06-09 · fetched 3 days ago · refreshes in 4 days".
pub fn cache_info_label_at(cached_at: u64, ttl_secs: u64, now: u64) -> (res: String)
    ensures
        res@ == cache_info_text(cached_at, ttl_secs, now),
{
    let age = now.saturating_sub(cached_at);
    let remaining = ttl_secs.saturating_sub(age);
    let mut res = unix_to_date(cached_at);
    res.append(" \u{b7} fetched ");
    let age_part = age_words(age);
    res.append(age_part.as_str());
    res.append(" \u{b7} refreshes in ");
    let remaining_part = ttl_words(remaining);
    res.append(remaining_part.as_str());
    res
}

/// Returns a single human-readable string describing the cache entry, as of
/// the system clock.
pub fn cache_info_label(cached_at: u64, ttl_secs: u64) -> (res: String)
    ensures
        exists|now: u64| #[trigger] cache_info_text(cached_at, ttl_secs, now) == res@,
{
    let now = crate::cache::now_secs();
    cache_info_label_at(cached_at, ttl_secs, now)
}

} // verus!

verus! {

// ── The record table ─────────────────────────────────────────────────────────

pub open spec fn rows_view(rows: Seq<(&'static str, String)>) -> Seq<(Seq<char>, Seq<char>)> {
    rows.map_values(|r: (&'static str, String)| (r.0@, r.1@))
}

pub open spec fn push_if(rows: Seq<(Seq<char>, Seq<char>)>, cond: bool, label: Seq<char>, value: Seq<char>) -> Seq<(Seq<char>, Seq<char>)> {
    if cond {
        rows.push((label, value))
    } else {
        rows
    }
}

/// The status cell: `✓`, `✗` or `⚠` before the service's label, colored by
/// the FCC status code (`A` green, `E` red, anything else yellow), bold.
pub open spec fn status_value(r: RecordView) -> Seq<char> {
    if r.license_status == "A"@ {
        bold_text(fg_text(bright_green_code(), "\u{2713} "@ + r.license_status_label))
    } else if r.license_status == "E"@ {
        bold_text(fg_text(bright_red_code(), "\u{2717} "@ + r.license_status_label))
    } else {
        bold_text(fg_text(bright_yellow_code(), "\u{26a0} "@ + r.license_status_label))
    }
}

/// The class cell, colored by operator class.
pub open spec fn class_value(c: Seq<char>) -> Seq<char> {
    if c == "Amateur Extra"@ {
        bold_text(fg_text(bright_magenta_code(), c))
    } else if c == "Advanced"@ {
        bold_text(fg_text(bright_blue_code(), c))
    } else if c == "General"@ {
        fg_text(bright_cyan_code(), c)
    } else if c == "Technician"@ {
        fg_text(bright_green_code(), c)
    } else if c == "Novice"@ {
        fg_text(yellow_code(), c)
    } else {
        c
    }
}

/// The first address line: the street when given (a blank street gives
/// none), else the PO box when not blank.
pub open spec fn address_line(a: AddressView) -> Option<Seq<char>> {
    match a.street {
        Some(s) => if s.len() == 0 { None } else { Some(s) },
        None => nonempty_text(a.po_box),
    }
}

/// `CITY, ST ZIP` from the trimmed parts that are not blank.
pub open spec fn city_line(a: AddressView) -> Option<Seq<char>> {
    let city = trimmed(text_or_empty(a.city));
    let state = trimmed(text_or_empty(a.state));
    let zip = trimmed(text_or_empty(a.zip_code));
    let with_state = if state.len() == 0 { city } else if city.len() == 0 { state } else { city + ", "@ + state };
    let line = if zip.len() == 0 { with_state } else if with_state.len() == 0 { zip } else { with_state + " "@ + zip };
    if line.len() == 0 { None } else { Some(line) }
}

/// The trustee cell: the trustee's callsign (bright cyan, bold), a dash and
/// the trustee's name.
pub open spec fn trustee_value(r: RecordView) -> Seq<char> {
    bold_text(fg_text(bright_cyan_code(), text_or_empty(nonempty_text(r.trustee_callsign))))
        + " \u{2014} "@ + text_or_empty(r.trustee_name)
}

/// The expiry cell: red when the license is expired, green otherwise.
pub open spec fn expires_value(r: RecordView) -> Seq<char> {
    let e = text_or_empty(nonempty_text(r.expired_date));
    if r.license_status == seq!['E'] { fg_text(bright_red_code(), e) } else { fg_text(bright_green_code(), e) }
}

pub open spec fn type_value(r: RecordView) -> Seq<char> {
    match r.license_type {
        Some(t) => t,
        None => "Individual"@,
    }
}

pub open spec fn uls_value(r: RecordView, use_links: bool) -> Seq<char> {
    let u = text_or_empty(nonempty_text(r.uls_url));
    link_text(u, u, use_links)
}

/// The rows down to the address.
pub open spec fn identity_rows(r: RecordView) -> Seq<(Seq<char>, Seq<char>)> {
    let r0: Seq<(Seq<char>, Seq<char>)> = seq![("Status"@, status_value(r)), ("Type"@, type_value(r))];
    let r1 = push_if(r0, class_label(r) != dash(), "Class"@, class_value(class_label(r)));
    let r2 = push_if(r1, nonempty_text(r.trustee_callsign) is Some, "Trustee"@, trustee_value(r));
    push_if(r2, nonempty_text(r.previous_callsign) is Some, "Previous"@, dimmed_text(text_or_empty(nonempty_text(r.previous_callsign))))
}

/// The rows from the address to the FRN.
pub open spec fn detail_rows(r: RecordView, start: Seq<(Seq<char>, Seq<char>)>) -> Seq<(Seq<char>, Seq<char>)> {
    let r4 = push_if(start, address_line(r.address) is Some, "Address"@, text_or_empty(address_line(r.address)));
    let r5 = push_if(r4, city_line(r.address) is Some, Seq::empty(), text_or_empty(city_line(r.address)));
    let r6 = push_if(r5, nonempty_text(r.grant_date) is Some, "Granted"@, text_or_empty(nonempty_text(r.grant_date)));
    let r7 = push_if(r6, nonempty_text(r.expired_date) is Some, "Expires"@, expires_value(r));
    let r8 = push_if(r7, nonempty_text(r.last_action_date) is Some, "Last Action"@, dimmed_text(text_or_empty(nonempty_text(r.last_action_date))));
    push_if(r8, nonempty_text(r.frn) is Some, "FRN"@, dimmed_text(text_or_empty(nonempty_text(r.frn))))
}

/// The `(label, styled value)` rows of the record table.
pub open spec fn table_rows(r: RecordView, use_links: bool, cached_at: Option<u64>, now: u64) -> Seq<(Seq<char>, Seq<char>)> {
    let r9 = detail_rows(r, identity_rows(r));
    let r10 = push_if(r9, nonempty_text(r.uls_url) is Some, "ULS Record"@, uls_value(r, use_links));
    push_if(r10, cached_at is Some, "Cached"@, dimmed_text(cache_info_text(cached_at.unwrap_or(0), TTL_SECS, now)))
}

pub open spec fn ref_text(o: Option<&str>) -> Option<Seq<char>> {
    match o {
        Some(s) => Some(s@),
        None => None,
    }
}

/// The text of an optional field when it is present and not blank.
fn present(o: &Option<String>) -> (res: Option<&str>)
    ensures
        ref_text(res) == nonempty_text(opt_text(*o)),
{
    match o {
        Some(s) => if s.as_str().is_empty() { None } else { Some(s.as_str()) },
        None => None,
    }
}

/// The first address line (street, or PO box when there is no street).
pub fn address_line_of(addr: &AddressInfo) -> (res: Option<&str>)
    ensures
        ref_text(res) == address_line(addr@),
{
    match &addr.street {
        Some(s) => if s.as_str().is_empty() { None } else { Some(s.as_str()) },
        None => present(&addr.po_box),
    }
}

fn trimmed_field(o: &Option<String>) -> (res: &str)
    ensures
        res@ == trimmed(text_or_empty(opt_text(*o))),
{
    match o {
        Some(s) => trim(s.as_str()),
        None => {
            let empty = "";
            proof {
                reveal_strlit("");
            }
            trim(empty)
        },
    }
}

/// Composes the "CITY, ST ZIP" address line from the structured address,
/// returning None when there is nothing to show.
pub fn format_city_line(addr: &AddressInfo) -> (res: Option<String>)
    ensures
        opt_text(res) == city_line(addr@),
{
    let city = trimmed_field(&addr.city);
    let state = trimmed_field(&addr.state);
    let zip = trimmed_field(&addr.zip_code);
    let mut line = String::new();
    if !city.is_empty() {
        line.append(city);
    }
    if !state.is_empty() {
        if !line.as_str().is_empty() {
            line.append(", ");
        }
        line.append(state);
    }
    if !zip.is_empty() {
        if !line.as_str().is_empty() {
            line.append(" ");
        }
        line.append(zip);
    }
    proof {
        let a = addr@;
        let with_state = if state@.len() == 0 { city@ } else if city@.len() == 0 { state@ } else { city@ + ", "@ + state@ };
        assert(city@ == trimmed(text_or_empty(a.city)));
    }
    if line.as_str().is_empty() {
        None
    } else {
        Some(line)
    }
}

fn status_cell(record: &CallsignRecord) -> (res: String)
    ensures
        res@ == status_value(record@),
{
    let label = record.license_status_label.as_str();
    let status = record.license_status.as_str();
    if str_eq(status, "A") {
        let mut t = String::from_str("\u{2713} ");
        t.append(label);
        let colored = bright_green(t.as_str());
        bold(colored.as_str())
    } else if str_eq(status, "E") {
        let mut t = String::from_str("\u{2717} ");
        t.append(label);
        let colored = bright_red(t.as_str());
        bold(colored.as_str())
    } else {
        let mut t = String::from_str("\u{26a0} ");
        t.append(label);
        let colored = bright_yellow(t.as_str());
        bold(colored.as_str())
    }
}

fn class_cell(class: &str) -> (res: String)
    ensures
        res@ == class_value(class@),
{
    if str_eq(class, "Amateur Extra") {
        let c = bright_magenta(class);
        bold(c.as_str())
    } else if str_eq(class, "Advanced") {
        let c = bright_blue(class);
        bold(c.as_str())
    } else if str_eq(class, "General") {
        bright_cyan(class)
    } else if str_eq(class, "Technician") {
        bright_green(class)
    } else if str_eq(class, "Novice") {
        yellow(class)
    } else {
        class.to_string()
    }
}

fn push_row(rows: &mut Vec<(&'static str, String)>, label: &'static str, value: Option<String>)
    ensures
        rows_view(final(rows)@) == push_if(rows_view(old(rows)@), value is Some, label@, text_or_empty(opt_text(value))),
{
    match value {
        Some(v) => {
            rows.push((label, v));
            assert(rows_view(rows@) =~= rows_view(old(rows)@).push((label@, text_or_empty(opt_text(value)))));
        },
        None => {},
    }
}

fn identity_rows_of(record: &CallsignRecord) -> (res: Vec<(&'static str, String)>)
    ensures
        rows_view(res@) == identity_rows(record@),
{
    let mut rows: Vec<(&'static str, String)> = Vec::new();
    rows.push(("Status", status_cell(record)));
    let type_text = match &record.license_type {
        Some(t) => t.as_str(),
        None => "Individual",
    };
    rows.push(("Type", type_text.to_string()));
    assert(rows_view(rows@) =~= seq![("Status"@, status_value(record@)), ("Type"@, type_value(record@))]);
    let class = record.license_class_label();
    let dash_text = "\u{2014}";
    proof {
        reveal_strlit("\u{2014}");
        assert(dash_text@ =~= dash());
    }
    let class_row = if !str_eq(class, dash_text) { Some(class_cell(class)) } else { None };
    push_row(&mut rows, "Class", class_row);
    let trustee_row = match present(&record.trustee_callsign) {
        Some(tcall) => {
            let colored = bright_cyan(tcall);
            let mut v = bold(colored.as_str());
            v.append(" \u{2014} ");
            match &record.trustee_name {
                Some(n) => v.append(n.as_str()),
                None => {},
            }
            assert(v@ =~= trustee_value(record@));
            Some(v)
        },
        None => None,
    };
    push_row(&mut rows, "Trustee", trustee_row);
    let previous_row = match present(&record.previous_callsign) {
        Some(pc) => Some(dimmed(pc)),
        None => None,
    };
    push_row(&mut rows, "Previous", previous_row);
    rows
}

fn detail_rows_of(record: &CallsignRecord, rows: &mut Vec<(&'static str, String)>)
    ensures
        rows_view(final(rows)@) == detail_rows(record@, rows_view(old(rows)@)),
{
    let address_row = match address_line_of(&record.address) {
        Some(l1) => Some(l1.to_string()),
        None => None,
    };
    push_row(rows, "Address", address_row);
    let blank = "";
    proof {
        reveal_strlit("");
        assert(blank@ =~= Seq::<char>::empty());
    }
    push_row(rows, blank, format_city_line(&record.address));
    let granted_row = match present(&record.grant_date) {
        Some(g) => Some(g.to_string()),
        None => None,
    };
    push_row(rows, "Granted", granted_row);
    let expired = record.is_expired();
    let expires_row = match present(&record.expired_date) {
        Some(e) => Some(if expired { bright_red(e) } else { bright_green(e) }),
        None => None,
    };
    push_row(rows, "Expires", expires_row);
    let action_row = match present(&record.last_action_date) {
        Some(d) => Some(dimmed(d)),
        None => None,
    };
    push_row(rows, "Last Action", action_row);
    let frn_row = match present(&record.frn) {
        Some(f) => Some(dimmed(f)),
        None => None,
    };
    push_row(rows, "FRN", frn_row);
}

/// Builds the `(label, styled value)` rows shown in the pretty table, the
/// cache note (when `cached_at` is given) as of time `now`.
pub fn build_rows_at(record: &CallsignRecord, use_links: bool, cached_at: Option<u64>, now: u64) -> (res: Vec<(&'static str, String)>)
    ensures
        rows_view(res@) == table_rows(record@, use_links, cached_at, now),
{
    let mut rows = identity_rows_of(record);
    detail_rows_of(record, &mut rows);
    let uls_row = match present(&record.uls_url) {
        Some(u) => Some(link(u, u, use_links)),
        None => None,
    };
    push_row(&mut rows, "ULS Record", uls_row);
    let cached_row = match cached_at {
        Some(ca) => {
            let note = cache_info_label_at(ca, TTL_SECS, now);
            Some(dimmed(note.as_str()))
        },
        None => None,
    };
    push_row(&mut rows, "Cached", cached_row);
    rows
}

/// Builds the rows of the pretty table, the cache note as of the system clock.
pub fn build_rows(record: &CallsignRecord, use_links: bool, cached_at: Option<u64>) -> (res: Vec<(&'static str, String)>)
    ensures
        exists|now: u64| #[trigger] table_rows(record@, use_links, cached_at, now) == rows_view(res@),
{
    let now = crate::cache::now_secs();
    build_rows_at(record, use_links, cached_at, now)
}

} // verus!

verus! {

// ── Layout ───────────────────────────────────────────────────────────────────

pub open spec fn lines_view(lines: Seq<String>) -> Seq<Seq<char>> {
    lines.map_values(|l: String| l@)
}

/// `n` copies of `c` (none when `n` is not positive).
pub open spec fn repeat_char(c: char, n: int) -> Seq<char> {
    Seq::new(if n > 0 { n as nat } else { 0 }, |i: int| c)
}

pub open spec fn spaces(n: int) -> Seq<char> {
    repeat_char(' ', n)
}

pub open spec fn max_int(a: int, b: int) -> int {
    if a >= b { a } else { b }
}

/// The widest label, in characters.
pub open spec fn label_width(rows: Seq<(Seq<char>, Seq<char>)>) -> int
    decreases rows.len(),
{
    if rows.len() == 0 { 0 } else { max_int(label_width(rows.drop_last()), rows.last().0.len() as int) }
}

/// The widest value, in rendered columns.
pub open spec fn value_width(rows: Seq<(Seq<char>, Seq<char>)>) -> int
    decreases rows.len(),
{
    if rows.len() == 0 { 0 } else { max_int(value_width(rows.drop_last()), visible_width_of(rows.last().1)) }
}

/// One table row: the label right-aligned to `lw` (cyan, bold), three
/// spaces, the value padded to `vw` rendered columns, between borders.
pub open spec fn row_line(row: (Seq<char>, Seq<char>), lw: int, vw: int) -> Seq<char> {
    "\u{2502} "@ + bold_text(fg_text(cyan_code(), spaces(lw - row.0.len()) + row.0)) + "   "@
        + row.1 + spaces(vw - visible_width_of(row.1)) + " \u{2502}"@
}

/// The boxed table of a record: a blank line, the callsign and name, the
/// box sized to its contents, an optional cache note, a blank line.
pub open spec fn table_text(callsign: Seq<char>, name: Seq<char>, rows: Seq<(Seq<char>, Seq<char>)>, cached: bool) -> Seq<Seq<char>> {
    let lw = label_width(rows);
    let vw = value_width(rows);
    let inner = 1 + lw + 3 + vw + 1;
    seq![
        Seq::<char>::empty(),
        fg_text(bright_cyan_code(), bold_text(callsign)) + " "@ + dimmed_text("\u{b7} "@ + name),
        "\u{250c}"@ + repeat_char('\u{2500}', inner) + "\u{2510}"@,
    ]
        + Seq::new(rows.len(), |i: int| row_line(rows[i], lw, vw))
        + seq!["\u{2514}"@ + repeat_char('\u{2500}', inner) + "\u{2518}"@]
        + (if cached { seq!["  "@ + dimmed_text("Cached data \u{b7} use --no-cache to fetch fresh"@)] } else { Seq::empty() })
        + seq![Seq::<char>::empty()]
}

/// `n` copies of the one-character `unit`.
fn repeat_text(unit: &str, n: u128) -> (res: String)
    requires
        unit@.len() == 1,
    ensures
        res@ == repeat_char(unit@[0], n as int),
{
    let mut res = String::new();
    let mut i: u128 = 0;
    while i < n
        invariant
            unit@.len() == 1,
            i <= n,
            res@ =~= repeat_char(unit@[0], i as int),
        decreases n - i,
    {
        res.append(unit);
        i = i + 1;
    }
    res
}

fn space_run(n: usize) -> (res: String)
    ensures
        res@ == spaces(n as int),
{
    let unit = " ";
    proof {
        reveal_strlit(" ");
    }
    repeat_text(unit, n as u128)
}

/// Lays out the boxed table, measuring rendered widths so that colored and
/// hyperlinked values stay aligned.
pub fn table_lines(callsign: &str, name: &str, rows: &Vec<(&'static str, String)>, cached: bool) -> (res: Vec<String>)
    ensures
        lines_view(res@) == table_text(callsign@, name@, rows_view(rows@), cached),
{
    let ghost rv = rows_view(rows@);
    let mut label_w: usize = 0;
    let mut value_w: usize = 0;
    let mut i: usize = 0;
    while i < rows.len()
        invariant
            i <= rows.len(),
            rv == rows_view(rows@),
            label_w == label_width(rv.subrange(0, i as int)),
            value_w == value_width(rv.subrange(0, i as int)),
        decreases rows.len() - i,
    {
        assert(rv.subrange(0, i + 1).drop_last() =~= rv.subrange(0, i as int));
        let l = rows[i].0.unicode_len();
        if l > label_w {
            label_w = l;
        }
        let v = visible_width(rows[i].1.as_str());
        if v > value_w {
            value_w = v;
        }
        i = i + 1;
    }
    assert(rv.subrange(0, rows.len() as int) =~= rv);
    let inner: u128 = 1 + label_w as u128 + 3 + value_w as u128 + 1;
    let dash_unit = "\u{2500}";
    proof {
        reveal_strlit("\u{2500}");
    }
    let rule = repeat_text(dash_unit, inner);
    proof {
        assert(dash_unit@[0] == '\u{2500}');
    }

    let mut lines: Vec<String> = Vec::new();
    lines.push(String::new());
    let styled_callsign = bold(callsign);
    let mut header = bright_cyan(styled_callsign.as_str());
    header.append(" ");
    let mut caption = String::from_str("\u{b7} ");
    caption.append(name);
    let dim_caption = dimmed(caption.as_str());
    header.append(dim_caption.as_str());
    lines.push(header);
    let mut top = String::from_str("\u{250c}");
    top.append(rule.as_str());
    top.append("\u{2510}");
    lines.push(top);
    let ghost head = lines_view(lines@);
    proof {
        let lw = label_width(rv);
        let vw = value_width(rv);
        let inner = 1 + lw + 3 + vw + 1;
        assert(head =~= seq![
            Seq::<char>::empty(),
            fg_text(bright_cyan_code(), bold_text(callsign@)) + " "@ + dimmed_text("\u{b7} "@ + name@),
            "\u{250c}"@ + repeat_char('\u{2500}', inner) + "\u{2510}"@,
        ]);
    }
    let mut k: usize = 0;
    while k < rows.len()
        invariant
            k <= rows.len(),
            rv == rows_view(rows@),
            label_w == label_width(rv),
            value_w == value_width(rv),
            lines_view(lines@) =~= head + Seq::new(k as nat, |j: int| row_line(rv[j], label_w as int, value_w as int)),
        decreases rows.len() - k,
    {
        let label = rows[k].0;
        let value = rows[k].1.as_str();
        proof {
            lemma_label_width_bound(rv, k as int);
            lemma_value_width_bound(rv, k as int);
        }
        let mut padded = space_run(label_w - label.unicode_len());
        padded.append(label);
        let cyan_label = cyan(padded.as_str());
        let label_cell = bold(cyan_label.as_str());
        let mut line = String::from_str("\u{2502} ");
        line.append(label_cell.as_str());
        line.append("   ");
        line.append(value);
        let pad = space_run(value_w - visible_width(value));
        line.append(pad.as_str());
        line.append(" \u{2502}");
        proof {
            assert(rv[k as int] == (label@, value@));
            assert(line@ =~= row_line(rv[k as int], label_w as int, value_w as int));
        }
        let ghost before = lines_view(lines@);
        lines.push(line);
        proof {
            assert(lines_view(lines@) =~= before.push(row_line(rv[k as int], label_w as int, value_w as int)));
        }
        k = k + 1;
    }
    let mut bottom = String::from_str("\u{2514}");
    bottom.append(rule.as_str());
    bottom.append("\u{2518}");
    lines.push(bottom);
    if cached {
        let mut note = String::from_str("  ");
        let dim_note = dimmed("Cached data \u{b7} use --no-cache to fetch fresh");
        note.append(dim_note.as_str());
        lines.push(note);
    }
    lines.push(String::new());
    proof {
        let lw = label_width(rv);
        let vw = value_width(rv);
        let inner = 1 + lw + 3 + vw + 1;
        let body = Seq::new(rv.len(), |i: int| row_line(rv[i], lw, vw));
        assert(bottom@ =~= "\u{2514}"@ + repeat_char('\u{2500}', inner) + "\u{2518}"@);
        assert(Seq::new(rows.len() as nat, |j: int| row_line(rv[j], label_w as int, value_w as int)) =~= body);
    }
    assert(lines_view(lines@) =~= table_text(callsign@, name@, rv, cached));
    lines
}

pub proof fn lemma_label_width_bound(rows: Seq<(Seq<char>, Seq<char>)>, k: int)
    requires
        0 <= k < rows.len(),
    ensures
        rows[k].0.len() <= label_width(rows),
    decreases rows.len(),
{
    if k < rows.len() - 1 {
        lemma_label_width_bound(rows.drop_last(), k);
    }
}

pub proof fn lemma_value_width_bound(rows: Seq<(Seq<char>, Seq<char>)>, k: int)
    requires
        0 <= k < rows.len(),
    ensures
        visible_width_of(rows[k].1) <= value_width(rows),
    decreases rows.len(),
{
    if k < rows.len() - 1 {
        lemma_value_width_bound(rows.drop_last(), k);
    }
}

/// The pretty output of a record, the cache note as of time `now`.
pub fn pretty_lines_at(record: &CallsignRecord, use_links: bool, cached_at: Option<u64>, now: u64) -> (res: Vec<String>)
    ensures
        lines_view(res@) == table_text(record_callsign(record@), record@.display_name,
            table_rows(record@, use_links, cached_at, now), cached_at is Some),
{
    let rows = build_rows_at(record, use_links, cached_at, now);
    table_lines(record.callsign(), record.display_name.as_str(), &rows, cached_at.is_some())
}

/// The pretty output of a record, the cache note as of the system clock.
pub fn pretty_lines(record: &CallsignRecord, use_links: bool, cached_at: Option<u64>) -> (res: Vec<String>)
    ensures
        exists|now: u64| lines_view(res@) == table_text(record_callsign(record@), record@.display_name,
            #[trigger] table_rows(record@, use_links, cached_at, now), cached_at is Some),
{
    let now = crate::cache::now_secs();
    pretty_lines_at(record, use_links, cached_at, now)
}

} // verus!

verus! {

// ── Plain listing ────────────────────────────────────────────────────────────

pub open spec fn push_line_if(lines: Seq<Seq<char>>, cond: bool, line: Seq<char>) -> Seq<Seq<char>> {
    if cond { lines.push(line) } else { lines }
}

/// The `Callsign: …` lines of a record (the `--raw` output), down to the name.
pub open spec fn plain_head(r: RecordView) -> Seq<Seq<char>> {
    let l0: Seq<Seq<char>> = seq!["Callsign:    "@ + record_callsign(r), "Status:      "@ + r.license_status_label];
    let l1 = push_line_if(l0, r.license_type is Some, "Type:        "@ + text_or_empty(r.license_type));
    l1.push("Class:       "@ + class_label(r)).push("Name:        "@ + r.display_name)
}

/// The `--raw` output of a record, the cache note as of time `now`.
pub open spec fn plain_text(r: RecordView, cached_at: Option<u64>, now: u64) -> Seq<Seq<char>> {
    let trustee = nonempty_text(r.trustee_callsign);
    let l3 = push_line_if(plain_head(r), trustee is Some,
        "Trustee:     "@ + (text_or_empty(r.trustee_name) + " ("@ + text_or_empty(trustee) + ")"@));
    let l4 = push_line_if(l3, address_line(r.address) is Some, "Address:     "@ + text_or_empty(address_line(r.address)));
    let l5 = push_line_if(l4, city_line(r.address) is Some, "             "@ + text_or_empty(city_line(r.address)));
    let l6 = push_line_if(l5, nonempty_text(r.grant_date) is Some, "Granted:     "@ + text_or_empty(nonempty_text(r.grant_date)));
    let l7 = push_line_if(l6, nonempty_text(r.expired_date) is Some, "Expires:     "@ + text_or_empty(nonempty_text(r.expired_date)));
    let l8 = push_line_if(l7, nonempty_text(r.uls_url) is Some, "ULS URL:     "@ + text_or_empty(nonempty_text(r.uls_url)));
    push_line_if(l8, cached_at is Some, "Cached:      "@ + cache_info_text(cached_at.unwrap_or(0), TTL_SECS, now))
}

fn push_line(lines: &mut Vec<String>, prefix: &str, value: Option<&str>)
    ensures
        lines_view(final(lines)@) == push_line_if(lines_view(old(lines)@), value is Some, prefix@ + text_or_empty(ref_text(value))),
{
    match value {
        Some(v) => {
            let mut line = prefix.to_string();
            line.append(v);
            lines.push(line);
            assert(lines_view(lines@) =~= lines_view(old(lines)@).push(prefix@ + text_or_empty(ref_text(value))));
        },
        None => {},
    }
}

fn plain_head_lines(record: &CallsignRecord) -> (res: Vec<String>)
    ensures
        lines_view(res@) == plain_head(record@),
{
    let mut lines: Vec<String> = Vec::new();
    let mut l0 = String::from_str("Callsign:    ");
    l0.append(record.callsign());
    lines.push(l0);
    let mut l1 = String::from_str("Status:      ");
    l1.append(record.license_status_label.as_str());
    lines.push(l1);
    assert(lines_view(lines@) =~= seq!["Callsign:    "@ + record_callsign(record@), "Status:      "@ + record@.license_status_label]);
    let license_type = match &record.license_type {
        Some(t) => Some(t.as_str()),
        None => None,
    };
    push_line(&mut lines, "Type:        ", license_type);
    let ghost mid = lines_view(lines@);
    let mut class_line = String::from_str("Class:       ");
    class_line.append(record.license_class_label());
    lines.push(class_line);
    let mut name_line = String::from_str("Name:        ");
    name_line.append(record.display_name.as_str());
    lines.push(name_line);
    assert(lines_view(lines@) =~= mid.push("Class:       "@ + class_label(record@)).push("Name:        "@ + record@.display_name));
    lines
}

/// The `--raw` output of a record, the cache note as of time `now`.
pub fn plain_lines_at(record: &CallsignRecord, cached_at: Option<u64>, now: u64) -> (res: Vec<String>)
    ensures
        lines_view(res@) == plain_text(record@, cached_at, now),
{
    let mut lines = plain_head_lines(record);
    let trustee = match present(&record.trustee_callsign) {
        Some(tc) => {
            let mut v = match &record.trustee_name {
                Some(n) => n.clone(),
                None => String::new(),
            };
            v.append(" (");
            v.append(tc);
            v.append(")");
            Some(v)
        },
        None => None,
    };
    let trustee_text = match &trustee {
        Some(v) => Some(v.as_str()),
        None => None,
    };
    let ghost r = record@;
    let ghost tc = nonempty_text(r.trustee_callsign);
    assert(ref_text(trustee_text) == (if tc is Some {
        Some(text_or_empty(r.trustee_name) + " ("@ + text_or_empty(tc) + ")"@)
    } else {
        None
    }));
    push_line(&mut lines, "Trustee:     ", trustee_text);
    push_line(&mut lines, "Address:     ", address_line_of(&record.address));
    let city = format_city_line(&record.address);
    let city_text = match &city {
        Some(c) => Some(c.as_str()),
        None => None,
    };
    assert(ref_text(city_text) == city_line(r.address));
    push_line(&mut lines, "             ", city_text);
    push_line(&mut lines, "Granted:     ", present(&record.grant_date));
    push_line(&mut lines, "Expires:     ", present(&record.expired_date));
    push_line(&mut lines, "ULS URL:     ", present(&record.uls_url));
    let ghost l8 = lines_view(lines@);
    let note = match cached_at {
        Some(ca) => Some(cache_info_label_at(ca, TTL_SECS, now)),
        None => None,
    };
    let note_text = match &note {
        Some(n) => Some(n.as_str()),
        None => None,
    };
    assert(ref_text(note_text) == (if cached_at is Some {
        Some(cache_info_text(cached_at.unwrap_or(0), TTL_SECS, now))
    } else {
        None
    }));
    push_line(&mut lines, "Cached:      ", note_text);
    assert(lines_view(lines@) == push_line_if(l8, cached_at is Some,
        "Cached:      "@ + cache_info_text(cached_at.unwrap_or(0), TTL_SECS, now)));
    lines
}

/// The `--raw` output of a record, the cache note as of the system clock.
pub fn plain_lines(record: &CallsignRecord, cached_at: Option<u64>) -> (res: Vec<String>)
    ensures
        exists|now: u64| #[trigger] plain_text(record@, cached_at, now) == lines_view(res@),
{
    let now = crate::cache::now_secs();
    plain_lines_at(record, cached_at, now)
}

// ── History ──────────────────────────────────────────────────────────────────

pub open spec fn events_view(events: Seq<(u64, String)>) -> Seq<(u64, Seq<char>)> {
    events.map_values(|e: (u64, String)| (e.0, e.1@))
}

/// `live` (bright green) for a lookup answered by the API, `cached` (dim)
/// otherwise.
pub open spec fn source_label(source: Seq<char>) -> Seq<char> {
    if source == "api"@ { fg_text(bright_green_code(), "live  "@) } else { dimmed_text("cached"@) }
}

/// One lookup event: its date and time, its source, how long ago.
pub open spec fn history_line(e: (u64, Seq<char>), now: u64) -> Seq<char> {
    "  "@ + dimmed_text(unix_date_text(e.0) + " "@ + unix_time_text(e.0)) + "   "@ + source_label(e.1)
        + "   "@ + dimmed_text(age_text(age_at(e.0, now)))
}

/// The history of a callsign: its name and lookup count, then one line per
/// event (or a note that there are none), between blank lines.
pub open spec fn history_text(callsign: Seq<char>, events: Seq<(u64, Seq<char>)>, now: u64) -> Seq<Seq<char>> {
    let count = events.len();
    let head = seq![
        Seq::<char>::empty(),
        fg_text(bright_cyan_code(), bold_text(callsign)) + " "@
            + dimmed_text("\u{b7} "@ + dec(count) + " "@ + (if count == 1 { "lookup"@ } else { "lookups"@ })),
    ];
    if count == 0 {
        head + seq!["  "@ + dimmed_text("No lookup history found."@), Seq::<char>::empty()]
    } else {
        head + seq![Seq::<char>::empty()] + Seq::new(count, |i: int| history_line(events[i], now)) + seq![Seq::<char>::empty()]
    }
}

fn history_event_line(ts: u64, source: &str, now: u64) -> (res: String)
    ensures
        res@ == history_line((ts, source@), now),
{
    let mut when = unix_to_date(ts);
    when.append(" ");
    let time = unix_to_time(ts);
    when.append(time.as_str());
    let dim_when = dimmed(when.as_str());
    let label = if str_eq(source, "api") { bright_green("live  ") } else { dimmed("cached") };
    let age = age_words(now.saturating_sub(ts));
    let dim_age = dimmed(age.as_str());
    let mut line = String::from_str("  ");
    line.append(dim_when.as_str());
    line.append("   ");
    line.append(label.as_str());
    line.append("   ");
    line.append(dim_age.as_str());
    line
}

/// The lookup history of `callsign`, ages as of time `now`.
pub fn history_lines_at(callsign: &str, events: &[(u64, String)], now: u64) -> (res: Vec<String>)
    ensures
        lines_view(res@) == history_text(callsign@, events_view(events@), now),
{
    let ghost ev = events_view(events@);
    let count = events.len();
    let mut lines: Vec<String> = Vec::new();
    lines.push(String::new());
    let styled_callsign = bold(callsign);
    let mut header = bright_cyan(styled_callsign.as_str());
    header.append(" ");
    let mut caption = String::from_str("\u{b7} ");
    let count_text = decimal_string(count as u64);
    caption.append(count_text.as_str());
    caption.append(" ");
    caption.append(if count == 1 { "lookup" } else { "lookups" });
    let dim_caption = dimmed(caption.as_str());
    header.append(dim_caption.as_str());
    let ghost plural = if count == 1 { "lookup"@ } else { "lookups"@ };
    assert(caption@ =~= "\u{b7} "@ + dec(ev.len()) + " "@ + plural);
    assert(header@ =~= fg_text(bright_cyan_code(), bold_text(callsign@)) + " "@ + dimmed_text(
        "\u{b7} "@ + dec(ev.len()) + " "@ + plural));
    lines.push(header);
    if count == 0 {
        let mut note = String::from_str("  ");
        let dim_note = dimmed("No lookup history found.");
        note.append(dim_note.as_str());
        lines.push(note);
        lines.push(String::new());
        assert(lines_view(lines@) =~= history_text(callsign@, ev, now));
        return lines;
    }
    lines.push(String::new());
    let ghost head = lines_view(lines@);
    let ghost whole = history_text(callsign@, ev, now);
    assert(ev.len() == count);
    let ghost hdr = fg_text(bright_cyan_code(), bold_text(callsign@)) + " "@
        + dimmed_text("\u{b7} "@ + dec(ev.len()) + " "@ + (if ev.len() == 1 { "lookup"@ } else { "lookups"@ }));
    assert(head =~= seq![Seq::<char>::empty(), hdr] + seq![Seq::<char>::empty()]);
    let mut i: usize = 0;
    while i < count
        invariant
            count == events@.len(),
            ev == events_view(events@),
            ev.len() == count,
            i <= count,
            lines_view(lines@) =~= head + Seq::new(i as nat, |j: int| history_line(ev[j], now)),
        decreases count - i,
    {
        let line = history_event_line(events[i].0, events[i].1.as_str(), now);
        let ghost before = lines_view(lines@);
        lines.push(line);
        assert(lines_view(lines@) =~= before.push(history_line(ev[i as int], now)));
        i = i + 1;
    }
    lines.push(String::new());
    let ghost body = Seq::new(ev.len(), |j: int| history_line(ev[j], now));
    assert(Seq::new(count as nat, |j: int| history_line(ev[j], now)) =~= body);
    assert(whole == seq![Seq::<char>::empty(), hdr] + seq![Seq::<char>::empty()] + body + seq![Seq::<char>::empty()]);
    assert(lines_view(lines@) =~= head + body + seq![Seq::<char>::empty()]);
    lines
}

/// The lookup history of `callsign`, ages as of the system clock.
pub fn history_lines(callsign: &str, events: &[(u64, String)]) -> (res: Vec<String>)
    ensures
        exists|now: u64| #[trigger] history_text(callsign@, events_view(events@), now) == lines_view(res@),
{
    let now = crate::cache::now_secs();
    history_lines_at(callsign, events, now)
}

/// One lookup event in plain text.
pub open spec fn plain_history_line(e: (u64, Seq<char>), now: u64) -> Seq<char> {
    unix_date_text(e.0) + " "@ + unix_time_text(e.0) + "  "@ + e.1 + "  "@ + age_text(age_at(e.0, now))
}

/// The history of a callsign as plain text, for scripts.
pub open spec fn history_plain_text(callsign: Seq<char>, events: Seq<(u64, Seq<char>)>, now: u64) -> Seq<Seq<char>> {
    seq!["Callsign: "@ + callsign, "Lookups:  "@ + dec(events.len())]
        + Seq::new(events.len(), |i: int| plain_history_line(events[i], now))
}

/// The lookup history of `callsign` as plain text, ages as of time `now`.
pub fn history_plain_lines_at(callsign: &str, events: &[(u64, String)], now: u64) -> (res: Vec<String>)
    ensures
        lines_view(res@) == history_plain_text(callsign@, events_view(events@), now),
{
    let ghost ev = events_view(events@);
    let count = events.len();
    let mut lines: Vec<String> = Vec::new();
    let mut l0 = String::from_str("Callsign: ");
    l0.append(callsign);
    lines.push(l0);
    let mut l1 = String::from_str("Lookups:  ");
    let count_text = decimal_string(count as u64);
    l1.append(count_text.as_str());
    lines.push(l1);
    let ghost head = lines_view(lines@);
    let mut i: usize = 0;
    while i < count
        invariant
            count == events@.len(),
            ev == events_view(events@),
            i <= count,
            lines_view(lines@) =~= head + Seq::new(i as nat, |j: int| plain_history_line(ev[j], now)),
        decreases count - i,
    {
        let ts = events[i].0;
        let mut line = unix_to_date(ts);
        line.append(" ");
        let time = unix_to_time(ts);
        line.append(time.as_str());
        line.append("  ");
        line.append(events[i].1.as_str());
        line.append("  ");
        let age = age_words(now.saturating_sub(ts));
        line.append(age.as_str());
        let ghost before = lines_view(lines@);
        lines.push(line);
        assert(lines_view(lines@) =~= before.push(plain_history_line(ev[i as int], now)));
        i = i + 1;
    }
    assert(lines_view(lines@) =~= history_plain_text(callsign@, ev, now));
    lines
}

/// The lookup history of `callsign` as plain text, ages as of the system clock.
pub fn history_plain_lines(callsign: &str, events: &[(u64, String)]) -> (res: Vec<String>)
    ensures
        exists|now: u64| #[trigger] history_plain_text(callsign@, events_view(events@), now) == lines_view(res@),
{
    let now = crate::cache::now_secs();
    history_plain_lines_at(callsign, events, now)
}

// ── Errors ───────────────────────────────────────────────────────────────────

/// The note shown when a lookup fails (printed to stderr with a newline).
pub open spec fn error_note(callsign: Seq<char>, message: Seq<char>) -> Seq<char> {
    "\n  "@ + bold_text(fg_text(bright_red_code(), "\u{2717}"@)) + " "@ + bold_text("Could not look up "@ + callsign)
        + "\n  "@ + dimmed_text(message) + "\n"@
}

/// The note shown when looking up `callsign` failed with `message`.
pub fn error_text(callsign: &str, message: &str) -> (res: String)
    ensures
        res@ == error_note(callsign@, message@),
{
    let mark = bright_red("\u{2717}");
    let bold_mark = bold(mark.as_str());
    let mut heading = String::from_str("Could not look up ");
    heading.append(callsign);
    let bold_heading = bold(heading.as_str());
    let dim_message = dimmed(message);
    let mut res = String::from_str("\n  ");
    res.append(bold_mark.as_str());
    res.append(" ");
    res.append(bold_heading.as_str());
    res.append("\n  ");
    res.append(dim_message.as_str());
    res.append("\n");
    res
}

} // verus!
