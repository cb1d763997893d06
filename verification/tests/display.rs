use callrx::api::{AddressInfo, CallsignRecord};
use callrx::cache::TTL_SECS;
use callrx::display::{
    age_words, build_rows_at, cache_info_label, cache_info_label_at, error_text, format_city_line,
    history_lines_at, history_plain_lines_at, plain_lines_at, pretty_lines_at, table_lines, ttl_words,
    unix_to_date, unix_to_time, visible_width,
};
use std::time::{SystemTime, UNIX_EPOCH};

fn bold(s: &str) -> String {
    format!("\x1b[1m{s}\x1b[0m")
}

fn dim(s: &str) -> String {
    format!("\x1b[2m{s}\x1b[0m")
}

fn fg(code: &str, s: &str) -> String {
    format!("\x1b[{code}m{s}\x1b[39m")
}

// ── visible_width ────────────────────────────────────────────────────────────

#[test]
fn plain_text_width_is_char_count() {
    assert_eq!(visible_width("W1AW"), 4);
    assert_eq!(visible_width(""), 0);
}

#[test]
fn ansi_color_codes_are_not_counted() {
    let styled = "\x1b[1m\x1b[96mW1AW\x1b[39m\x1b[0m";
    assert_eq!(visible_width(styled), 4);
}

#[test]
fn osc8_hyperlink_counts_only_visible_label() {
    let link = "\x1b]8;;https://example.com/very/long/path\x1b\\click\x1b]8;;\x1b\\";
    assert_eq!(visible_width(link), "click".len());
}

#[test]
fn osc_terminated_by_bel_counts_nothing() {
    assert_eq!(visible_width("\x1b]8;;http://x\x07ab\x1b]8;;\x07"), 2);
    assert_eq!(visible_width("ü→✓"), 3);
    assert_eq!(visible_width("a\x1bb"), 2);
}

// ── unix_to_date ─────────────────────────────────────────────────────────────

#[test]
fn unix_epoch_is_1970_01_01() {
    assert_eq!(unix_to_date(0), "1970-01-01");
}

#[test]
fn known_timestamp_round_trips() {
    assert_eq!(unix_to_date(1_000_000_000), "2001-09-09");
}

#[test]
fn leap_year_feb_29_is_correct() {
    assert_eq!(unix_to_date(951_782_400), "2000-02-29");
}

#[test]
fn non_leap_year_mar_1_is_correct() {
    assert_eq!(unix_to_date(983_404_800), "2001-03-01");
}

#[test]
fn year_boundary_new_year() {
    assert_eq!(unix_to_date(1_767_225_600), "2026-01-01");
}

#[test]
fn century_non_leap_and_far_dates() {
    // 2100-03-01 00:00:00 UTC: 2100 is not a leap year.
    assert_eq!(unix_to_date(4_107_542_400), "2100-03-01");
    assert_eq!(unix_to_date(4_107_542_399), "2100-02-28");
    assert_eq!(unix_to_date(u64::MAX), "584554051223-11-09");
}

// ── age_words / ttl_words ────────────────────────────────────────────────────

#[test]
fn age_words_just_now() {
    assert_eq!(age_words(30), "just now");
    assert_eq!(age_words(119), "just now");
}

#[test]
fn age_words_minutes() {
    assert_eq!(age_words(300), "5 min ago");
    assert_eq!(age_words(3599), "59 min ago");
}

#[test]
fn age_words_hours() {
    assert_eq!(age_words(3_600), "1 hr ago");
    assert_eq!(age_words(7_200), "2 hr ago");
}

#[test]
fn age_words_days() {
    assert_eq!(age_words(172_800), "2 days ago");
    assert_eq!(age_words(7 * 86_400), "7 days ago");
}

#[test]
fn age_words_boundaries() {
    assert_eq!(age_words(120), "2 min ago");
    assert_eq!(age_words(172_799), "47 hr ago");
}

#[test]
fn ttl_words_minutes() {
    assert_eq!(ttl_words(1_800), "30 min");
}

#[test]
fn ttl_words_hours() {
    assert_eq!(ttl_words(7_200), "2 hr");
}

#[test]
fn ttl_words_days() {
    assert_eq!(ttl_words(4 * 86_400), "4 days");
}

#[test]
fn ttl_words_boundaries() {
    assert_eq!(ttl_words(0), "0 min");
    assert_eq!(ttl_words(3_599), "59 min");
    assert_eq!(ttl_words(172_800), "2 days");
}

// ── cache_info_label ─────────────────────────────────────────────────────────

#[test]
fn cache_info_label_contains_date_and_age_and_expiry() {
    let now = SystemTime::now().duration_since(UNIX_EPOCH).unwrap().as_secs();
    let cached_3_days_ago = now - 3 * 86_400;
    let ttl = 7 * 24 * 3_600;

    let label = cache_info_label(cached_3_days_ago, ttl);
    assert!(label.contains("3 days ago"), "label: {label}");
    assert!(label.contains("4 days"), "label: {label}");
    assert!(label.contains('-'), "label should contain date: {label}");
}

#[test]
fn cache_info_label_at_is_exact() {
    let label = cache_info_label_at(1_000_000_000, TTL_SECS, 1_000_000_000 + 3 * 86_400);
    assert_eq!(label, "2001-09-09 · fetched 3 days ago · refreshes in 4 days");
    let stale = cache_info_label_at(1_000_000_000, TTL_SECS, 1_000_000_000 + 8 * 86_400);
    assert_eq!(stale, "2001-09-09 · fetched 8 days ago · refreshes in 0 min");
    let future = cache_info_label_at(2_000, 60, 1_000);
    assert_eq!(future, "1970-01-01 · fetched just now · refreshes in 1 min");
}

// ── unix_to_time ─────────────────────────────────────────────────────────────

#[test]
fn unix_to_time_midnight() {
    assert_eq!(unix_to_time(0), "00:00");
    assert_eq!(unix_to_time(86_400), "00:00");
}

#[test]
fn unix_to_time_noon() {
    assert_eq!(unix_to_time(43_200), "12:00");
}

#[test]
fn unix_to_time_end_of_day() {
    assert_eq!(unix_to_time(86_340), "23:59");
}

#[test]
fn unix_to_time_known_timestamp() {
    assert_eq!(unix_to_time(1_000_000_000), "01:46");
}

#[test]
fn cache_info_label_shows_correct_date() {
    let label = cache_info_label(1_000_000_000, 7 * 86_400);
    assert!(label.starts_with("2001-09-09"), "label should start with date: {label}");
}

// ── Addresses ────────────────────────────────────────────────────────────────

fn address(street: Option<&str>, city: Option<&str>, state: Option<&str>, zip: Option<&str>, po: Option<&str>) -> AddressInfo {
    AddressInfo {
        street: street.map(str::to_string),
        city: city.map(str::to_string),
        state: state.map(str::to_string),
        zip_code: zip.map(str::to_string),
        po_box: po.map(str::to_string),
    }
}

#[test]
fn city_line_joins_trimmed_parts() {
    let a = address(None, Some(" NEWINGTON "), Some("CT"), Some("06111"), None);
    assert_eq!(format_city_line(&a).as_deref(), Some("NEWINGTON, CT 06111"));
    let a = address(None, None, Some("CT"), Some("06111"), None);
    assert_eq!(format_city_line(&a).as_deref(), Some("CT 06111"));
    let a = address(None, Some("NEWINGTON"), Some("  "), None, None);
    assert_eq!(format_city_line(&a).as_deref(), Some("NEWINGTON"));
    let a = address(None, None, None, Some("06111"), None);
    assert_eq!(format_city_line(&a).as_deref(), Some("06111"));
}

#[test]
fn city_line_absent_when_blank() {
    assert_eq!(format_city_line(&AddressInfo::default()), None);
    let a = address(Some("225 MAIN ST"), Some(" "), Some(""), Some("\t"), None);
    assert_eq!(format_city_line(&a), None);
}

// ── Pretty table ─────────────────────────────────────────────────────────────

fn w1aw() -> CallsignRecord {
    CallsignRecord {
        call_sign: Some("W1AW".to_string()),
        display_name: "ARRL HQ OPERATORS CLUB".to_string(),
        license_type: Some("Club".to_string()),
        license_status: "A".to_string(),
        license_status_label: "Active".to_string(),
        trustee_callsign: Some("K1ZZ".to_string()),
        trustee_name: Some("SUMNER, DAVID G".to_string()),
        previous_callsign: Some(String::new()),
        address: address(Some("225 MAIN ST"), Some("NEWINGTON"), Some("CT"), Some("06111"), None),
        grant_date: Some("2020-01-01".to_string()),
        expired_date: Some("2030-01-01".to_string()),
        frn: Some("0004511143".to_string()),
        uls_url: Some("https://x/1".to_string()),
        ..Default::default()
    }
}

#[test]
fn build_rows_lists_present_fields_in_order() {
    let rows = build_rows_at(&w1aw(), true, None, 0);
    let labels: Vec<&str> = rows.iter().map(|(l, _)| *l).collect();
    assert_eq!(labels, vec!["Status", "Type", "Trustee", "Address", "", "Granted", "Expires", "FRN", "ULS Record"]);
    assert_eq!(rows[0].1, bold(&fg("92", "✓ Active")));
    assert_eq!(rows[1].1, "Club");
    assert_eq!(rows[2].1, format!("{} — SUMNER, DAVID G", bold(&fg("96", "K1ZZ"))));
    assert_eq!(rows[3].1, "225 MAIN ST");
    assert_eq!(rows[4].1, "NEWINGTON, CT 06111");
    assert_eq!(rows[6].1, fg("92", "2030-01-01"));
    assert_eq!(rows[7].1, dim("0004511143"));
    assert_eq!(rows[8].1, "\x1b]8;;https://x/1\x1b\\https://x/1\x1b]8;;\x1b\\");
}

#[test]
fn build_rows_marks_expired_and_classes() {
    let mut rec = w1aw();
    rec.license_status = "E".to_string();
    rec.license_status_label = "Expired".to_string();
    rec.operator_class_label = Some("Amateur Extra".to_string());
    rec.license_type = None;
    let rows = build_rows_at(&rec, false, Some(1_000_000_000), 1_000_000_000 + 3 * 86_400);
    assert_eq!(rows[0], ("Status", bold(&fg("91", "✗ Expired"))));
    assert_eq!(rows[1], ("Type", "Individual".to_string()));
    assert_eq!(rows[2], ("Class", bold(&fg("95", "Amateur Extra"))));
    let expires = rows.iter().find(|(l, _)| *l == "Expires").unwrap();
    assert_eq!(expires.1, fg("91", "2030-01-01"));
    let uls = rows.iter().find(|(l, _)| *l == "ULS Record").unwrap();
    assert_eq!(uls.1, "https://x/1");
    let last = rows.last().unwrap();
    assert_eq!(last.0, "Cached");
    assert_eq!(last.1, dim("2001-09-09 · fetched 3 days ago · refreshes in 4 days"));
}

#[test]
fn other_status_gets_warning_marker() {
    let mut rec = w1aw();
    rec.license_status = "T".to_string();
    rec.license_status_label = "Terminated".to_string();
    rec.operator_class_label = Some("Novice".to_string());
    let rows = build_rows_at(&rec, false, None, 0);
    assert_eq!(rows[0].1, bold(&fg("93", "⚠ Terminated")));
    assert_eq!(rows[2], ("Class", fg("33", "Novice")));
}

#[test]
fn table_is_sized_to_its_content() {
    let rows = vec![("Status", "ok".to_string()), ("Type", fg("92", "Club"))];
    let lines = table_lines("W1AW", "ARRL", &rows, true);
    assert_eq!(lines.len(), 8);
    assert_eq!(lines[0], "");
    assert_eq!(lines[1], format!("{} {}", fg("96", &bold("W1AW")), dim("· ARRL")));
    // " " + label(6) + "   " + value(4) + " "
    assert_eq!(lines[2], format!("┌{}┐", "─".repeat(15)));
    assert_eq!(lines[3], format!("│ {}   ok   │", bold(&fg("36", "Status"))));
    assert_eq!(lines[4], format!("│ {}   {} │", bold(&fg("36", "  Type")), fg("92", "Club")));
    assert_eq!(lines[5], format!("└{}┘", "─".repeat(15)));
    assert_eq!(lines[6], format!("  {}", dim("Cached data · use --no-cache to fetch fresh")));
    assert_eq!(lines[7], "");
}

#[test]
fn pretty_output_frames_the_rows() {
    let lines = pretty_lines_at(&w1aw(), false, None, 0);
    assert_eq!(lines[0], "");
    assert!(lines[1].contains("W1AW"));
    assert!(lines[2].starts_with('┌'));
    let n = lines.len();
    assert_eq!(lines[n - 1], "");
    assert!(lines[n - 2].starts_with('└'));
    let widths: Vec<usize> = lines[2..n - 1].iter().map(|l| visible_width(l)).collect();
    assert!(widths.iter().all(|w| *w == widths[0]), "{widths:?}");
}

// ── Plain output ─────────────────────────────────────────────────────────────

#[test]
fn plain_lines_list_the_record() {
    let lines = plain_lines_at(&w1aw(), Some(1_000_000_000), 1_000_000_000 + 3 * 86_400);
    assert_eq!(
        lines,
        vec![
            "Callsign:    W1AW",
            "Status:      Active",
            "Type:        Club",
            "Class:       —",
            "Name:        ARRL HQ OPERATORS CLUB",
            "Trustee:     SUMNER, DAVID G (K1ZZ)",
            "Address:     225 MAIN ST",
            "             NEWINGTON, CT 06111",
            "Granted:     2020-01-01",
            "Expires:     2030-01-01",
            "ULS URL:     https://x/1",
            "Cached:      2001-09-09 · fetched 3 days ago · refreshes in 4 days",
        ]
    );
}

#[test]
fn plain_lines_skip_missing_fields() {
    let rec = CallsignRecord {
        display_name: "MINIMAL".to_string(),
        license_status: "A".to_string(),
        license_status_label: "Active".to_string(),
        address: address(Some(""), None, None, None, Some("PO BOX 1")),
        ..Default::default()
    };
    let lines = plain_lines_at(&rec, None, 0);
    assert_eq!(
        lines,
        vec!["Callsign:    —", "Status:      Active", "Class:       —", "Name:        MINIMAL"]
    );
}

// ── History ──────────────────────────────────────────────────────────────────

#[test]
fn history_lists_events_with_source_and_age() {
    let events = vec![(1_000_086_400u64, "api".to_string()), (1_000_000_000u64, "cache".to_string())];
    let now = 1_000_086_400 + 30;
    let lines = history_lines_at("W1AW", &events, now);
    assert_eq!(lines.len(), 6);
    assert_eq!(lines[0], "");
    assert_eq!(lines[1], format!("{} {}", fg("96", &bold("W1AW")), dim("· 2 lookups")));
    assert_eq!(lines[2], "");
    assert_eq!(lines[3], format!("  {}   {}   {}", dim("2001-09-10 01:46"), fg("92", "live  "), dim("just now")));
    assert_eq!(lines[4], format!("  {}   {}   {}", dim("2001-09-09 01:46"), dim("cached"), dim("24 hr ago")));
    assert_eq!(lines[5], "");
}

#[test]
fn empty_history_says_so() {
    let lines = history_lines_at("KD9ABC", &[], 0);
    assert_eq!(
        lines,
        vec![
            String::new(),
            format!("{} {}", fg("96", &bold("KD9ABC")), dim("· 0 lookups")),
            format!("  {}", dim("No lookup history found.")),
            String::new(),
        ]
    );
    let one = history_lines_at("KD9ABC", &[(0, "api".to_string())], 0);
    assert_eq!(one[1], format!("{} {}", fg("96", &bold("KD9ABC")), dim("· 1 lookup")));
}

#[test]
fn plain_history_for_scripts() {
    let events = vec![(1_000_000_000u64, "cache".to_string())];
    let lines = history_plain_lines_at("W1AW", &events, 1_000_000_000 + 600);
    assert_eq!(lines, vec!["Callsign: W1AW", "Lookups:  1", "2001-09-09 01:46  cache  10 min ago"]);
    let none = history_plain_lines_at("W1AW", &[], 0);
    assert_eq!(none, vec!["Callsign: W1AW", "Lookups:  0"]);
}

// ── Errors ───────────────────────────────────────────────────────────────────

#[test]
fn error_note_names_the_callsign() {
    let text = error_text("W1AW", "Network error: timed out");
    assert_eq!(
        text,
        format!("\n  {} {}\n  {}\n", bold(&fg("91", "✗")), bold("Could not look up W1AW"), dim("Network error: timed out"))
    );
}

#[test]
fn class_cells_are_colored_by_class() {
    let class_cell = |label: &str| {
        let mut rec = w1aw();
        rec.operator_class_label = Some(label.to_string());
        build_rows_at(&rec, false, None, 0)[2].clone()
    };
    assert_eq!(class_cell("Advanced"), ("Class", bold(&fg("94", "Advanced"))));
    assert_eq!(class_cell("General"), ("Class", fg("96", "General")));
    assert_eq!(class_cell("Technician"), ("Class", fg("92", "Technician")));
    assert_eq!(class_cell("Club Station"), ("Class", "Club Station".to_string()));
}
