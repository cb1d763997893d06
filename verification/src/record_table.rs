//! What each row of the record table shows, stated from the record's own
//! fields: which rows appear, what each holds, and in which order.

use vstd::prelude::*;
use crate::api::{AddressView, RecordView};
use crate::text::trimmed;
use crate::cache::{TTL_SECS, nonempty_text, text_or_empty};
use crate::display::{
    cache_info_text, city_line, class_value, detail_rows, identity_rows, push_if, table_rows,
};
use crate::hyperlink::link_text;
use crate::style::{bold_text, bright_cyan_code, bright_green_code, bright_red_code, bright_yellow_code, dimmed_text, fg_text};

verus! {

/// The values of the rows labelled `label`, in table order.
pub open spec fn values_labelled(rows: Seq<(Seq<char>, Seq<char>)>, label: Seq<char>) -> Seq<Seq<char>>
    decreases rows.len(),
{
    if rows.len() == 0 {
        Seq::empty()
    } else {
        let rest = values_labelled(rows.drop_last(), label);
        if rows.last().0 == label { rest.push(rows.last().1) } else { rest }
    }
}

/// `v` alone when `shown`, else nothing.
pub open spec fn shown_if(shown: bool, v: Seq<char>) -> Seq<Seq<char>> {
    if shown { seq![v] } else { Seq::empty() }
}

/// An optional field that is present and not blank.
pub open spec fn filled(o: Option<Seq<char>>) -> bool {
    o is Some && o->0.len() > 0
}

/// Where a label stands in the table, top to bottom.
pub open spec fn label_rank(label: Seq<char>) -> int {
    if label == "Status"@ { 0 }
    else if label == "Type"@ { 1 }
    else if label == "Class"@ { 2 }
    else if label == "Trustee"@ { 3 }
    else if label == "Previous"@ { 4 }
    else if label == "Address"@ { 5 }
    else if label == Seq::<char>::empty() { 6 }
    else if label == "Granted"@ { 7 }
    else if label == "Expires"@ { 8 }
    else if label == "Last Action"@ { 9 }
    else if label == "FRN"@ { 10 }
    else if label == "ULS Record"@ { 11 }
    else if label == "Cached"@ { 12 }
    else { 13 }
}

/// Rows whose labels stand in table order, each before position `bound`.
pub open spec fn ordered_below(rows: Seq<(Seq<char>, Seq<char>)>, bound: int) -> bool {
    &&& forall|i: int| 0 <= i < rows.len() ==> label_rank(#[trigger] rows[i].0) < bound
    &&& forall|i: int, j: int| 0 <= i < j < rows.len() ==> label_rank(#[trigger] rows[i].0) < label_rank(#[trigger] rows[j].0)
}

proof fn lemma_values_push_if(rows: Seq<(Seq<char>, Seq<char>)>, cond: bool, l: Seq<char>, v: Seq<char>, label: Seq<char>)
    ensures
        values_labelled(push_if(rows, cond, l, v), label)
            == values_labelled(rows, label) + shown_if(cond && l == label, v),
{
    if cond {
        assert(rows.push((l, v)).drop_last() =~= rows);
    }
    assert(values_labelled(rows, label) + Seq::<Seq<char>>::empty() =~= values_labelled(rows, label));
}

proof fn lemma_ordered_push_if(rows: Seq<(Seq<char>, Seq<char>)>, bound: int, cond: bool, l: Seq<char>, v: Seq<char>)
    requires
        ordered_below(rows, bound),
        label_rank(l) >= bound,
    ensures
        ordered_below(push_if(rows, cond, l, v), label_rank(l) + 1),
{
    if cond {
        let pushed = rows.push((l, v));
        assert forall|i: int| 0 <= i < pushed.len() implies label_rank(#[trigger] pushed[i].0) < label_rank(l) + 1 by {
            if i < rows.len() {
                assert(pushed[i] == rows[i]);
            }
        }
        assert forall|i: int, j: int| 0 <= i < j < pushed.len() implies label_rank(#[trigger] pushed[i].0) < label_rank(#[trigger] pushed[j].0) by {
            assert(pushed[i] == rows[i]);
            if j < rows.len() {
                assert(pushed[j] == rows[j]);
            }
        }
    }
}

proof fn lemma_labels()
    ensures
        label_rank("Status"@) == 0,
        label_rank("Type"@) == 1,
        label_rank("Class"@) == 2,
        label_rank("Trustee"@) == 3,
        label_rank("Previous"@) == 4,
        label_rank("Address"@) == 5,
        label_rank(Seq::<char>::empty()) == 6,
        label_rank("Granted"@) == 7,
        label_rank("Expires"@) == 8,
        label_rank("Last Action"@) == 9,
        label_rank("FRN"@) == 10,
        label_rank("ULS Record"@) == 11,
        label_rank("Cached"@) == 12,
{
    reveal_strlit("Status");
    reveal_strlit("Type");
    reveal_strlit("Class");
    reveal_strlit("Trustee");
    reveal_strlit("Previous");
    reveal_strlit("Address");
    reveal_strlit("Granted");
    reveal_strlit("Expires");
    reveal_strlit("Last Action");
    reveal_strlit("FRN");
    reveal_strlit("ULS Record");
    reveal_strlit("Cached");
    let labels = seq!["Status"@, "Type"@, "Class"@, "Trustee"@, "Previous"@, "Address"@, Seq::<char>::empty(),
        "Granted"@, "Expires"@, "Last Action"@, "FRN"@, "ULS Record"@, "Cached"@];
    assert forall|a: int, b: int| 0 <= a < b < 13 implies labels[a] != labels[b] by {
        if labels[a].len() == labels[b].len() && labels[a].len() > 0 {
            assert(labels[a][0] != labels[b][0]);
        }
    }
    assert(labels[0] == "Status"@);
    assert(labels[1] == "Type"@);
    assert(labels[2] == "Class"@);
    assert(labels[3] == "Trustee"@);
    assert(labels[4] == "Previous"@);
    assert(labels[5] == "Address"@);
    assert(labels[6] == Seq::<char>::empty());
    assert(labels[7] == "Granted"@);
    assert(labels[8] == "Expires"@);
    assert(labels[9] == "Last Action"@);
    assert(labels[10] == "FRN"@);
    assert(labels[11] == "ULS Record"@);
    assert(labels[12] == "Cached"@);
}

/// The values of the table's rows for `label`, one step per possible row.
proof fn lemma_table_values(r: RecordView, use_links: bool, cached_at: Option<u64>, now: u64, label: Seq<char>)
    ensures
        values_labelled(table_rows(r, use_links, cached_at, now), label) == {
            let d = detail_rows(r, identity_rows(r));
            let base = identity_rows(r);
            values_labelled(base, label)
                + shown_if(crate::display::address_line(r.address) is Some && "Address"@ == label, text_or_empty(crate::display::address_line(r.address)))
                + shown_if(city_line(r.address) is Some && Seq::<char>::empty() == label, text_or_empty(city_line(r.address)))
                + shown_if(nonempty_text(r.grant_date) is Some && "Granted"@ == label, text_or_empty(nonempty_text(r.grant_date)))
                + shown_if(nonempty_text(r.expired_date) is Some && "Expires"@ == label, crate::display::expires_value(r))
                + shown_if(nonempty_text(r.last_action_date) is Some && "Last Action"@ == label, dimmed_text(text_or_empty(nonempty_text(r.last_action_date))))
                + shown_if(nonempty_text(r.frn) is Some && "FRN"@ == label, dimmed_text(text_or_empty(nonempty_text(r.frn))))
                + shown_if(nonempty_text(r.uls_url) is Some && "ULS Record"@ == label, crate::display::uls_value(r, use_links))
                + shown_if(cached_at is Some && "Cached"@ == label, dimmed_text(cache_info_text(cached_at.unwrap_or(0), TTL_SECS, now)))
        },
{
    let a = r.address;
    let r3 = identity_rows(r);
    let r4 = push_if(r3, crate::display::address_line(a) is Some, "Address"@, text_or_empty(crate::display::address_line(a)));
    let r5 = push_if(r4, city_line(a) is Some, Seq::empty(), text_or_empty(city_line(a)));
    let r6 = push_if(r5, nonempty_text(r.grant_date) is Some, "Granted"@, text_or_empty(nonempty_text(r.grant_date)));
    let r7 = push_if(r6, nonempty_text(r.expired_date) is Some, "Expires"@, crate::display::expires_value(r));
    let r8 = push_if(r7, nonempty_text(r.last_action_date) is Some, "Last Action"@, dimmed_text(text_or_empty(nonempty_text(r.last_action_date))));
    let r9 = push_if(r8, nonempty_text(r.frn) is Some, "FRN"@, dimmed_text(text_or_empty(nonempty_text(r.frn))));
    let r10 = push_if(r9, nonempty_text(r.uls_url) is Some, "ULS Record"@, crate::display::uls_value(r, use_links));
    lemma_values_push_if(r3, crate::display::address_line(a) is Some, "Address"@, text_or_empty(crate::display::address_line(a)), label);
    lemma_values_push_if(r4, city_line(a) is Some, Seq::empty(), text_or_empty(city_line(a)), label);
    lemma_values_push_if(r5, nonempty_text(r.grant_date) is Some, "Granted"@, text_or_empty(nonempty_text(r.grant_date)), label);
    lemma_values_push_if(r6, nonempty_text(r.expired_date) is Some, "Expires"@, crate::display::expires_value(r), label);
    lemma_values_push_if(r7, nonempty_text(r.last_action_date) is Some, "Last Action"@, dimmed_text(text_or_empty(nonempty_text(r.last_action_date))), label);
    lemma_values_push_if(r8, nonempty_text(r.frn) is Some, "FRN"@, dimmed_text(text_or_empty(nonempty_text(r.frn))), label);
    lemma_values_push_if(r9, nonempty_text(r.uls_url) is Some, "ULS Record"@, crate::display::uls_value(r, use_links), label);
    lemma_values_push_if(r10, cached_at is Some, "Cached"@, dimmed_text(cache_info_text(cached_at.unwrap_or(0), TTL_SECS, now)), label);
}

/// The values of the identity rows for `label`.
proof fn lemma_identity_values(r: RecordView, label: Seq<char>)
    ensures
        values_labelled(identity_rows(r), label) ==
            shown_if("Status"@ == label, crate::display::status_value(r))
            + shown_if("Type"@ == label, crate::display::type_value(r))
            + shown_if(crate::api::class_label(r) != crate::api::dash() && "Class"@ == label, class_value(crate::api::class_label(r)))
            + shown_if(nonempty_text(r.trustee_callsign) is Some && "Trustee"@ == label, crate::display::trustee_value(r))
            + shown_if(nonempty_text(r.previous_callsign) is Some && "Previous"@ == label, dimmed_text(text_or_empty(nonempty_text(r.previous_callsign)))),
{
    let e: Seq<(Seq<char>, Seq<char>)> = Seq::empty();
    let s0 = push_if(e, true, "Status"@, crate::display::status_value(r));
    let r0 = push_if(s0, true, "Type"@, crate::display::type_value(r));
    assert(r0 =~= seq![("Status"@, crate::display::status_value(r)), ("Type"@, crate::display::type_value(r))]);
    let r1 = push_if(r0, crate::api::class_label(r) != crate::api::dash(), "Class"@, class_value(crate::api::class_label(r)));
    let r2 = push_if(r1, nonempty_text(r.trustee_callsign) is Some, "Trustee"@, crate::display::trustee_value(r));
    lemma_values_push_if(e, true, "Status"@, crate::display::status_value(r), label);
    lemma_values_push_if(s0, true, "Type"@, crate::display::type_value(r), label);
    lemma_values_push_if(r0, crate::api::class_label(r) != crate::api::dash(), "Class"@, class_value(crate::api::class_label(r)), label);
    lemma_values_push_if(r1, nonempty_text(r.trustee_callsign) is Some, "Trustee"@, crate::display::trustee_value(r), label);
    lemma_values_push_if(r2, nonempty_text(r.previous_callsign) is Some, "Previous"@, dimmed_text(text_or_empty(nonempty_text(r.previous_callsign))), label);
    assert(values_labelled(e, label) =~= Seq::<Seq<char>>::empty());
    assert(Seq::<Seq<char>>::empty() + shown_if("Status"@ == label, crate::display::status_value(r))
        =~= shown_if("Status"@ == label, crate::display::status_value(r)));
}

/// The record table holds, for each label, exactly the row the record's
/// fields call for: the status always (marked and colored by the FRN status
/// code), the license type always (`Individual` when absent), the class when
/// the record has one, the trustee, previous callsign, address, city line,
/// grant date, expiry date (red when expired, else green), last action, FRN
/// and ULS link when they are present and not blank, and the cache note when
/// the record came from the cache.
pub proof fn law_table_rows_from_fields(r: RecordView, use_links: bool, cached_at: Option<u64>, now: u64)
    ensures
        values_labelled(table_rows(r, use_links, cached_at, now), "Status"@) == seq![
            if r.license_status == "A"@ {
                bold_text(fg_text(bright_green_code(), "\u{2713} "@ + r.license_status_label))
            } else if r.license_status == "E"@ {
                bold_text(fg_text(bright_red_code(), "\u{2717} "@ + r.license_status_label))
            } else {
                bold_text(fg_text(bright_yellow_code(), "\u{26a0} "@ + r.license_status_label))
            }
        ],
        values_labelled(table_rows(r, use_links, cached_at, now), "Type"@) == seq![
            match r.license_type { Some(t) => t, None => "Individual"@ }
        ],
        values_labelled(table_rows(r, use_links, cached_at, now), "Class"@) == shown_if(
            r.operator_class_label is Some && r.operator_class_label->0 != seq!['\u{2014}'],
            class_value(r.operator_class_label->0),
        ),
        values_labelled(table_rows(r, use_links, cached_at, now), "Trustee"@) == shown_if(
            filled(r.trustee_callsign),
            bold_text(fg_text(bright_cyan_code(), r.trustee_callsign->0)) + " \u{2014} "@ + text_or_empty(r.trustee_name),
        ),
        values_labelled(table_rows(r, use_links, cached_at, now), "Previous"@)
            == shown_if(filled(r.previous_callsign), dimmed_text(r.previous_callsign->0)),
        values_labelled(table_rows(r, use_links, cached_at, now), "Address"@) == match r.address.street {
            Some(street) => shown_if(street.len() > 0, street),
            None => shown_if(filled(r.address.po_box), r.address.po_box->0),
        },
        values_labelled(table_rows(r, use_links, cached_at, now), Seq::<char>::empty())
            == shown_if(city_line(r.address) is Some, city_line(r.address)->0),
        values_labelled(table_rows(r, use_links, cached_at, now), "Granted"@)
            == shown_if(filled(r.grant_date), r.grant_date->0),
        values_labelled(table_rows(r, use_links, cached_at, now), "Expires"@) == shown_if(
            filled(r.expired_date),
            if r.license_status == seq!['E'] {
                fg_text(bright_red_code(), r.expired_date->0)
            } else {
                fg_text(bright_green_code(), r.expired_date->0)
            },
        ),
        values_labelled(table_rows(r, use_links, cached_at, now), "Last Action"@)
            == shown_if(filled(r.last_action_date), dimmed_text(r.last_action_date->0)),
        values_labelled(table_rows(r, use_links, cached_at, now), "FRN"@)
            == shown_if(filled(r.frn), dimmed_text(r.frn->0)),
        values_labelled(table_rows(r, use_links, cached_at, now), "ULS Record"@)
            == shown_if(filled(r.uls_url), link_text(r.uls_url->0, r.uls_url->0, use_links)),
        values_labelled(table_rows(r, use_links, cached_at, now), "Cached"@)
            == shown_if(cached_at is Some, dimmed_text(cache_info_text(cached_at->0, TTL_SECS, now))),
{
    lemma_labels();
    reveal_strlit("\u{2014}");
    lemma_table_values(r, use_links, cached_at, now, "Status"@);
    lemma_identity_values(r, "Status"@);
    lemma_table_values(r, use_links, cached_at, now, "Type"@);
    lemma_identity_values(r, "Type"@);
    lemma_table_values(r, use_links, cached_at, now, "Class"@);
    lemma_identity_values(r, "Class"@);
    lemma_table_values(r, use_links, cached_at, now, "Trustee"@);
    lemma_identity_values(r, "Trustee"@);
    lemma_table_values(r, use_links, cached_at, now, "Previous"@);
    lemma_identity_values(r, "Previous"@);
    lemma_table_values(r, use_links, cached_at, now, "Address"@);
    lemma_identity_values(r, "Address"@);
    lemma_table_values(r, use_links, cached_at, now, Seq::<char>::empty());
    lemma_identity_values(r, Seq::<char>::empty());
    lemma_table_values(r, use_links, cached_at, now, "Granted"@);
    lemma_identity_values(r, "Granted"@);
    lemma_table_values(r, use_links, cached_at, now, "Expires"@);
    lemma_identity_values(r, "Expires"@);
    lemma_table_values(r, use_links, cached_at, now, "Last Action"@);
    lemma_identity_values(r, "Last Action"@);
    lemma_table_values(r, use_links, cached_at, now, "FRN"@);
    lemma_identity_values(r, "FRN"@);
    lemma_table_values(r, use_links, cached_at, now, "ULS Record"@);
    lemma_identity_values(r, "ULS Record"@);
    lemma_table_values(r, use_links, cached_at, now, "Cached"@);
    lemma_identity_values(r, "Cached"@);
    let rows = table_rows(r, use_links, cached_at, now);
    assert(values_labelled(rows, "Status"@) =~= seq![crate::display::status_value(r)]);
    assert(values_labelled(rows, "Type"@) =~= seq![crate::display::type_value(r)]);
    assert(values_labelled(rows, "Class"@) =~= shown_if(crate::api::class_label(r) != crate::api::dash(), class_value(crate::api::class_label(r))));
    assert(values_labelled(rows, "Trustee"@) =~= shown_if(nonempty_text(r.trustee_callsign) is Some, crate::display::trustee_value(r)));
    assert(values_labelled(rows, "Previous"@) =~= shown_if(filled(r.previous_callsign), dimmed_text(r.previous_callsign->0)));
    assert(values_labelled(rows, "Address"@) =~= shown_if(crate::display::address_line(r.address) is Some, text_or_empty(crate::display::address_line(r.address))));
    assert(values_labelled(rows, Seq::<char>::empty()) =~= shown_if(city_line(r.address) is Some, city_line(r.address)->0));
    assert(values_labelled(rows, "Granted"@) =~= shown_if(filled(r.grant_date), r.grant_date->0));
    assert(values_labelled(rows, "Expires"@) =~= shown_if(filled(r.expired_date), crate::display::expires_value(r)));
    assert(values_labelled(rows, "Last Action"@) =~= shown_if(filled(r.last_action_date), dimmed_text(r.last_action_date->0)));
    assert(values_labelled(rows, "FRN"@) =~= shown_if(filled(r.frn), dimmed_text(r.frn->0)));
    assert(values_labelled(rows, "ULS Record"@) =~= shown_if(filled(r.uls_url), crate::display::uls_value(r, use_links)));
    assert(values_labelled(rows, "Cached"@) =~= shown_if(cached_at is Some, dimmed_text(cache_info_text(cached_at->0, TTL_SECS, now))));
}

/// The rows of the record table stand in one fixed order: status, type,
/// class, trustee, previous callsign, address, city line, granted, expires,
/// last action, FRN, ULS link, cache note.
pub proof fn law_table_rows_in_order(r: RecordView, use_links: bool, cached_at: Option<u64>, now: u64)
    ensures
        ordered_below(table_rows(r, use_links, cached_at, now), 13),
{
    lemma_labels();
    let a = r.address;
    let e: Seq<(Seq<char>, Seq<char>)> = Seq::empty();
    let s0 = push_if(e, true, "Status"@, crate::display::status_value(r));
    let r0 = push_if(s0, true, "Type"@, crate::display::type_value(r));
    assert(r0 =~= seq![("Status"@, crate::display::status_value(r)), ("Type"@, crate::display::type_value(r))]);
    let r1 = push_if(r0, crate::api::class_label(r) != crate::api::dash(), "Class"@, class_value(crate::api::class_label(r)));
    let r2 = push_if(r1, nonempty_text(r.trustee_callsign) is Some, "Trustee"@, crate::display::trustee_value(r));
    let r3 = push_if(r2, nonempty_text(r.previous_callsign) is Some, "Previous"@, dimmed_text(text_or_empty(nonempty_text(r.previous_callsign))));
    let r4 = push_if(r3, crate::display::address_line(a) is Some, "Address"@, text_or_empty(crate::display::address_line(a)));
    let r5 = push_if(r4, city_line(a) is Some, Seq::empty(), text_or_empty(city_line(a)));
    let r6 = push_if(r5, nonempty_text(r.grant_date) is Some, "Granted"@, text_or_empty(nonempty_text(r.grant_date)));
    let r7 = push_if(r6, nonempty_text(r.expired_date) is Some, "Expires"@, crate::display::expires_value(r));
    let r8 = push_if(r7, nonempty_text(r.last_action_date) is Some, "Last Action"@, dimmed_text(text_or_empty(nonempty_text(r.last_action_date))));
    let r9 = push_if(r8, nonempty_text(r.frn) is Some, "FRN"@, dimmed_text(text_or_empty(nonempty_text(r.frn))));
    let r10 = push_if(r9, nonempty_text(r.uls_url) is Some, "ULS Record"@, crate::display::uls_value(r, use_links));
    assert(ordered_below(e, 0));
    lemma_ordered_push_if(e, 0, true, "Status"@, crate::display::status_value(r));
    lemma_ordered_push_if(s0, 1, true, "Type"@, crate::display::type_value(r));
    lemma_ordered_push_if(r0, 2, crate::api::class_label(r) != crate::api::dash(), "Class"@, class_value(crate::api::class_label(r)));
    lemma_ordered_push_if(r1, 3, nonempty_text(r.trustee_callsign) is Some, "Trustee"@, crate::display::trustee_value(r));
    lemma_ordered_push_if(r2, 4, nonempty_text(r.previous_callsign) is Some, "Previous"@, dimmed_text(text_or_empty(nonempty_text(r.previous_callsign))));
    lemma_ordered_push_if(r3, 5, crate::display::address_line(a) is Some, "Address"@, text_or_empty(crate::display::address_line(a)));
    lemma_ordered_push_if(r4, 6, city_line(a) is Some, Seq::empty(), text_or_empty(city_line(a)));
    lemma_ordered_push_if(r5, 7, nonempty_text(r.grant_date) is Some, "Granted"@, text_or_empty(nonempty_text(r.grant_date)));
    lemma_ordered_push_if(r6, 8, nonempty_text(r.expired_date) is Some, "Expires"@, crate::display::expires_value(r));
    lemma_ordered_push_if(r7, 9, nonempty_text(r.last_action_date) is Some, "Last Action"@, dimmed_text(text_or_empty(nonempty_text(r.last_action_date))));
    lemma_ordered_push_if(r8, 10, nonempty_text(r.frn) is Some, "FRN"@, dimmed_text(text_or_empty(nonempty_text(r.frn))));
    lemma_ordered_push_if(r9, 11, nonempty_text(r.uls_url) is Some, "ULS Record"@, crate::display::uls_value(r, use_links));
    lemma_ordered_push_if(r10, 12, cached_at is Some, "Cached"@, dimmed_text(cache_info_text(cached_at.unwrap_or(0), TTL_SECS, now)));
}

/// The city line joins the trimmed city, state and ZIP code that are not
/// blank, in that order: `CITY, ST ZIP` when all three are given, the ones
/// given otherwise, and no line when none is.
pub proof fn law_city_line_joins_parts(a: AddressView)
    ensures
        ({
            let city = trimmed(text_or_empty(a.city));
            let state = trimmed(text_or_empty(a.state));
            let zip = trimmed(text_or_empty(a.zip_code));
            &&& city.len() > 0 && state.len() > 0 && zip.len() > 0
                ==> city_line(a) == Some(city + ", "@ + state + " "@ + zip)
            &&& city.len() > 0 && state.len() > 0 && zip.len() == 0 ==> city_line(a) == Some(city + ", "@ + state)
            &&& city.len() > 0 && state.len() == 0 && zip.len() > 0 ==> city_line(a) == Some(city + " "@ + zip)
            &&& city.len() == 0 && state.len() > 0 && zip.len() > 0 ==> city_line(a) == Some(state + " "@ + zip)
            &&& city.len() > 0 && state.len() == 0 && zip.len() == 0 ==> city_line(a) == Some(city)
            &&& city.len() == 0 && state.len() > 0 && zip.len() == 0 ==> city_line(a) == Some(state)
            &&& city.len() == 0 && state.len() == 0 && zip.len() > 0 ==> city_line(a) == Some(zip)
            &&& city.len() == 0 && state.len() == 0 && zip.len() == 0 ==> city_line(a) is None
        }),
{
    reveal_strlit(", ");
    reveal_strlit(" ");
}

} // verus!
