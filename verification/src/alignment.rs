//! Why the record table stays aligned: the rendered width of text is read
//! one character at a time by a small scanner, so widths add up over joined
//! text, escapes (styles, hyperlinks) take no columns, and every line of the
//! box is exactly as wide as the box.

use vstd::prelude::*;
use crate::api::{AddressView, RecordView, class_label, dash, record_callsign};
use crate::cache::{nonempty_text, text_or_empty};
use crate::display::{
    ScanState, address_line, age_at, age_text, cache_info_text, city_line, class_value, date_text, detail_rows,
    expires_value, identity_rows, is_ascii_letter, label_width, lemma_label_width_bound, lemma_value_width_bound,
    push_if, remaining_at, remaining_text, repeat_char, row_line, shown_width, spaces, status_value, table_rows,
    table_text, trustee_value, type_value, uls_value, unix_date_text, value_width, visible_width_of,
};
use crate::hyperlink::{link_text, osc8_intro, string_terminator};
use crate::style::{
    bold_text, bright_blue_code, bright_cyan_code, bright_green_code, bright_magenta_code, bright_red_code,
    bright_yellow_code, cyan_code, dimmed_text, fg_text, sgr, styled, yellow_code,
};
use crate::text::{dec, dec_padded, digit_char, first_non_white, last_non_white, lemma_trimmed_bounds, trimmed, zero_pad};

verus! {

/// The width scanner between two characters: as [`ScanState`], with
/// `Escape` for an `ESC` met in plain text, whose meaning the next character
/// decides (`[` opens a CSI sequence, `]` an OSC one; anything else is read
/// as plain text again).
pub enum WidthState {
    Text,
    Escape,
    Csi,
    Osc,
    OscEscape,
}

/// Columns added and the state after reading `c` in state `st`.
pub open spec fn step(st: WidthState, c: char) -> (int, WidthState) {
    match st {
        WidthState::Text => if c == '\u{1b}' { (0, WidthState::Escape) } else { (1, WidthState::Text) },
        WidthState::Escape => {
            if c == '[' {
                (0, WidthState::Csi)
            } else if c == ']' {
                (0, WidthState::Osc)
            } else if c == '\u{1b}' {
                (0, WidthState::Escape)
            } else {
                (1, WidthState::Text)
            }
        },
        WidthState::Csi => if is_ascii_letter(c) { (0, WidthState::Text) } else { (0, WidthState::Csi) },
        WidthState::Osc => {
            if c == '\u{7}' {
                (0, WidthState::Text)
            } else if c == '\u{1b}' {
                (0, WidthState::OscEscape)
            } else {
                (0, WidthState::Osc)
            }
        },
        WidthState::OscEscape => (0, WidthState::Text),
    }
}

/// Columns shown and the final state after reading all of `s` from `st`.
pub open spec fn scan(s: Seq<char>, st: WidthState) -> (int, WidthState)
    decreases s.len(),
{
    if s.len() == 0 {
        (0, st)
    } else {
        let first = step(st, s[0]);
        let rest = scan(s.drop_first(), first.1);
        (first.0 + rest.0, rest.1)
    }
}

/// `s` read from plain text ends in plain text: every escape it opens, it
/// also closes.
pub open spec fn ends_plain(s: Seq<char>) -> bool {
    scan(s, WidthState::Text).1 == WidthState::Text
}

pub open spec fn lift(st: ScanState) -> WidthState {
    match st {
        ScanState::Text => WidthState::Text,
        ScanState::Csi => WidthState::Csi,
        ScanState::Osc => WidthState::Osc,
        ScanState::OscEscape => WidthState::OscEscape,
    }
}

/// Reading joined text is reading the first part, then the second from
/// where the first left off.
pub proof fn lemma_scan_concat(a: Seq<char>, b: Seq<char>, st: WidthState)
    ensures
        scan(a + b, st).0 == scan(a, st).0 + scan(b, scan(a, st).1).0,
        scan(a + b, st).1 == scan(b, scan(a, st).1).1,
    decreases a.len(),
{
    if a.len() == 0 {
        assert(a + b =~= b);
    } else {
        assert((a + b)[0] == a[0]);
        assert((a + b).drop_first() =~= a.drop_first() + b);
        lemma_scan_concat(a.drop_first(), b, step(st, a[0]).1);
    }
}

/// A scan never takes columns away.
pub proof fn lemma_scan_nonnegative(s: Seq<char>, st: WidthState)
    ensures
        scan(s, st).0 >= 0,
    decreases s.len(),
{
    if s.len() > 0 {
        lemma_scan_nonnegative(s.drop_first(), step(st, s[0]).1);
    }
}

/// The width scanner of the display reads like [`scan`].
proof fn lemma_shown_width_is_scan(s: Seq<char>, i: int, st: ScanState)
    requires
        0 <= i <= s.len(),
    ensures
        shown_width(s, i, st) == scan(s.skip(i), lift(st)).0,
    decreases s.len() - i,
{
    if i == s.len() {
        assert(s.skip(i).len() == 0);
    } else {
        let rest = s.skip(i);
        assert(rest[0] == s[i]);
        assert(rest.drop_first() =~= s.skip(i + 1));
        match st {
            ScanState::Text => {
                if s[i] == '\u{1b}' {
                    if i + 1 < s.len() {
                        let after = s.skip(i + 1);
                        assert(after[0] == s[i + 1]);
                        assert(after.drop_first() =~= s.skip(i + 2));
                        let via_escape = scan(after, WidthState::Escape);
                        if s[i + 1] == '[' {
                            assert(via_escape == scan(s.skip(i + 2), WidthState::Csi));
                            lemma_shown_width_is_scan(s, i + 2, ScanState::Csi);
                        } else if s[i + 1] == ']' {
                            assert(via_escape == scan(s.skip(i + 2), WidthState::Osc));
                            lemma_shown_width_is_scan(s, i + 2, ScanState::Osc);
                        } else {
                            assert(via_escape == scan(after, WidthState::Text));
                            lemma_shown_width_is_scan(s, i + 1, ScanState::Text);
                        }
                    } else {
                        assert(s.skip(i + 1).len() == 0);
                        assert(scan(s.skip(i + 1), WidthState::Escape).0 == 0);
                        assert(shown_width(s, i + 1, ScanState::Text) == 0);
                    }
                } else {
                    lemma_shown_width_is_scan(s, i + 1, ScanState::Text);
                }
            },
            ScanState::Csi => {
                if is_ascii_letter(s[i]) {
                    lemma_shown_width_is_scan(s, i + 1, ScanState::Text);
                } else {
                    lemma_shown_width_is_scan(s, i + 1, ScanState::Csi);
                }
            },
            ScanState::Osc => {
                if s[i] == '\u{7}' {
                    lemma_shown_width_is_scan(s, i + 1, ScanState::Text);
                } else if s[i] == '\u{1b}' {
                    lemma_shown_width_is_scan(s, i + 1, ScanState::OscEscape);
                } else {
                    lemma_shown_width_is_scan(s, i + 1, ScanState::Osc);
                }
            },
            ScanState::OscEscape => {
                lemma_shown_width_is_scan(s, i + 1, ScanState::Text);
            },
        }
    }
}

/// The rendered width is what [`scan`] counts from plain text.
pub proof fn lemma_visible_width_is_scan(s: Seq<char>)
    ensures
        visible_width_of(s) == scan(s, WidthState::Text).0,
{
    lemma_shown_width_is_scan(s, 0, ScanState::Text);
    assert(s.skip(0) =~= s);
}

/// No `ESC` in `s`.
pub open spec fn escape_free(s: Seq<char>) -> bool {
    forall|k: int| 0 <= k < s.len() ==> s[k] != '\u{1b}'
}

/// No ASCII letter in `s` (as in the numeric parameters of an SGR escape).
pub open spec fn letter_free(s: Seq<char>) -> bool {
    forall|k: int| 0 <= k < s.len() ==> !is_ascii_letter(#[trigger] s[k])
}

proof fn lemma_scan_escape_free(s: Seq<char>)
    requires
        escape_free(s),
    ensures
        scan(s, WidthState::Text) == (s.len() as int, WidthState::Text),
    decreases s.len(),
{
    if s.len() > 0 {
        assert(s[0] != '\u{1b}');
        assert(escape_free(s.drop_first())) by {
            assert forall|k: int| 0 <= k < s.drop_first().len() implies s.drop_first()[k] != '\u{1b}' by {
                assert(s.drop_first()[k] == s[k + 1]);
            }
        }
        lemma_scan_escape_free(s.drop_first());
    }
}

proof fn lemma_scan_csi_parameters(s: Seq<char>)
    requires
        letter_free(s),
    ensures
        scan(s, WidthState::Csi) == (0int, WidthState::Csi),
    decreases s.len(),
{
    if s.len() > 0 {
        assert(!is_ascii_letter(s[0]));
        assert(letter_free(s.drop_first())) by {
            assert forall|k: int| 0 <= k < s.drop_first().len() implies !is_ascii_letter(#[trigger] s.drop_first()[k]) by {
                assert(s.drop_first()[k] == s[k + 1]);
            }
        }
        lemma_scan_csi_parameters(s.drop_first());
    }
}

proof fn lemma_scan_osc_payload(s: Seq<char>)
    requires
        escape_free(s),
        forall|k: int| 0 <= k < s.len() ==> s[k] != '\u{7}',
    ensures
        scan(s, WidthState::Osc) == (0int, WidthState::Osc),
    decreases s.len(),
{
    if s.len() > 0 {
        assert(s[0] != '\u{1b}' && s[0] != '\u{7}');
        assert forall|k: int| 0 <= k < s.drop_first().len() implies s.drop_first()[k] != '\u{1b}' && s.drop_first()[k] != '\u{7}' by {
            assert(s.drop_first()[k] == s[k + 1]);
        }
        lemma_scan_osc_payload(s.drop_first());
    }
}

proof fn lemma_scan_one(c: char, st: WidthState)
    ensures
        scan(seq![c], st) == step(st, c),
{
    assert(seq![c].drop_first() =~= Seq::<char>::empty());
    assert(scan(Seq::<char>::empty(), step(st, c).1) == (0int, step(st, c).1));
}

/// An SGR escape takes no columns and leaves the scanner in plain text.
proof fn lemma_scan_sgr(code: Seq<char>)
    requires
        letter_free(code),
    ensures
        scan(sgr(code), WidthState::Text) == (0int, WidthState::Text),
{
    let intro = seq!['\u{1b}', '['];
    let close = seq!['m'];
    assert(intro.drop_first() =~= seq!['[']);
    lemma_scan_one('[', WidthState::Escape);
    assert(scan(intro, WidthState::Text) == (0int, WidthState::Csi));
    lemma_scan_csi_parameters(code);
    lemma_scan_concat(intro, code, WidthState::Text);
    assert(is_ascii_letter('m'));
    lemma_scan_one('m', WidthState::Csi);
    lemma_scan_concat(intro + code, close, WidthState::Text);
}

// ── Laws ─────────────────────────────────────────────────────────────────────

/// Joined text is as wide as its parts when the first part closes every
/// escape it opens; the whole then ends in plain text exactly when the
/// second part does.
pub proof fn law_width_adds_up(a: Seq<char>, b: Seq<char>)
    requires
        ends_plain(a),
    ensures
        visible_width_of(a + b) == visible_width_of(a) + visible_width_of(b),
        ends_plain(a + b) == ends_plain(b),
{
    lemma_scan_concat(a, b, WidthState::Text);
    lemma_visible_width_is_scan(a + b);
    lemma_visible_width_is_scan(a);
    lemma_visible_width_is_scan(b);
}

/// Text without escapes is as wide as it is long.
pub proof fn law_plain_text_width(s: Seq<char>)
    requires
        escape_free(s),
    ensures
        visible_width_of(s) == s.len(),
        ends_plain(s),
{
    lemma_scan_escape_free(s);
    lemma_visible_width_is_scan(s);
}

/// Styling text (bold, dim, a color) adds no columns: its escapes take none.
pub proof fn law_styled_width(open: Seq<char>, t: Seq<char>, close: Seq<char>)
    requires
        letter_free(open),
        letter_free(close),
        ends_plain(t),
    ensures
        visible_width_of(styled(open, t, close)) == visible_width_of(t),
        ends_plain(styled(open, t, close)),
{
    lemma_scan_sgr(open);
    lemma_scan_sgr(close);
    lemma_visible_width_is_scan(sgr(open));
    lemma_visible_width_is_scan(sgr(close));
    law_width_adds_up(sgr(open), t);
    law_width_adds_up(sgr(open) + t, sgr(close));
}

/// A hyperlink is as wide as its text: the URL is not counted.
pub proof fn law_link_width(url: Seq<char>, text: Seq<char>, enabled: bool)
    requires
        escape_free(url),
        forall|k: int| 0 <= k < url.len() ==> url[k] != '\u{7}',
        ends_plain(text),
    ensures
        visible_width_of(link_text(url, text, enabled)) == visible_width_of(text),
        ends_plain(link_text(url, text, enabled)),
{
    if enabled && url.len() > 0 {
        let intro = osc8_intro();
        let st = string_terminator();
        // `ESC ] 8 ; ;` opens an OSC sequence.
        assert(intro.drop_first() =~= seq![']', '8', ';', ';']);
        assert(seq![']', '8', ';', ';'].drop_first() =~= seq!['8', ';', ';']);
        assert(seq!['8', ';', ';'].drop_first() =~= seq![';', ';']);
        assert(seq![';', ';'].drop_first() =~= seq![';']);
        lemma_scan_one(';', WidthState::Osc);
        assert(scan(seq![';', ';'], WidthState::Osc) == (0int, WidthState::Osc));
        assert(scan(seq!['8', ';', ';'], WidthState::Osc) == (0int, WidthState::Osc));
        assert(scan(seq![']', '8', ';', ';'], WidthState::Escape) == (0int, WidthState::Osc));
        assert(scan(intro, WidthState::Text) == (0int, WidthState::Osc));
        // `ESC \` ends it.
        assert(st.drop_first() =~= seq!['\\']);
        lemma_scan_one('\\', WidthState::OscEscape);
        assert(scan(st, WidthState::Osc) == (0int, WidthState::Text));
        lemma_scan_osc_payload(url);
        lemma_scan_concat(intro, url, WidthState::Text);
        lemma_scan_concat(intro + url, st, WidthState::Text);
        let opening = intro + url + st;
        lemma_visible_width_is_scan(opening);
        law_width_adds_up(opening, text);
        lemma_scan_concat(intro, st, WidthState::Text);
        let closing = intro + st;
        lemma_visible_width_is_scan(closing);
        law_width_adds_up(opening + text, intro);
        assert(opening + text + intro + st =~= (opening + text) + closing);
        law_width_adds_up(opening + text, closing);
    }
}

proof fn lemma_escape_free_concat(a: Seq<char>, b: Seq<char>)
    requires
        escape_free(a),
        escape_free(b),
    ensures
        escape_free(a + b),
{
    assert forall|k: int| 0 <= k < (a + b).len() implies (a + b)[k] != '\u{1b}' by {
        if k < a.len() {
            assert((a + b)[k] == a[k]);
        } else {
            assert((a + b)[k] == b[k - a.len()]);
        }
    }
}

proof fn lemma_repeat_escape_free(c: char, n: int)
    requires
        c != '\u{1b}',
    ensures
        escape_free(repeat_char(c, n)),
        repeat_char(c, n).len() == if n > 0 { n } else { 0 },
{
}

proof fn lemma_two_digit_code(a: char, b: char)
    requires
        '0' <= a <= '9',
        '0' <= b <= '9',
    ensures
        letter_free(seq![a, b]),
{
    let code = seq![a, b];
    assert forall|k: int| 0 <= k < code.len() implies !is_ascii_letter(#[trigger] code[k]) by {
        if k == 0 {
            assert(code[k] == a);
        } else {
            assert(code[k] == b);
        }
    }
}

proof fn lemma_one_digit_code(a: char)
    requires
        '0' <= a <= '9',
    ensures
        letter_free(seq![a]),
{
    let code = seq![a];
    assert forall|k: int| 0 <= k < code.len() implies !is_ascii_letter(#[trigger] code[k]) by {
        assert(code[k] == a);
    }
}

/// A label cell, bold cyan text padded to `lw`, is `lw` columns wide.
proof fn lemma_label_cell_width(label: Seq<char>, lw: int)
    requires
        escape_free(label),
        label.len() <= lw,
    ensures
        visible_width_of(bold_text(fg_text(cyan_code(), spaces(lw - label.len()) + label))) == lw,
        ends_plain(bold_text(fg_text(cyan_code(), spaces(lw - label.len()) + label))),
{
    let padded = spaces(lw - label.len()) + label;
    lemma_repeat_escape_free(' ', lw - label.len());
    lemma_escape_free_concat(spaces(lw - label.len()), label);
    law_plain_text_width(padded);
    lemma_two_digit_code('3', '6');
    lemma_two_digit_code('3', '9');
    law_styled_width(cyan_code(), padded, seq!['3', '9']);
    lemma_one_digit_code('1');
    lemma_one_digit_code('0');
    law_styled_width(seq!['1'], fg_text(cyan_code(), padded), seq!['0']);
}

/// A table row is as wide as the box: both borders, the padded label and
/// value, and the space around them.
proof fn lemma_row_line_width(row: (Seq<char>, Seq<char>), lw: int, vw: int)
    requires
        escape_free(row.0),
        row.0.len() <= lw,
        ends_plain(row.1),
        visible_width_of(row.1) <= vw,
    ensures
        visible_width_of(row_line(row, lw, vw)) == lw + vw + 7,
{
    reveal_strlit("\u{2502} ");
    reveal_strlit("   ");
    reveal_strlit(" \u{2502}");
    let left = "\u{2502} "@;
    let cell = bold_text(fg_text(cyan_code(), spaces(lw - row.0.len()) + row.0));
    let gap = "   "@;
    let w = visible_width_of(row.1);
    lemma_visible_width_is_scan(row.1);
    lemma_scan_nonnegative(row.1, WidthState::Text);
    let pad = spaces(vw - w);
    let right = " \u{2502}"@;
    assert(escape_free(left));
    assert(escape_free(gap));
    assert(escape_free(right));
    law_plain_text_width(left);
    law_plain_text_width(gap);
    law_plain_text_width(right);
    lemma_repeat_escape_free(' ', vw - w);
    law_plain_text_width(pad);
    lemma_label_cell_width(row.0, lw);
    law_width_adds_up(left, cell);
    law_width_adds_up(left + cell, gap);
    law_width_adds_up(left + cell + gap, row.1);
    law_width_adds_up(left + cell + gap + row.1, pad);
    law_width_adds_up(left + cell + gap + row.1 + pad, right);
}

/// A border line, a corner, `inner` rules and a corner, is `inner + 2` wide.
proof fn lemma_border_width(open: Seq<char>, inner: int, close: Seq<char>)
    requires
        open.len() == 1,
        close.len() == 1,
        open[0] != '\u{1b}',
        close[0] != '\u{1b}',
        inner >= 0,
    ensures
        visible_width_of(open + repeat_char('\u{2500}', inner) + close) == inner + 2,
{
    lemma_repeat_escape_free('\u{2500}', inner);
    assert(escape_free(open));
    assert(escape_free(close));
    lemma_escape_free_concat(open, repeat_char('\u{2500}', inner));
    lemma_escape_free_concat(open + repeat_char('\u{2500}', inner), close);
    law_plain_text_width(open + repeat_char('\u{2500}', inner) + close);
}

/// The box is aligned: its top and bottom borders and every row line are
/// exactly `label_width + value_width + 7` columns wide, whatever the
/// values hold, provided the labels are plain text and every value closes
/// the escapes it opens (as styled and hyperlinked values do).
pub proof fn law_box_lines_aligned(
    callsign: Seq<char>,
    name: Seq<char>,
    rows: Seq<(Seq<char>, Seq<char>)>,
    cached: bool,
    k: int,
)
    requires
        forall|i: int| 0 <= i < rows.len() ==> escape_free(#[trigger] rows[i].0),
        forall|i: int| 0 <= i < rows.len() ==> ends_plain(#[trigger] rows[i].1),
        2 <= k <= rows.len() + 3,
    ensures
        visible_width_of(table_text(callsign, name, rows, cached)[k]) == label_width(rows) + value_width(rows) + 7,
{
    let lw = label_width(rows);
    let vw = value_width(rows);
    let inner = 1 + lw + 3 + vw + 1;
    let lines = table_text(callsign, name, rows, cached);
    let body = Seq::new(rows.len(), |i: int| row_line(rows[i], lw, vw));
    reveal_strlit("\u{250c}");
    reveal_strlit("\u{2510}");
    reveal_strlit("\u{2514}");
    reveal_strlit("\u{2518}");
    if rows.len() > 0 {
        lemma_label_width_bound(rows, 0);
        lemma_visible_width_is_scan(rows[0].1);
        lemma_scan_nonnegative(rows[0].1, WidthState::Text);
        lemma_value_width_bound(rows, 0);
    }
    assert(lw >= 0 && vw >= 0) by {
        lemma_widths_nonnegative(rows);
    }
    if k == 2 {
        lemma_border_width("\u{250c}"@, inner, "\u{2510}"@);
    } else if k < rows.len() + 3 {
        let i = k - 3;
        assert(lines[k] == body[i]);
        lemma_label_width_bound(rows, i);
        lemma_value_width_bound(rows, i);
        lemma_row_line_width(rows[i], lw, vw);
    } else {
        assert(lines[k] == "\u{2514}"@ + repeat_char('\u{2500}', inner) + "\u{2518}"@);
        lemma_border_width("\u{2514}"@, inner, "\u{2518}"@);
    }
}

proof fn lemma_widths_nonnegative(rows: Seq<(Seq<char>, Seq<char>)>)
    ensures
        label_width(rows) >= 0,
        value_width(rows) >= 0,
    decreases rows.len(),
{
    if rows.len() > 0 {
        lemma_widths_nonnegative(rows.drop_last());
    }
}

// ── Text the record table is made of ─────────────────────────────────────────

proof fn lemma_dec_escape_free(n: nat)
    ensures
        escape_free(dec(n)),
    decreases n,
{
    if n >= 10 {
        lemma_dec_escape_free(n / 10);
        let d = seq![digit_char((n % 10) as int)];
        assert(escape_free(d)) by {
            assert(d[0] == digit_char((n % 10) as int));
        }
        lemma_escape_free_concat(dec(n / 10), d);
    } else {
        let d = seq![digit_char(n as int)];
        assert(d[0] == digit_char(n as int));
    }
}

proof fn lemma_dec_padded_escape_free(n: nat, width: nat)
    ensures
        escape_free(dec_padded(n, width)),
{
    lemma_dec_escape_free(n);
    let s = dec(n);
    if s.len() < width {
        let zeros = Seq::new((width - s.len()) as nat, |i: int| '0');
        assert(escape_free(zeros));
        lemma_escape_free_concat(zeros, s);
        assert(zero_pad(s, width) == zeros + s);
    }
}

proof fn lemma_one_char_escape_free(c: char)
    requires
        c != '\u{1b}',
    ensures
        escape_free(seq![c]),
{
    assert(seq![c][0] == c);
}

proof fn lemma_date_escape_free(ts: u64)
    ensures
        escape_free(unix_date_text(ts)),
{
    let d = crate::calendar::civil_date((ts / 86_400) as int);
    lemma_dec_padded_escape_free(d.0 as nat, 4);
    lemma_dec_padded_escape_free(d.1 as nat, 2);
    lemma_dec_padded_escape_free(d.2 as nat, 2);
    lemma_one_char_escape_free('-');
    let dash_sep = seq!['-'];
    lemma_escape_free_concat(dec_padded(d.0 as nat, 4), dash_sep);
    lemma_escape_free_concat(dec_padded(d.0 as nat, 4) + dash_sep, dec_padded(d.1 as nat, 2));
    lemma_escape_free_concat(dec_padded(d.0 as nat, 4) + dash_sep + dec_padded(d.1 as nat, 2), dash_sep);
    lemma_escape_free_concat(
        dec_padded(d.0 as nat, 4) + dash_sep + dec_padded(d.1 as nat, 2) + dash_sep,
        dec_padded(d.2 as nat, 2),
    );
}

proof fn lemma_words_escape_free(age: u64, remaining: u64)
    ensures
        escape_free(age_text(age)),
        escape_free(remaining_text(remaining)),
{
    reveal_strlit("just now");
    reveal_strlit(" min ago");
    reveal_strlit(" hr ago");
    reveal_strlit(" days ago");
    reveal_strlit(" min");
    reveal_strlit(" hr");
    reveal_strlit(" days");
    lemma_dec_escape_free((age / 60) as nat);
    lemma_dec_escape_free((age / 3_600) as nat);
    lemma_dec_escape_free((age / 86_400) as nat);
    lemma_dec_escape_free((remaining / 60) as nat);
    lemma_dec_escape_free((remaining / 3_600) as nat);
    lemma_dec_escape_free((remaining / 86_400) as nat);
    assert(escape_free(" min ago"@));
    assert(escape_free(" hr ago"@));
    assert(escape_free(" days ago"@));
    assert(escape_free(" min"@));
    assert(escape_free(" hr"@));
    assert(escape_free(" days"@));
    lemma_escape_free_concat(dec((age / 60) as nat), " min ago"@);
    lemma_escape_free_concat(dec((age / 3_600) as nat), " hr ago"@);
    lemma_escape_free_concat(dec((age / 86_400) as nat), " days ago"@);
    lemma_escape_free_concat(dec((remaining / 60) as nat), " min"@);
    lemma_escape_free_concat(dec((remaining / 3_600) as nat), " hr"@);
    lemma_escape_free_concat(dec((remaining / 86_400) as nat), " days"@);
}

proof fn lemma_cache_note_escape_free(cached_at: u64, ttl_secs: u64, now: u64)
    ensures
        escape_free(cache_info_text(cached_at, ttl_secs, now)),
{
    reveal_strlit(" \u{b7} fetched ");
    reveal_strlit(" \u{b7} refreshes in ");
    let date = unix_date_text(cached_at);
    let age = age_text(age_at(cached_at, now));
    let remaining = remaining_text(remaining_at(cached_at, ttl_secs, now));
    lemma_date_escape_free(cached_at);
    lemma_words_escape_free(age_at(cached_at, now), remaining_at(cached_at, ttl_secs, now));
    assert(escape_free(" \u{b7} fetched "@));
    assert(escape_free(" \u{b7} refreshes in "@));
    lemma_escape_free_concat(date, " \u{b7} fetched "@);
    lemma_escape_free_concat(date + " \u{b7} fetched "@, age);
    lemma_escape_free_concat(date + " \u{b7} fetched "@ + age, " \u{b7} refreshes in "@);
    lemma_escape_free_concat(date + " \u{b7} fetched "@ + age + " \u{b7} refreshes in "@, remaining);
}

proof fn lemma_trimmed_escape_free(s: Seq<char>)
    requires
        escape_free(s),
    ensures
        escape_free(trimmed(s)),
{
    lemma_trimmed_bounds(s);
    let lo = first_non_white(s, 0);
    assert forall|k: int| 0 <= k < trimmed(s).len() implies trimmed(s)[k] != '\u{1b}' by {
        assert(trimmed(s)[k] == s[lo + k]);
    }
}

// ── The record table ─────────────────────────────────────────────────────────

/// `s` holds neither `ESC` nor `BEL`, the characters that start and end
/// terminal escapes.
pub open spec fn control_free(s: Seq<char>) -> bool {
    &&& escape_free(s)
    &&& forall|k: int| 0 <= k < s.len() ==> s[k] != '\u{7}'
}

/// An optional field that, when present, is [`control_free`].
pub open spec fn field_control_free(o: Option<Seq<char>>) -> bool {
    match o {
        Some(s) => control_free(s),
        None => true,
    }
}

/// Every text of a record that the table shows is free of terminal escapes.
pub open spec fn record_shows_plain_text(r: RecordView) -> bool {
    &&& control_free(r.license_status_label)
    &&& field_control_free(r.license_type)
    &&& field_control_free(r.operator_class_label)
    &&& field_control_free(r.trustee_callsign)
    &&& field_control_free(r.trustee_name)
    &&& field_control_free(r.previous_callsign)
    &&& field_control_free(r.address.street)
    &&& field_control_free(r.address.city)
    &&& field_control_free(r.address.state)
    &&& field_control_free(r.address.zip_code)
    &&& field_control_free(r.address.po_box)
    &&& field_control_free(r.grant_date)
    &&& field_control_free(r.expired_date)
    &&& field_control_free(r.last_action_date)
    &&& field_control_free(r.frn)
    &&& field_control_free(r.uls_url)
}

/// Rows whose labels are plain text and whose values close every escape
/// they open.
pub open spec fn rows_well_formed(rows: Seq<(Seq<char>, Seq<char>)>) -> bool {
    &&& forall|i: int| 0 <= i < rows.len() ==> escape_free(#[trigger] rows[i].0)
    &&& forall|i: int| 0 <= i < rows.len() ==> ends_plain(#[trigger] rows[i].1)
}

proof fn lemma_push_if_well_formed(rows: Seq<(Seq<char>, Seq<char>)>, cond: bool, label: Seq<char>, value: Seq<char>)
    requires
        rows_well_formed(rows),
        cond ==> escape_free(label),
        cond ==> ends_plain(value),
    ensures
        rows_well_formed(push_if(rows, cond, label, value)),
{
    if cond {
        let pushed = rows.push((label, value));
        assert forall|i: int| 0 <= i < pushed.len() implies escape_free(#[trigger] pushed[i].0) by {
            if i < rows.len() {
                assert(pushed[i] == rows[i]);
            }
        }
        assert forall|i: int| 0 <= i < pushed.len() implies ends_plain(#[trigger] pushed[i].1) by {
            if i < rows.len() {
                assert(pushed[i] == rows[i]);
            }
        }
    }
}

proof fn lemma_field_text(o: Option<Seq<char>>)
    requires
        field_control_free(o),
    ensures
        control_free(text_or_empty(o)),
        control_free(text_or_empty(nonempty_text(o))),
        field_control_free(nonempty_text(o)),
{
}

proof fn lemma_plain_ends_plain(s: Seq<char>)
    requires
        escape_free(s),
    ensures
        ends_plain(s),
{
    law_plain_text_width(s);
}

proof fn lemma_bold_keeps_plain(t: Seq<char>)
    requires
        ends_plain(t),
    ensures
        ends_plain(bold_text(t)),
{
    lemma_one_digit_code('1');
    lemma_one_digit_code('0');
    law_styled_width(seq!['1'], t, seq!['0']);
}

proof fn lemma_dimmed_keeps_plain(t: Seq<char>)
    requires
        ends_plain(t),
    ensures
        ends_plain(dimmed_text(t)),
{
    lemma_one_digit_code('2');
    lemma_one_digit_code('0');
    law_styled_width(seq!['2'], t, seq!['0']);
}

proof fn lemma_color_keeps_plain(a: char, b: char, t: Seq<char>)
    requires
        '0' <= a <= '9',
        '0' <= b <= '9',
        ends_plain(t),
    ensures
        ends_plain(fg_text(seq![a, b], t)),
{
    lemma_two_digit_code(a, b);
    lemma_two_digit_code('3', '9');
    law_styled_width(seq![a, b], t, seq!['3', '9']);
}

proof fn lemma_status_value_plain(r: RecordView)
    requires
        control_free(r.license_status_label),
    ensures
        ends_plain(status_value(r)),
{
    reveal_strlit("\u{2713} ");
    reveal_strlit("\u{2717} ");
    reveal_strlit("\u{26a0} ");
    let label = r.license_status_label;
    assert(escape_free("\u{2713} "@));
    assert(escape_free("\u{2717} "@));
    assert(escape_free("\u{26a0} "@));
    lemma_escape_free_concat("\u{2713} "@, label);
    lemma_escape_free_concat("\u{2717} "@, label);
    lemma_escape_free_concat("\u{26a0} "@, label);
    lemma_plain_ends_plain("\u{2713} "@ + label);
    lemma_plain_ends_plain("\u{2717} "@ + label);
    lemma_plain_ends_plain("\u{26a0} "@ + label);
    lemma_color_keeps_plain('9', '2', "\u{2713} "@ + label);
    lemma_color_keeps_plain('9', '1', "\u{2717} "@ + label);
    lemma_color_keeps_plain('9', '3', "\u{26a0} "@ + label);
    lemma_bold_keeps_plain(fg_text(bright_green_code(), "\u{2713} "@ + label));
    lemma_bold_keeps_plain(fg_text(bright_red_code(), "\u{2717} "@ + label));
    lemma_bold_keeps_plain(fg_text(bright_yellow_code(), "\u{26a0} "@ + label));
}

proof fn lemma_class_value_plain(c: Seq<char>)
    requires
        escape_free(c),
    ensures
        ends_plain(class_value(c)),
{
    lemma_plain_ends_plain(c);
    lemma_color_keeps_plain('9', '5', c);
    lemma_color_keeps_plain('9', '4', c);
    lemma_color_keeps_plain('9', '6', c);
    lemma_color_keeps_plain('9', '2', c);
    lemma_color_keeps_plain('3', '3', c);
    lemma_bold_keeps_plain(fg_text(bright_magenta_code(), c));
    lemma_bold_keeps_plain(fg_text(bright_blue_code(), c));
}

proof fn lemma_trustee_value_plain(r: RecordView)
    requires
        field_control_free(r.trustee_callsign),
        field_control_free(r.trustee_name),
    ensures
        ends_plain(trustee_value(r)),
{
    reveal_strlit(" \u{2014} ");
    let call = text_or_empty(nonempty_text(r.trustee_callsign));
    let name = text_or_empty(r.trustee_name);
    lemma_field_text(r.trustee_callsign);
    lemma_field_text(r.trustee_name);
    lemma_plain_ends_plain(call);
    lemma_color_keeps_plain('9', '6', call);
    let styled_call = bold_text(fg_text(bright_cyan_code(), call));
    lemma_bold_keeps_plain(fg_text(bright_cyan_code(), call));
    assert(escape_free(" \u{2014} "@));
    lemma_escape_free_concat(" \u{2014} "@, name);
    lemma_plain_ends_plain(" \u{2014} "@ + name);
    law_width_adds_up(styled_call, " \u{2014} "@ + name);
    assert(styled_call + " \u{2014} "@ + name =~= styled_call + (" \u{2014} "@ + name));
}

proof fn lemma_city_line_plain(a: AddressView)
    requires
        field_control_free(a.city),
        field_control_free(a.state),
        field_control_free(a.zip_code),
    ensures
        escape_free(text_or_empty(city_line(a))),
{
    reveal_strlit(", ");
    reveal_strlit(" ");
    let city = trimmed(text_or_empty(a.city));
    let state = trimmed(text_or_empty(a.state));
    let zip = trimmed(text_or_empty(a.zip_code));
    lemma_trimmed_escape_free(text_or_empty(a.city));
    lemma_trimmed_escape_free(text_or_empty(a.state));
    lemma_trimmed_escape_free(text_or_empty(a.zip_code));
    assert(escape_free(", "@));
    assert(escape_free(" "@));
    lemma_escape_free_concat(city, ", "@);
    lemma_escape_free_concat(city + ", "@, state);
    let with_state = if state.len() == 0 { city } else if city.len() == 0 { state } else { city + ", "@ + state };
    lemma_escape_free_concat(with_state, " "@);
    lemma_escape_free_concat(with_state + " "@, zip);
}

proof fn lemma_identity_rows_well_formed(r: RecordView)
    requires
        record_shows_plain_text(r),
    ensures
        rows_well_formed(identity_rows(r)),
{
    reveal_strlit("Status");
    reveal_strlit("Type");
    reveal_strlit("Class");
    reveal_strlit("Trustee");
    reveal_strlit("Previous");
    reveal_strlit("Individual");
    reveal_strlit("\u{2014}");
    lemma_status_value_plain(r);
    lemma_field_text(r.license_type);
    assert(escape_free("Individual"@));
    lemma_plain_ends_plain(type_value(r));
    let r0: Seq<(Seq<char>, Seq<char>)> = seq![("Status"@, status_value(r)), ("Type"@, type_value(r))];
    assert(escape_free("Status"@));
    assert(escape_free("Type"@));
    assert(rows_well_formed(r0)) by {
        assert forall|i: int| 0 <= i < r0.len() implies escape_free(#[trigger] r0[i].0) by {
            if i == 0 { assert(r0[i].0 == "Status"@); } else { assert(r0[i].0 == "Type"@); }
        }
        assert forall|i: int| 0 <= i < r0.len() implies ends_plain(#[trigger] r0[i].1) by {
            if i == 0 { assert(r0[i].1 == status_value(r)); } else { assert(r0[i].1 == type_value(r)); }
        }
    }
    lemma_field_text(r.operator_class_label);
    assert(escape_free(dash()));
    assert(escape_free(class_label(r)));
    lemma_class_value_plain(class_label(r));
    assert(escape_free("Class"@));
    let r1 = push_if(r0, class_label(r) != dash(), "Class"@, class_value(class_label(r)));
    lemma_push_if_well_formed(r0, class_label(r) != dash(), "Class"@, class_value(class_label(r)));
    lemma_trustee_value_plain(r);
    assert(escape_free("Trustee"@));
    let r2 = push_if(r1, nonempty_text(r.trustee_callsign) is Some, "Trustee"@, trustee_value(r));
    lemma_push_if_well_formed(r1, nonempty_text(r.trustee_callsign) is Some, "Trustee"@, trustee_value(r));
    let previous = text_or_empty(nonempty_text(r.previous_callsign));
    lemma_field_text(r.previous_callsign);
    lemma_plain_ends_plain(previous);
    lemma_dimmed_keeps_plain(previous);
    assert(escape_free("Previous"@));
    lemma_push_if_well_formed(r2, nonempty_text(r.previous_callsign) is Some, "Previous"@, dimmed_text(previous));
}

proof fn lemma_detail_rows_well_formed(r: RecordView, start: Seq<(Seq<char>, Seq<char>)>)
    requires
        record_shows_plain_text(r),
        rows_well_formed(start),
    ensures
        rows_well_formed(detail_rows(r, start)),
{
    reveal_strlit("Address");
    reveal_strlit("Granted");
    reveal_strlit("Expires");
    reveal_strlit("Last Action");
    reveal_strlit("FRN");
    assert(escape_free("Address"@));
    assert(escape_free("Granted"@));
    assert(escape_free("Expires"@));
    assert(escape_free("Last Action"@));
    assert(escape_free("FRN"@));
    assert(escape_free(Seq::<char>::empty()));
    let a = r.address;
    lemma_field_text(a.street);
    lemma_field_text(a.po_box);
    let line1 = text_or_empty(address_line(a));
    assert(escape_free(line1));
    lemma_plain_ends_plain(line1);
    let r4 = push_if(start, address_line(a) is Some, "Address"@, line1);
    lemma_push_if_well_formed(start, address_line(a) is Some, "Address"@, line1);
    let line2 = text_or_empty(city_line(a));
    lemma_city_line_plain(a);
    lemma_plain_ends_plain(line2);
    let r5 = push_if(r4, city_line(a) is Some, Seq::empty(), line2);
    lemma_push_if_well_formed(r4, city_line(a) is Some, Seq::empty(), line2);
    let granted = text_or_empty(nonempty_text(r.grant_date));
    lemma_field_text(r.grant_date);
    lemma_plain_ends_plain(granted);
    let r6 = push_if(r5, nonempty_text(r.grant_date) is Some, "Granted"@, granted);
    lemma_push_if_well_formed(r5, nonempty_text(r.grant_date) is Some, "Granted"@, granted);
    let expires = text_or_empty(nonempty_text(r.expired_date));
    lemma_field_text(r.expired_date);
    lemma_plain_ends_plain(expires);
    lemma_color_keeps_plain('9', '1', expires);
    lemma_color_keeps_plain('9', '2', expires);
    let r7 = push_if(r6, nonempty_text(r.expired_date) is Some, "Expires"@, expires_value(r));
    lemma_push_if_well_formed(r6, nonempty_text(r.expired_date) is Some, "Expires"@, expires_value(r));
    let action = text_or_empty(nonempty_text(r.last_action_date));
    lemma_field_text(r.last_action_date);
    lemma_plain_ends_plain(action);
    lemma_dimmed_keeps_plain(action);
    let r8 = push_if(r7, nonempty_text(r.last_action_date) is Some, "Last Action"@, dimmed_text(action));
    lemma_push_if_well_formed(r7, nonempty_text(r.last_action_date) is Some, "Last Action"@, dimmed_text(action));
    let frn = text_or_empty(nonempty_text(r.frn));
    lemma_field_text(r.frn);
    lemma_plain_ends_plain(frn);
    lemma_dimmed_keeps_plain(frn);
    lemma_push_if_well_formed(r8, nonempty_text(r.frn) is Some, "FRN"@, dimmed_text(frn));
}

/// The rows of the record table are well formed when the record's text is.
proof fn lemma_table_rows_well_formed(r: RecordView, use_links: bool, cached_at: Option<u64>, now: u64)
    requires
        record_shows_plain_text(r),
    ensures
        rows_well_formed(table_rows(r, use_links, cached_at, now)),
{
    reveal_strlit("ULS Record");
    reveal_strlit("Cached");
    assert(escape_free("ULS Record"@));
    assert(escape_free("Cached"@));
    lemma_identity_rows_well_formed(r);
    lemma_detail_rows_well_formed(r, identity_rows(r));
    let r9 = detail_rows(r, identity_rows(r));
    let url = text_or_empty(nonempty_text(r.uls_url));
    lemma_field_text(r.uls_url);
    lemma_plain_ends_plain(url);
    law_link_width(url, url, use_links);
    let r10 = push_if(r9, nonempty_text(r.uls_url) is Some, "ULS Record"@, uls_value(r, use_links));
    lemma_push_if_well_formed(r9, nonempty_text(r.uls_url) is Some, "ULS Record"@, uls_value(r, use_links));
    let note = cache_info_text(cached_at.unwrap_or(0), crate::cache::TTL_SECS, now);
    lemma_cache_note_escape_free(cached_at.unwrap_or(0), crate::cache::TTL_SECS, now);
    lemma_plain_ends_plain(note);
    lemma_dimmed_keeps_plain(note);
    lemma_push_if_well_formed(r10, cached_at is Some, "Cached"@, dimmed_text(note));
}

/// The pretty table of a record is aligned: whenever the record's text holds
/// no terminal escapes, its top and bottom borders and every row line are
/// exactly as wide as the box, styled and hyperlinked values included.
pub proof fn law_record_table_aligned(r: RecordView, use_links: bool, cached_at: Option<u64>, now: u64, k: int)
    requires
        record_shows_plain_text(r),
        2 <= k <= table_rows(r, use_links, cached_at, now).len() + 3,
    ensures
        visible_width_of(
            table_text(record_callsign(r), r.display_name, table_rows(r, use_links, cached_at, now), cached_at is Some)[k],
        ) == label_width(table_rows(r, use_links, cached_at, now)) + value_width(table_rows(r, use_links, cached_at, now)) + 7,
{
    let rows = table_rows(r, use_links, cached_at, now);
    lemma_table_rows_well_formed(r, use_links, cached_at, now);
    law_box_lines_aligned(record_callsign(r), r.display_name, rows, cached_at is Some, k);
}

} // verus!
