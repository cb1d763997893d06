//! OSC 8 terminal hyperlinks.

use vstd::prelude::*;
use crate::text::{contains, contains_text, str_eq};

verus! {

/// `ESC ] 8 ; ;` — opens (and, with no URL, closes) an OSC 8 hyperlink.
pub open spec fn osc8_intro() -> Seq<char> {
    seq!['\u{1b}', ']', '8', ';', ';']
}

/// `ESC \` — the string terminator.
pub open spec fn string_terminator() -> Seq<char> {
    seq!['\u{1b}', '\\']
}

/// `text` as an OSC 8 hyperlink to `url`, or plain `text` when links are
/// off or there is no URL.
pub open spec fn link_text(url: Seq<char>, text: Seq<char>, enabled: bool) -> Seq<char> {
    if !enabled || url.len() == 0 {
        text
    } else {
        osc8_intro() + url + string_terminator() + text + osc8_intro() + string_terminator()
    }
}

/// Wraps `text` in an OSC 8 terminal hyperlink pointing to `url`.
///
/// Falls back to plain `text` when `enabled` is false (e.g. piped output) or
/// `url` is empty. Format: `ESC ] 8 ; ; <url> ESC \ <text> ESC ] 8 ; ; ESC \`.
pub fn link(url: &str, text: &str, enabled: bool) -> (res: String)
    ensures
        res@ == link_text(url@, text@, enabled),
{
    if !enabled || url.is_empty() {
        return text.to_string();
    }
    let intro = "\u{1b}]8;;";
    let st = "\u{1b}\\";
    proof {
        reveal_strlit("\u{1b}]8;;");
        reveal_strlit("\u{1b}\\");
        assert(intro@ =~= osc8_intro());
        assert(st@ =~= string_terminator());
    }
    let mut res = String::new();
    res.append(intro);
    res.append(url);
    res.append(st);
    res.append(text);
    res.append(intro);
    res.append(st);
    assert(res@ =~= link_text(url@, text@, enabled));
    res
}

/// `$TERM` values known not to render OSC 8.
pub open spec fn term_lacks_links(term: Seq<char>) -> bool {
    term == "dumb"@ || term == "xterm-mono"@
}

/// `$TERM` values known to render OSC 8.
pub open spec fn term_has_links(term: Seq<char>) -> bool {
    term == "xterm-256color"@ || term == "xterm-kitty"@ || term == "tmux-256color"@ || term == "screen-256color"@
}

/// `$TERM_PROGRAM` values (as substrings) known to render OSC 8.
pub open spec fn program_has_links(program: Seq<char>) -> bool {
    contains_text(program, "iTerm.app"@) || contains_text(program, "WezTerm"@)
        || contains_text(program, "Hyper"@) || contains_text(program, "vscode"@)
}

/// Whether a terminal is likely to support OSC 8, from what is known of it:
/// whether stdout is a terminal, `$TERM`, `$TERM_PROGRAM`, and whether
/// `$WT_SESSION` (Windows Terminal) is set.
pub fn osc8_supported_for(is_terminal: bool, term: &str, term_program: &str, wt_session: bool) -> (res: bool)
    ensures
        res == (is_terminal && !term_lacks_links(term@)
            && (wt_session || term_has_links(term@) || program_has_links(term_program@))),
{
    if !is_terminal {
        return false;
    }
    if str_eq(term, "dumb") || str_eq(term, "xterm-mono") {
        return false;
    }
    wt_session
        || str_eq(term, "xterm-256color")
        || str_eq(term, "xterm-kitty")
        || str_eq(term, "tmux-256color")
        || str_eq(term, "screen-256color")
        || contains(term_program, "iTerm.app")
        || contains(term_program, "WezTerm")
        || contains(term_program, "Hyper")
        || contains(term_program, "vscode")
}

} // verus!
