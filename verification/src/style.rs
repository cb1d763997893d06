//! Terminal styling through `owo_colors`: each style wraps its text in an
//! ANSI SGR escape that turns the style on and one that turns it off.

use owo_colors::OwoColorize;
use vstd::prelude::*;

verus! {

/// The SGR escape `ESC [ code m`.
pub open spec fn sgr(code: Seq<char>) -> Seq<char> {
    seq!['\u{1b}', '['] + code + seq!['m']
}

/// `text` between the escapes that open and close a style.
pub open spec fn styled(open: Seq<char>, text: Seq<char>, close: Seq<char>) -> Seq<char> {
    sgr(open) + text + sgr(close)
}

/// Bold: `ESC[1m … ESC[0m`.
pub open spec fn bold_text(t: Seq<char>) -> Seq<char> {
    styled(seq!['1'], t, seq!['0'])
}

/// Dimmed: `ESC[2m … ESC[0m`.
pub open spec fn dimmed_text(t: Seq<char>) -> Seq<char> {
    styled(seq!['2'], t, seq!['0'])
}

/// A foreground color `ESC[<code>m … ESC[39m`.
pub open spec fn fg_text(code: Seq<char>, t: Seq<char>) -> Seq<char> {
    styled(code, t, seq!['3', '9'])
}

pub open spec fn cyan_code() -> Seq<char> { seq!['3', '6'] }
pub open spec fn yellow_code() -> Seq<char> { seq!['3', '3'] }
pub open spec fn bright_red_code() -> Seq<char> { seq!['9', '1'] }
pub open spec fn bright_green_code() -> Seq<char> { seq!['9', '2'] }
pub open spec fn bright_yellow_code() -> Seq<char> { seq!['9', '3'] }
pub open spec fn bright_blue_code() -> Seq<char> { seq!['9', '4'] }
pub open spec fn bright_magenta_code() -> Seq<char> { seq!['9', '5'] }
pub open spec fn bright_cyan_code() -> Seq<char> { seq!['9', '6'] }

/// `OwoColorize::bold`, rendered. Claimed: the text between `ESC[1m` and
/// `ESC[0m`, as the crate's `BoldDisplay` writes it.
#[verifier::external_body]
pub(crate) fn bold(t: &str) -> (res: String)
    ensures
        res@ == bold_text(t@),
{
    t.bold().to_string()
}

/// `OwoColorize::dimmed`, rendered. Claimed: the text between `ESC[2m` and
/// `ESC[0m`, as the crate's `DimDisplay` writes it.
#[verifier::external_body]
pub(crate) fn dimmed(t: &str) -> (res: String)
    ensures
        res@ == dimmed_text(t@),
{
    t.dimmed().to_string()
}

/// `OwoColorize::cyan`, rendered. Claimed: `ESC[36m` … `ESC[39m`.
#[verifier::external_body]
pub(crate) fn cyan(t: &str) -> (res: String)
    ensures
        res@ == fg_text(cyan_code(), t@),
{
    t.cyan().to_string()
}

/// `OwoColorize::yellow`, rendered. Claimed: `ESC[33m` … `ESC[39m`.
#[verifier::external_body]
pub(crate) fn yellow(t: &str) -> (res: String)
    ensures
        res@ == fg_text(yellow_code(), t@),
{
    t.yellow().to_string()
}

/// `OwoColorize::bright_red`, rendered. Claimed: `ESC[91m` … `ESC[39m`.
#[verifier::external_body]
pub(crate) fn bright_red(t: &str) -> (res: String)
    ensures
        res@ == fg_text(bright_red_code(), t@),
{
    t.bright_red().to_string()
}

/// `OwoColorize::bright_green`, rendered. Claimed: `ESC[92m` … `ESC[39m`.
#[verifier::external_body]
pub(crate) fn bright_green(t: &str) -> (res: String)
    ensures
        res@ == fg_text(bright_green_code(), t@),
{
    t.bright_green().to_string()
}

/// `OwoColorize::bright_yellow`, rendered. Claimed: `ESC[93m` … `ESC[39m`.
#[verifier::external_body]
pub(crate) fn bright_yellow(t: &str) -> (res: String)
    ensures
        res@ == fg_text(bright_yellow_code(), t@),
{
    t.bright_yellow().to_string()
}

/// `OwoColorize::bright_blue`, rendered. Claimed: `ESC[94m` … `ESC[39m`.
#[verifier::external_body]
pub(crate) fn bright_blue(t: &str) -> (res: String)
    ensures
        res@ == fg_text(bright_blue_code(), t@),
{
    t.bright_blue().to_string()
}

/// `OwoColorize::bright_magenta`, rendered. Claimed: `ESC[95m` … `ESC[39m`.
#[verifier::external_body]
pub(crate) fn bright_magenta(t: &str) -> (res: String)
    ensures
        res@ == fg_text(bright_magenta_code(), t@),
{
    t.bright_magenta().to_string()
}

/// `OwoColorize::bright_cyan`, rendered. Claimed: `ESC[96m` … `ESC[39m`.
#[verifier::external_body]
pub(crate) fn bright_cyan(t: &str) -> (res: String)
    ensures
        res@ == fg_text(bright_cyan_code(), t@),
{
    t.bright_cyan().to_string()
}

} // verus!
