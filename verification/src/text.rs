//! Text building blocks with exact specifications: decimal rendering,
//! zero padding, Unicode whitespace trimming and substring search.

use vstd::prelude::*;

verus! {

/// The ASCII digit for `d` (`d < 10`).
pub open spec fn digit_char(d: int) -> char {
    if d == 0 { '0' }
    else if d == 1 { '1' }
    else if d == 2 { '2' }
    else if d == 3 { '3' }
    else if d == 4 { '4' }
    else if d == 5 { '5' }
    else if d == 6 { '6' }
    else if d == 7 { '7' }
    else if d == 8 { '8' }
    else { '9' }
}

/// The decimal rendering of `n`, without leading zeros (as `{}` prints it).
pub open spec fn dec(n: nat) -> Seq<char>
    decreases n,
{
    if n < 10 {
        seq![digit_char(n as int)]
    } else {
        dec(n / 10) + seq![digit_char((n % 10) as int)]
    }
}

/// `s` left-padded with `'0'` up to `width` characters (as `{:0width$}` pads).
pub open spec fn zero_pad(s: Seq<char>, width: nat) -> Seq<char> {
    if s.len() >= width {
        s
    } else {
        Seq::new((width - s.len()) as nat, |i: int| '0') + s
    }
}

/// The decimal rendering of `n`, zero-padded to at least `width` characters.
pub open spec fn dec_padded(n: nat, width: nat) -> Seq<char> {
    zero_pad(dec(n), width)
}

/// A decimal rendering is never empty.
pub proof fn lemma_dec_nonempty(n: nat)
    ensures
        dec(n).len() >= 1,
    decreases n,
{
    if n >= 10 {
        lemma_dec_nonempty(n / 10);
    }
}

fn digit_str(d: u64) -> (res: &'static str)
    requires
        d < 10,
    ensures
        res@ == seq![digit_char(d as int)],
{
    proof {
        reveal_strlit("0");
        reveal_strlit("1");
        reveal_strlit("2");
        reveal_strlit("3");
        reveal_strlit("4");
        reveal_strlit("5");
        reveal_strlit("6");
        reveal_strlit("7");
        reveal_strlit("8");
        reveal_strlit("9");
    }
    let res = match d {
        0 => "0",
        1 => "1",
        2 => "2",
        3 => "3",
        4 => "4",
        5 => "5",
        6 => "6",
        7 => "7",
        8 => "8",
        _ => "9",
    };
    assert(res@ =~= seq![digit_char(d as int)]);
    res
}

/// Renders `n` in decimal, exactly as `format!("{}", n)` does.
pub fn decimal_string(n: u64) -> (res: String)
    ensures
        res@ == dec(n as nat),
    decreases n,
{
    if n < 10 {
        digit_str(n).to_string()
    } else {
        let mut res = decimal_string(n / 10);
        res.append(digit_str(n % 10));
        res
    }
}

/// Renders `n` in decimal, zero-padded to at least `width` characters,
/// exactly as `format!("{:0width$}", n)` does.
pub fn zero_padded(n: u64, width: usize) -> (res: String)
    ensures
        res@ == dec_padded(n as nat, width as nat),
{
    let digits = decimal_string(n);
    let len = digits.as_str().unicode_len();
    if len >= width {
        return digits;
    }
    let mut res = String::new();
    let mut i: usize = 0;
    while i < width - len
        invariant
            len < width,
            i <= width - len,
            res@ =~= Seq::new(i as nat, |k: int| '0'),
        decreases width - len - i,
    {
        proof {
            reveal_strlit("0");
        }
        res.append("0");
        i = i + 1;
    }
    res.append(digits.as_str());
    res
}

} // verus!

verus! {

/// `String::from` on a `char`. Claimed, as std documents it: the string
/// holding just `c`.
#[verifier::external_body]
pub(crate) fn char_text(c: char) -> (res: String)
    ensures
        res@ == seq![c],
{
    String::from(c)
}

/// Whether `a` and `b` hold the same characters.
pub fn str_eq(a: &str, b: &str) -> (res: bool)
    ensures
        res == (a@ == b@),
{
    let n = a.unicode_len();
    if n != b.unicode_len() {
        return false;
    }
    let mut i: usize = 0;
    while i < n
        invariant
            n == a@.len(),
            n == b@.len(),
            i <= n,
            forall|k: int| 0 <= k < i ==> a@[k] == b@[k],
        decreases n - i,
    {
        if a.get_char(i) != b.get_char(i) {
            return false;
        }
        i = i + 1;
    }
    assert(a@ =~= b@);
    true
}

/// `s` holds `needle` as a contiguous run of characters starting at `at`.
pub open spec fn occurs_at(s: Seq<char>, needle: Seq<char>, at: int) -> bool {
    0 <= at && at + needle.len() <= s.len() && s.subrange(at, at + needle.len()) == needle
}

/// `s` holds `needle` somewhere (as `str::contains` with a `&str` pattern).
pub open spec fn contains_text(s: Seq<char>, needle: Seq<char>) -> bool {
    exists|at: int| occurs_at(s, needle, at)
}

/// Whether `needle` occurs in `s`.
pub fn contains(s: &str, needle: &str) -> (res: bool)
    ensures
        res == contains_text(s@, needle@),
{
    let n = s.unicode_len();
    let m = needle.unicode_len();
    if m > n {
        assert forall|at: int| !occurs_at(s@, needle@, at) by {}
        return false;
    }
    let mut at: usize = 0;
    while at <= n - m
        invariant
            n == s@.len(),
            m == needle@.len(),
            m <= n,
            at <= n - m + 1,
            forall|k: int| 0 <= k < at ==> !occurs_at(s@, needle@, k),
        decreases n - m + 1 - at,
    {
        let mut j: usize = 0;
        let mut matched = true;
        while j < m
            invariant
                n == s@.len(),
                m == needle@.len(),
                at + m <= n,
                j <= m,
                matched ==> forall|k: int| 0 <= k < j ==> s@[at + k] == needle@[k],
                !matched ==> exists|k: int| 0 <= k < m && s@[at + k] != needle@[k],
            decreases m - j,
        {
            if s.get_char(at + j) != needle.get_char(j) {
                matched = false;
            }
            j = j + 1;
        }
        if matched {
            assert(s@.subrange(at as int, at + m) =~= needle@);
            assert(occurs_at(s@, needle@, at as int));
            return true;
        }
        assert(!occurs_at(s@, needle@, at as int)) by {
            let k = choose|k: int| 0 <= k < m && s@[at + k] != needle@[k];
            if s@.subrange(at as int, at + m) == needle@ {
                assert(s@.subrange(at as int, at + m)[k] == s@[at + k]);
            }
        }
        at = at + 1;
    }
    assert forall|k: int| !occurs_at(s@, needle@, k) by {
        if 0 <= k && k < at {
        }
    }
    false
}

/// Unicode `White_Space` (what `char::is_whitespace` and `str::trim` use).
pub open spec fn is_white_space(c: char) -> bool {
    ||| ('\u{9}' <= c && c <= '\u{d}')
    ||| c == ' '
    ||| c == '\u{85}'
    ||| c == '\u{a0}'
    ||| c == '\u{1680}'
    ||| ('\u{2000}' <= c && c <= '\u{200a}')
    ||| c == '\u{2028}'
    ||| c == '\u{2029}'
    ||| c == '\u{202f}'
    ||| c == '\u{205f}'
    ||| c == '\u{3000}'
}

fn white_space(c: char) -> (res: bool)
    ensures
        res == is_white_space(c),
{
    ('\u{9}' <= c && c <= '\u{d}') || c == ' ' || c == '\u{85}' || c == '\u{a0}' || c == '\u{1680}'
        || ('\u{2000}' <= c && c <= '\u{200a}') || c == '\u{2028}' || c == '\u{2029}'
        || c == '\u{202f}' || c == '\u{205f}' || c == '\u{3000}'
}

/// Index of the first character of `s` that is not white space (or `s.len()`).
pub open spec fn first_non_white(s: Seq<char>, from: int) -> int
    decreases s.len() - from,
{
    if from >= s.len() || from < 0 {
        from
    } else if is_white_space(s[from]) {
        first_non_white(s, from + 1)
    } else {
        from
    }
}

/// One past the last character of `s[..to]` that is not white space (or `lo`).
pub open spec fn last_non_white(s: Seq<char>, lo: int, to: int) -> int
    decreases to - lo,
{
    if to <= lo {
        lo
    } else if is_white_space(s[to - 1]) {
        last_non_white(s, lo, to - 1)
    } else {
        to
    }
}

/// `s` without leading and trailing white space (as `str::trim` returns it).
pub open spec fn trimmed(s: Seq<char>) -> Seq<char> {
    let lo = first_non_white(s, 0);
    s.subrange(lo, last_non_white(s, lo, s.len() as int))
}

proof fn lemma_first_non_white_bounds(s: Seq<char>, from: int)
    requires
        0 <= from <= s.len(),
    ensures
        from <= first_non_white(s, from) <= s.len(),
    decreases s.len() - from,
{
    if from < s.len() && is_white_space(s[from]) {
        lemma_first_non_white_bounds(s, from + 1);
    }
}

proof fn lemma_last_non_white_bounds(s: Seq<char>, lo: int, to: int)
    requires
        lo <= to,
    ensures
        lo <= last_non_white(s, lo, to) <= to,
    decreases to - lo,
{
    if to > lo && is_white_space(s[to - 1]) {
        lemma_last_non_white_bounds(s, lo, to - 1);
    }
}

/// Trimming keeps a slice of the text: `trimmed(s)` is `s[lo..hi]` for the
/// first and last characters that are not white space.
pub proof fn lemma_trimmed_bounds(s: Seq<char>)
    ensures
        0 <= first_non_white(s, 0) <= last_non_white(s, first_non_white(s, 0), s.len() as int) <= s.len(),
{
    lemma_first_non_white_bounds(s, 0);
    lemma_last_non_white_bounds(s, first_non_white(s, 0), s.len() as int);
}

/// `s` with leading and trailing Unicode white space removed.
pub fn trim(s: &str) -> (res: &str)
    ensures
        res@ == trimmed(s@),
{
    let n = s.unicode_len();
    let mut lo: usize = 0;
    while lo < n && white_space(s.get_char(lo))
        invariant
            n == s@.len(),
            lo <= n,
            first_non_white(s@, 0) == first_non_white(s@, lo as int),
        decreases n - lo,
    {
        lo = lo + 1;
    }
    let mut hi: usize = n;
    while hi > lo && white_space(s.get_char(hi - 1))
        invariant
            n == s@.len(),
            lo <= hi <= n,
            first_non_white(s@, 0) == lo,
            last_non_white(s@, lo as int, n as int) == last_non_white(s@, lo as int, hi as int),
        decreases hi - lo,
    {
        hi = hi - 1;
    }
    s.substring_char(lo, hi)
}

} // verus!
