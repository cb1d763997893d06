//! Where the callrx-service lives and which API key to present.
//!
//! The values come from the environment, from the build, and from the stored
//! login; reading them is the application's job. What is decided here is the
//! order in which they are consulted and how each is cleaned up.

use vstd::prelude::*;
use crate::auth::StoredCredential;
use crate::text::{trim, trimmed};

verus! {

/// The service's documented development address, used when nothing is set.
pub const FALLBACK_API_URL: &'static str = "http://localhost:8073";

/// `url` with every trailing `'/'` removed.
pub open spec fn without_trailing_slashes(url: Seq<char>) -> Seq<char>
    decreases url.len(),
{
    if url.len() > 0 && url.last() == '/' {
        without_trailing_slashes(url.drop_last())
    } else {
        url
    }
}

/// Removes every trailing slash from `url`.
pub fn trim_trailing_slash(url: &str) -> (res: String)
    ensures
        res@ == without_trailing_slashes(url@),
{
    let mut end = url.unicode_len();
    assert(url@.subrange(0, end as int) =~= url@);
    while end > 0 && url.get_char(end - 1) == '/'
        invariant
            end <= url@.len(),
            without_trailing_slashes(url@) == without_trailing_slashes(url@.subrange(0, end as int)),
        decreases end,
    {
        assert(url@.subrange(0, end as int).drop_last() =~= url@.subrange(0, end - 1));
        end = end - 1;
    }
    let kept = url.substring_char(0, end);
    kept.to_string()
}

/// A URL cleaned of trailing slashes has none left, is a prefix of the URL,
/// and cleaning it again changes nothing.
pub proof fn law_trailing_slashes_gone(url: Seq<char>)
    ensures
        without_trailing_slashes(url).len() == 0 || without_trailing_slashes(url).last() != '/',
        without_trailing_slashes(without_trailing_slashes(url)) == without_trailing_slashes(url),
        without_trailing_slashes(url).len() <= url.len(),
        without_trailing_slashes(url) == url.take(without_trailing_slashes(url).len() as int),
    decreases url.len(),
{
    if url.len() > 0 && url.last() == '/' {
        law_trailing_slashes_gone(url.drop_last());
        let kept = without_trailing_slashes(url.drop_last());
        assert(url.take(kept.len() as int) =~= url.drop_last().take(kept.len() as int));
    } else {
        assert(url.take(url.len() as int) =~= url);
    }
}

/// Whether a setting is present and holds more than white space.
pub open spec fn is_set(value: Option<Seq<char>>) -> bool {
    match value {
        Some(v) => trimmed(v).len() > 0,
        None => false,
    }
}

pub open spec fn str_text(value: Option<&str>) -> Option<Seq<char>> {
    match value {
        Some(v) => Some(v@),
        None => None,
    }
}

/// The base URL chosen from the run-time setting, then the build-time one,
/// then the fallback; a chosen setting is trimmed and loses trailing slashes.
pub open spec fn chosen_base_url(runtime: Option<Seq<char>>, built_in: Option<Seq<char>>) -> Seq<char> {
    if is_set(runtime) {
        without_trailing_slashes(trimmed(runtime.unwrap()))
    } else if is_set(built_in) {
        without_trailing_slashes(trimmed(built_in.unwrap()))
    } else {
        FALLBACK_API_URL@
    }
}

/// The callrx-service base URL, given the `CALLRX_API_URL` value read at run
/// time and the one baked in at build time (either may be absent).
pub fn resolve_api_base_url(runtime: Option<&str>, built_in: Option<&str>) -> (res: String)
    ensures
        res@ == chosen_base_url(str_text(runtime), str_text(built_in)),
{
    if let Some(url) = runtime {
        let url = trim(url);
        if url.unicode_len() > 0 {
            return trim_trailing_slash(url);
        }
    }
    if let Some(url) = built_in {
        let url = trim(url);
        if url.unicode_len() > 0 {
            return trim_trailing_slash(url);
        }
    }
    FALLBACK_API_URL.to_string()
}

/// The API key chosen from the `CALLRX_API_KEY` setting (trimmed), then the
/// stored login.
pub open spec fn chosen_api_key(env_key: Option<Seq<char>>, stored: Option<Seq<char>>) -> Option<Seq<char>> {
    if is_set(env_key) {
        Some(trimmed(env_key.unwrap()))
    } else {
        stored
    }
}

/// The API key to present, given the `CALLRX_API_KEY` value and the stored
/// login credential, if any.
pub fn resolve_api_key(env_key: Option<&str>, stored: Option<StoredCredential>) -> (res: Option<String>)
    ensures
        crate::api::opt_text(res) == chosen_api_key(
            str_text(env_key),
            match stored {
                Some(c) => Some(c.api_key@),
                None => None,
            },
        ),
{
    if let Some(key) = env_key {
        let key = trim(key);
        if key.unicode_len() > 0 {
            return Some(key.to_string());
        }
    }
    match stored {
        Some(cred) => Some(cred.api_key),
        None => None,
    }
}

} // verus!
