//! Regular expressions, matched by the `regex` crate.
//!
//! What a pattern means is decided by that crate alone. The library names the
//! outcome of a search and reasons about what it does with that outcome.

use vstd::prelude::*;

verus! {

/// Whether `pattern` matches somewhere in `text`, as `regex::Regex::is_match`
/// decides for the expression that `regex::Regex::new` compiles from
/// `pattern`; `None` where `pattern` does not compile.
pub uninterp spec fn pattern_match(pattern: Seq<char>, text: Seq<char>) -> Option<bool>;

/// The text that capture group `group` took in the first match of `pattern`
/// in `text`, as `regex::Regex::captures` and `regex::Captures::get` give it
/// for the expression that `regex::Regex::new` compiles from `pattern`.
/// `None` where `pattern` does not compile; `Some(None)` where nothing matches
/// or the group took no part in the match.
pub uninterp spec fn pattern_capture(pattern: Seq<char>, text: Seq<char>, group: nat) -> Option<
    Option<Seq<char>>,
>;

/// The view of a capture.
pub open spec fn capture_view(c: Option<Option<String>>) -> Option<Option<Seq<char>>> {
    match c {
        None => None,
        Some(None) => Some(None),
        Some(Some(t)) => Some(Some(t@)),
    }
}

/// Searches `text` for `pattern`.
///
/// Trusted: compiles `pattern` with `regex::Regex::new` and asks
/// `regex::Regex::is_match` whether it matches anywhere in `text`. Both depend
/// on their arguments alone, so the answer is the named outcome
/// `pattern_match`; nothing more is claimed of it.
#[verifier::external_body]
pub(crate) fn is_match(pattern: &str, text: &str) -> (r: Option<bool>)
    ensures
        r == pattern_match(pattern@, text@),
{
    match regex::Regex::new(pattern) {
        Ok(re) => Some(re.is_match(text)),
        Err(_) => None,
    }
}

/// The text of one capture group in the first match of `pattern` in `text`.
///
/// Trusted: compiles `pattern` with `regex::Regex::new`, searches with
/// `regex::Regex::captures`, picks the group with `regex::Captures::get` and
/// copies the text that `regex::Match::as_str` returns. All depend on their
/// arguments alone, so the answer is the named outcome `pattern_capture`;
/// nothing more is claimed of it.
#[verifier::external_body]
pub(crate) fn capture(pattern: &str, text: &str, group: usize) -> (r: Option<Option<String>>)
    ensures
        capture_view(r) == pattern_capture(pattern@, text@, group as nat),
{
    let re = match regex::Regex::new(pattern) {
        Ok(re) => re,
        Err(_) => return None,
    };
    let caps = match re.captures(text) {
        Some(caps) => caps,
        None => return Some(None),
    };
    match caps.get(group) {
        Some(m) => Some(Some(m.as_str().to_string())),
        None => Some(None),
    }
}

} // verus!
