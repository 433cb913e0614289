//! The trusted boundary to the outside crates the engine leans on: base64
//! payload decoding, regular-expression matching, identifier generation and
//! the wall clock. Each wrapper's contract states no more than the outside
//! function's documentation promises; results that depend on the input alone
//! are given names that the rest of the crate reasons with.

use vstd::prelude::*;
use base64::Engine;

verus! {

/// What base64 decoding of a character sequence yields: the decoded bytes,
/// or `None` where the input is not valid padded standard base64.
pub uninterp spec fn base64_decoded(s: Seq<char>) -> Option<Seq<u8>>;

/// Relies on base64's `Engine::decode` with the standard padded alphabet:
/// the result is a function of the input characters alone, and decoding
/// fails exactly on text that is not valid base64 under that alphabet.
#[verifier::external_body]
pub fn b64_decode(s: &str) -> (r: Option<Vec<u8>>)
    ensures
        r is Some <==> base64_decoded(s@) is Some,
        r matches Some(v) ==> base64_decoded(s@) == Some(v@),
{
    base64::engine::general_purpose::STANDARD.decode(s.as_bytes()).ok()
}

/// Whether the pattern, compiled fresh, matches somewhere in the haystack;
/// an invalid pattern matches nothing.
pub uninterp spec fn regex_matches(pattern: Seq<char>, hay: Seq<char>) -> bool;

/// Relies on regex's `Regex::new` and `Regex::is_match`: whether the pattern
/// matches anywhere in the haystack, a function of the two strings alone; a
/// pattern that does not compile matches nothing.
#[verifier::external_body]
pub fn re_is_match(pattern: &str, hay: &str) -> (r: bool)
    ensures
        r == regex_matches(pattern@, hay@),
{
    match regex::Regex::new(pattern) {
        Ok(re) => re.is_match(hay),
        Err(_) => false,
    }
}

/// The byte ranges of the non-overlapping, leftmost-first matches of the
/// pattern in the haystack; an invalid pattern yields none.
pub uninterp spec fn regex_find_ranges(pattern: Seq<char>, hay: Seq<char>) -> Seq<(usize, usize)>;

/// Relies on regex's `Regex::find_iter`: the start and end byte offsets of
/// each successive non-overlapping match, earliest first, a function of the
/// two strings alone; a pattern that does not compile yields no matches.
#[verifier::external_body]
pub fn re_find_ranges(pattern: &str, hay: &str) -> (r: Vec<(usize, usize)>)
    ensures
        r@ == regex_find_ranges(pattern@, hay@),
{
    match regex::Regex::new(pattern) {
        Ok(re) => re.find_iter(hay).map(|m| (m.start(), m.end())).collect(),
        Err(_) => Vec::new(),
    }
}

/// The haystack with every match of the pattern removed; an invalid pattern
/// removes nothing.
pub uninterp spec fn regex_stripped(pattern: Seq<char>, hay: Seq<char>) -> Seq<char>;

/// Relies on regex's `Regex::replace_all` with an empty replacement: the
/// haystack with every non-overlapping match deleted, a function of the two
/// strings alone; a pattern that does not compile leaves it unchanged.
#[verifier::external_body]
pub fn re_strip(pattern: &str, hay: &str) -> (r: String)
    ensures
        r@ == regex_stripped(pattern@, hay@),
{
    match regex::Regex::new(pattern) {
        Ok(re) => re.replace_all(hay, "").into_owned(),
        Err(_) => hay.to_string(),
    }
}

/// The text of the first match's capture groups one to three, each replaced
/// by the empty string where the group is absent; `None` where the pattern
/// is invalid or matches nowhere.
pub uninterp spec fn regex_caps3(pattern: Seq<char>, hay: Seq<char>) -> Option<
    (Seq<char>, Seq<char>, Seq<char>),
>;

/// Relies on regex's `Regex::captures`: the first match's capture groups one
/// to three as text, a function of the two strings alone; an absent group
/// reads as empty, and an invalid or unmatched pattern yields `None`.
#[verifier::external_body]
pub fn re_caps3(pattern: &str, hay: &str) -> (r: Option<(String, String, String)>)
    ensures
        r is Some <==> regex_caps3(pattern@, hay@) is Some,
        r matches Some(g) ==> regex_caps3(pattern@, hay@) == Some((g.0@, g.1@, g.2@)),
{
    let re = regex::Regex::new(pattern).ok()?;
    let caps = re.captures(hay)?;
    let g = |i: usize| caps.get(i).map(|m| m.as_str().to_string()).unwrap_or_default();
    Some((g(1), g(2), g(3)))
}

/// Relies on uuid's `Uuid::new_v4` and its default hyphenated rendering: a
/// freshly generated random identifier; every hyphenated UUID renders as 36
/// characters. Nothing further can be promised of a random value.
#[verifier::external_body]
pub fn new_id() -> (r: String)
    ensures
        r@.len() == 36,
{
    uuid::Uuid::new_v4().to_string()
}

/// Relies on std's `SystemTime::now`: the current wall-clock time in
/// milliseconds since the Unix epoch, zero where the clock reads earlier
/// than the epoch. Nothing can be promised of a clock reading.
#[verifier::external_body]
pub fn now_ms() -> u64 {
    match std::time::SystemTime::now().duration_since(std::time::UNIX_EPOCH) {
        Ok(d) => d.as_millis() as u64,
        Err(_) => 0,
    }
}

} // verus!
