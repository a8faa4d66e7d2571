//! The calls into the `regex`, `url` and `http` crates, the latter two as
//! `reqwest` hands them on (`reqwest::Url`, `reqwest::header::HeaderValue`).
//!
//! Nothing in this file is proved. Each function below hands its arguments
//! to one of those crates and says in its contract what comes back; every
//! proof elsewhere in the crate that uses one of them rests on that
//! statement.

use regex::Regex;
use reqwest::header::HeaderValue;
use reqwest::Url;
use vstd::prelude::*;

verus! {

/// The texts of a sequence of strings.
pub open spec fn texts(strings: Seq<String>) -> Seq<Seq<char>> {
    strings.map_values(|s: String| s@)
}

/// What a scan of `text` for `pattern` finds: `None` where `pattern` is no
/// regular expression that the `regex` crate compiles, else the matched
/// substrings, leftmost first and none overlapping another.
pub uninterp spec fn regex_matches(pattern: Seq<char>, text: Seq<char>) -> Option<Seq<Seq<char>>>;

/// `Regex::new` on `pattern`, then `Regex::find_iter` over `text`, each
/// match taken by `Match::as_str`. Believed: the outcome depends on the two
/// texts alone, so that it is `regex_matches` of them.
#[verifier::external_body]
pub(crate) fn find_all(pattern: &str, text: &str) -> (found: Option<Vec<String>>)
    ensures
        match found {
            Some(matches) => regex_matches(pattern@, text@) == Some(texts(matches@)),
            None => regex_matches(pattern@, text@) is None,
        },
{
    match Regex::new(pattern) {
        Ok(re) => Some(re.find_iter(text).map(|m| m.as_str().to_owned()).collect()),
        Err(_) => None,
    }
}

/// The serialisation of the absolute URL that `text` parses to under the
/// `url` crate's parser, or `None` where the parser refuses `text`.
pub uninterp spec fn strict_url(text: Seq<char>) -> Option<Seq<char>>;

/// `Url::parse` on `text`, the URL then turned into its serialisation.
/// Believed: the outcome depends on `text` alone, so that it is
/// `strict_url` of it.
#[verifier::external_body]
pub(crate) fn parse_strict(text: &str) -> (url: Option<String>)
    ensures
        match url {
            Some(u) => strict_url(text@) == Some(u@),
            None => strict_url(text@) is None,
        },
{
    match Url::parse(text) {
        Ok(url) => Some(String::from(url)),
        Err(_) => None,
    }
}

/// The serialisation of the URL that `reference` resolves to against the
/// URL that `base` parses to, or `None` where the `url` crate's parser
/// refuses either.
pub uninterp spec fn joined_url(base: Seq<char>, reference: Seq<char>) -> Option<Seq<char>>;

/// `Url::join` of `reference` on the URL that `Url::parse` makes of `base`,
/// the result turned into its serialisation. Believed: the outcome depends
/// on the two texts alone, so that it is `joined_url` of them.
#[verifier::external_body]
pub(crate) fn join(base: &str, reference: &str) -> (url: Option<String>)
    ensures
        match url {
            Some(u) => joined_url(base@, reference@) == Some(u@),
            None => joined_url(base@, reference@) is None,
        },
{
    match Url::parse(base) {
        Ok(base_url) => match base_url.join(reference) {
            Ok(url) => Some(String::from(url)),
            Err(_) => None,
        },
        Err(_) => None,
    }
}

/// Whether `byte` is a tab or a printable ASCII character.
pub open spec fn is_visible_ascii(byte: u8) -> bool {
    (32 <= byte && byte < 127) || byte == 9
}

/// The text whose characters are the ASCII characters numbered by `bytes`.
pub open spec fn ascii_text(bytes: Seq<u8>) -> Seq<char> {
    bytes.map_values(|b: u8| b as char)
}

/// `HeaderValue::from_bytes` on `value`, then `HeaderValue::to_str`.
/// Believed: the two succeed exactly on values made of tabs and printable
/// ASCII characters alone, and the text is then the value, byte for
/// character.
#[verifier::external_body]
pub(crate) fn header_text(value: &[u8]) -> (text: Option<String>)
    ensures
        match text {
            Some(t) => t@ == ascii_text(value@) && forall|i: int|
                0 <= i < value@.len() ==> is_visible_ascii(#[trigger] value@[i]),
            None => exists|i: int| 0 <= i < value@.len() && !is_visible_ascii(#[trigger] value@[i]),
        },
{
    match HeaderValue::from_bytes(value) {
        Ok(header) => match header.to_str() {
            Ok(text) => Some(text.to_owned()),
            Err(_) => None,
        },
        Err(_) => None,
    }
}

} // verus!
