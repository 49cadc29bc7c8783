//! The two outside calls that the relay leans on: percent-encoding an
//! identifier for a URL path segment, and parsing a response body as JSON.
//! Each call's outcome depends on its text argument alone, so each gets a
//! name that the callers' contracts speak of.

use vstd::prelude::*;

verus! {

#[verifier::external_type_specification]
#[verifier::external_body]
pub struct ExValue(serde_json::Value);

/// A character that percent-encoding leaves as it stands: an ASCII letter
/// or digit, or one of `-`, `_`, `.`, `~`.
pub open spec fn is_unreserved_char(c: char) -> bool {
    (0x30 <= c as u32 && c as u32 <= 0x39) || (0x41 <= c as u32 && c as u32 <= 0x5a) || (0x61
        <= c as u32 && c as u32 <= 0x7a) || c == '-' || c == '_' || c == '.' || c == '~'
}

/// The percent-encoded form of a text: every byte of its UTF-8 form outside
/// the unreserved set becomes `%` and two upper-case hex digits.
pub uninterp spec fn percent_encoding_of(s: Seq<char>) -> Seq<char>;

/// Relies on `urlencoding::encode`: it percent-encodes every byte of the
/// UTF-8 form of `s` except ASCII alphanumerics and `-`, `_`, `.`, `~`, and
/// its result depends on `s` alone; a text made of unreserved characters
/// comes back unchanged.
#[verifier::external_body]
pub(crate) fn percent_encode(s: &str) -> (r: String)
    ensures
        r@ == percent_encoding_of(s@),
        (forall|i: int| 0 <= i < s@.len() ==> is_unreserved_char(s@[i])) ==> r@ == s@,
{
    urlencoding::encode(s).into_owned()
}

/// The outcome of parsing a text as a JSON document: the parsed value, or
/// the rendering of the parse error. Both depend on the text alone.
pub uninterp spec fn json_parse_of(s: Seq<char>) -> Result<serde_json::Value, Seq<char>>;

/// Relies on `serde_json::from_str::<Value>`: whether a text parses, the
/// value it parses to, and the rendering of the error when it does not, are
/// all functions of the text alone.
#[verifier::external_body]
pub(crate) fn parse_json_text(s: &str) -> (r: Result<serde_json::Value, String>)
    ensures
        (match r {
            Ok(v) => json_parse_of(s@) == Ok::<serde_json::Value, Seq<char>>(v),
            Err(e) => json_parse_of(s@) == Err::<serde_json::Value, Seq<char>>(e@),
        }),
{
    match serde_json::from_str::<serde_json::Value>(s) {
        Ok(v) => Ok(v),
        Err(e) => Err(e.to_string()),
    }
}

} // verus!
