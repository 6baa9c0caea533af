//! The trusted boundary: every call into an outside crate the library's
//! logic needs, each behind one small wrapper whose contract Verus believes.
//! Everything else in the crate is verified against these contracts.

use vstd::prelude::*;

verus! {

/// What `str::to_lowercase` returns: a function of the characters alone.
pub uninterp spec fn lower_of(s: Seq<char>) -> Seq<char>;

/// Relies on `str::to_lowercase`: the lowercase mapping of the input,
/// depending on its characters alone.
#[verifier::external_body]
pub(crate) fn lowercase(s: &str) -> (r: String)
    ensures
        r@ == lower_of(s@),
{
    s.to_lowercase()
}

/// Relies on `str::replace` with a one-character pattern and a one-character
/// replacement: every space becomes a hyphen, all other characters stay.
#[verifier::external_body]
pub(crate) fn replace_spaces(s: &str) -> (r: String)
    ensures
        r@ == s@.map_values(
            |c: char|
                if c == ' ' {
                    '-'
                } else {
                    c
                },
        ),
{
    s.replace(" ", "-")
}

/// What parsing a string as a UTC date-time yields: the Unix timestamp in
/// seconds when the string is a well-formed RFC 3339 date-time, `None`
/// otherwise. A function of the characters alone.
pub uninterp spec fn utc_instant_of(s: Seq<char>) -> Option<i64>;

/// Relies on `chrono::DateTime::<chrono::Utc>::from_str` (a relaxed RFC 3339
/// parser) and `chrono::DateTime::timestamp`, which reads the parsed instant
/// out as Unix seconds.
#[verifier::external_body]
pub(crate) fn parse_utc_timestamp(s: &str) -> (r: Option<i64>)
    ensures
        r == utc_instant_of(s@),
{
    s.parse::<chrono::DateTime<chrono::Utc>>().ok().map(|dt| dt.timestamp())
}

/// Relies on `chrono::Utc::now` and `chrono::DateTime::timestamp`: the
/// machine clock read as Unix seconds. Nothing is promised of the value.
#[verifier::external_body]
pub(crate) fn now_timestamp() -> i64 {
    chrono::Utc::now().timestamp()
}

/// Relies on `uuid::Uuid::new_v4` and its `Display` form: a freshly drawn
/// random identifier. The hyphenated form is always 36 characters; nothing
/// else is promised of a random value.
#[verifier::external_body]
pub(crate) fn new_uuid() -> (r: String)
    ensures
        r@.len() == 36,
{
    uuid::Uuid::new_v4().to_string()
}

/// What `char::is_whitespace` returns: whether the character has the
/// Unicode `White_Space` property. A function of the character alone.
pub uninterp spec fn whitespace_char(c: char) -> bool;

/// Relies on `char::is_whitespace`: membership in the Unicode `White_Space`
/// class, which is the whitespace class of the phone pattern.
#[verifier::external_body]
pub(crate) fn is_whitespace_char(c: char) -> (r: bool)
    ensures
        r == whitespace_char(c),
{
    c.is_whitespace()
}

/// What `char::is_numeric` returns: whether the character is in one of the
/// Unicode numeric categories. A function of the character alone.
pub uninterp spec fn numeric_char(c: char) -> bool;

/// Relies on `char::is_numeric`: membership in the Unicode numeric
/// categories, which stands for the digit class of the phone pattern.
#[verifier::external_body]
pub(crate) fn is_numeric_char(c: char) -> (r: bool)
    ensures
        r == numeric_char(c),
{
    c.is_numeric()
}

/// What extracting the `"id"` field out of a JSON-encoded object yields: the
/// field's string value when the input parses as JSON and carries a string
/// `"id"` member, `None` otherwise. A function of the characters alone.
pub uninterp spec fn json_id_of(s: Seq<char>) -> Option<Seq<char>>;

/// Relies on `serde_json::from_str::<serde_json::Value>`, `Value::get` and
/// `Value::as_str`: parses the input as JSON and reads its `"id"` member out
/// as a string, converting the outside value to a plain one.
#[verifier::external_body]
pub(crate) fn json_object_id(s: &str) -> (r: Option<String>)
    ensures
        r is Some <==> json_id_of(s@) is Some,
        r matches Some(id) ==> json_id_of(s@) == Some(id@),
{
    serde_json::from_str::<serde_json::Value>(s)
        .ok()
        .and_then(|v| v.get("id").and_then(|i| i.as_str()).map(|i| i.to_string()))
}

} // verus!
