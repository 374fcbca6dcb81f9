//! Calls into the standard library and outside crates whose behaviour the
//! library relies on without proving it. Each item states what it claims.

use crate::json::{json_valid, Json};
use vstd::prelude::*;

verus! {

/// What `str::to_lowercase` returns: the full Unicode lower-case mapping.
pub uninterp spec fn unicode_lowercase(s: Seq<char>) -> Seq<char>;

/// Calls `str::to_lowercase`. Claims only that the result is the lower-case
/// mapping of the argument, a function of the argument alone.
#[verifier::external_body]
pub(crate) fn to_lowercase(s: &str) -> (r: String)
    ensures
        r@ == unicode_lowercase(s@),
{
    s.to_lowercase()
}

/// Calls `String::push`. Claims what its documentation says: the character
/// is appended to the string.
#[verifier::external_body]
pub(crate) fn push_char(s: &mut String, c: char)
    ensures
        final(s)@ == old(s)@.push(c),
{
    s.push(c);
}

/// `std::time::SystemTime`, carried through unread.
#[verifier::external_type_specification]
#[verifier::external_body]
pub struct ExSystemTime(std::time::SystemTime);

/// Calls `SystemTime::now`. Nothing is claimed of the reading.
#[verifier::external_body]
pub(crate) fn system_now() -> std::time::SystemTime {
    std::time::SystemTime::now()
}

/// Calls `SystemTime::duration_since` with `UNIX_EPOCH`, which fails where the
/// reading is earlier than the epoch; that failure is passed on as `None`.
/// Nothing is claimed of the duration: it comes from the clock.
#[verifier::external_body]
pub(crate) fn since_unix_epoch(t: &std::time::SystemTime) -> Option<core::time::Duration> {
    t.duration_since(std::time::UNIX_EPOCH).ok()
}

/// Calls `SystemTime::duration_since` on `UNIX_EPOCH` with the reading, which
/// succeeds where the reading is at or before the epoch; the failure is passed
/// on as `None`. Nothing is claimed of the duration: it comes from the clock.
#[verifier::external_body]
pub(crate) fn before_unix_epoch(t: &std::time::SystemTime) -> Option<core::time::Duration> {
    std::time::UNIX_EPOCH.duration_since(*t).ok()
}

/// Calls `Duration::as_micros`, the whole microseconds in the duration.
/// Nothing is claimed of the value: the duration is opaque here.
#[verifier::external_body]
pub(crate) fn duration_micros(d: &core::time::Duration) -> u128 {
    d.as_micros()
}

/// What `DateTime::<Utc>::to_rfc2822` writes for the instant `micros`
/// microseconds after the Unix epoch.
pub uninterp spec fn rfc2822_text(micros: i64) -> Seq<char>;

/// Calls `DateTime::from_timestamp_micros` and `to_rfc2822`. The first
/// returns `None` only more than 262,000 years away from the epoch, and the
/// second panics only for years outside 0 to 9999, which `requires` leaves out
/// (the bounds are the first microsecond of the year 0 and the last of 9999).
/// Claims that the text is there and is the named rendering of the instant.
#[verifier::external_body]
pub(crate) fn rfc2822_at(micros: i64) -> (r: Option<String>)
    requires
        -62167219200000000 <= micros <= 253402300799999999,
    ensures
        r is Some,
        r matches Some(s) ==> s@ == rfc2822_text(micros),
{
    match chrono::DateTime::from_timestamp_micros(micros) {
        Some(t) => Some(t.to_rfc2822()),
        None => None,
    }
}

/// What `DateTime::<Utc>::to_rfc3339_opts(SecondsFormat::Secs, true)` writes
/// for the instant `micros` microseconds after the Unix epoch.
pub uninterp spec fn rfc3339_text(micros: i64) -> Seq<char>;

/// Calls `DateTime::from_timestamp_micros` and
/// `to_rfc3339_opts(SecondsFormat::Secs, true)`. Claims that the text is
/// there for instants within the years 0 to 9999 (the first call fails only
/// more than 262,000 years away from the epoch) and that it is the named
/// rendering of the instant.
#[verifier::external_body]
pub(crate) fn rfc3339_at(micros: i64) -> (r: Option<String>)
    ensures
        -62167219200000000 <= micros <= 253402300799999999 ==> r is Some,
        r matches Some(s) ==> s@ == rfc3339_text(micros),
{
    match chrono::DateTime::from_timestamp_micros(micros) {
        Some(t) => Some(t.to_rfc3339_opts(chrono::SecondsFormat::Secs, true)),
        None => None,
    }
}

/// What `<str as Debug>::fmt` writes: the text in double quotes with quotes,
/// backslashes and control characters escaped.
pub uninterp spec fn debug_str(s: Seq<char>) -> Seq<char>;

/// Formats `s` with `{:?}`. Claims only that the result is the debug
/// rendering of the argument, a function of the argument alone.
#[verifier::external_body]
pub(crate) fn debug_quoted(s: &str) -> (r: String)
    ensures
        r@ == debug_str(s@),
{
    format!("{:?}", s)
}

/// What `base64::engine::general_purpose::URL_SAFE` decodes `input` to, or
/// `None` where the engine rejects it.
pub uninterp spec fn base64_url_decoded(input: Seq<u8>) -> Option<Seq<u8>>;

/// Calls `Engine::decode` on the URL-safe engine. Claims that it succeeds
/// exactly where the named decoding is defined and then returns it; the error
/// is passed on as its message, of which nothing is claimed.
#[verifier::external_body]
pub(crate) fn base64_url_decode(input: &[u8]) -> (r: Result<Vec<u8>, String>)
    ensures
        r is Ok <==> base64_url_decoded(input@) is Some,
        r matches Ok(v) ==> v@ == base64_url_decoded(input@)->0,
{
    base64::Engine::decode(&base64::engine::general_purpose::URL_SAFE, input).map_err(|e| e.to_string())
}

/// The character of the URL-safe base64 alphabet for the six-bit value `v`.
pub open spec fn url_safe_digit(v: int) -> char {
    if v < 26 {
        (65 + v) as char
    } else if v < 52 {
        (71 + v) as char
    } else if v < 62 {
        (v - 4) as char
    } else if v == 62 {
        '-'
    } else {
        '_'
    }
}

/// URL-safe base64 without padding: each group of three bytes becomes four
/// characters, a final pair three, a final byte two.
pub open spec fn base64_url_nopad(input: Seq<u8>) -> Seq<char>
    decreases input.len(),
{
    if input.len() == 0 {
        Seq::empty()
    } else if input.len() == 1 {
        seq![url_safe_digit((input[0] as int) / 4), url_safe_digit(((input[0] as int) % 4) * 16)]
    } else if input.len() == 2 {
        seq![
            url_safe_digit((input[0] as int) / 4),
            url_safe_digit(((input[0] as int) % 4) * 16 + (input[1] as int) / 16),
            url_safe_digit(((input[1] as int) % 16) * 4),
        ]
    } else {
        seq![
            url_safe_digit((input[0] as int) / 4),
            url_safe_digit(((input[0] as int) % 4) * 16 + (input[1] as int) / 16),
            url_safe_digit(((input[1] as int) % 16) * 4 + (input[2] as int) / 64),
            url_safe_digit((input[2] as int) % 64),
        ] + base64_url_nopad(input.skip(3))
    }
}

/// Calls `Engine::encode` on the unpadded URL-safe engine. Claims that the
/// result is the encoding its documentation describes (RFC 4648's URL-safe
/// alphabet, no `=` padding), as stated above.
#[verifier::external_body]
pub(crate) fn base64_url_encode(input: &[u8]) -> (r: String)
    ensures
        r@ == base64_url_nopad(input@),
{
    base64::Engine::encode(&base64::engine::general_purpose::URL_SAFE_NO_PAD, input)
}

/// What `String::from_utf8_lossy` yields for `bytes`.
pub uninterp spec fn utf8_lossy(bytes: Seq<u8>) -> Seq<char>;

/// Calls `String::from_utf8_lossy`. Claims that the result is the named
/// decoding, and, as the documentation says, that well-formed UTF-8 decodes to
/// exactly the characters it encodes.
#[verifier::external_body]
pub(crate) fn from_utf8_lossy(bytes: &[u8]) -> (r: String)
    ensures
        r@ == utf8_lossy(bytes@),
        vstd::utf8::valid_utf8(bytes@) ==> r@ == vstd::utf8::decode_utf8(bytes@),
{
    String::from_utf8_lossy(bytes).into_owned()
}

/// `serde_json::Value`, carried through unread.
#[verifier::external_type_specification]
#[verifier::external_body]
pub struct ExJsonValue(serde_json::Value);

/// What `serde_json::from_str::<serde_json::Value>` reads `text` as, node for
/// node in the library's tree; `None` where it fails.
pub uninterp spec fn json_document(text: Seq<char>) -> Option<Json>;

/// Calls `serde_json::from_str::<serde_json::Value>`. Claims that it succeeds
/// exactly where the text is a JSON document as serde_json reads it. The value
/// itself is opaque here; `parse_json_tree` gives the same document as a tree.
/// The error is passed on as its message, of which nothing is claimed.
#[verifier::external_body]
pub(crate) fn parse_json(text: &str) -> (r: Result<serde_json::Value, String>)
    ensures
        r is Ok <==> json_valid(text@),
{
    serde_json::from_str::<serde_json::Value>(text).map_err(|e| e.to_string())
}

/// Copies a serde_json value into the library's tree, one node for each node:
/// null, booleans and strings as they are, a number as the text its
/// `to_string` writes, arrays item by item, objects member by member in the
/// map's order. It is the conversion that `parse_json_tree` relies on.
#[verifier::external_body]
fn json_tree(value: &serde_json::Value) -> Json {
    match value {
        serde_json::Value::Null => Json::Null,
        serde_json::Value::Bool(b) => Json::Bool(*b),
        serde_json::Value::Number(n) => Json::Number(n.to_string()),
        serde_json::Value::String(s) => Json::Str(s.clone()),
        serde_json::Value::Array(items) => Json::Array(items.iter().map(json_tree).collect()),
        serde_json::Value::Object(map) => Json::Object(map.iter().map(|(k, v)| (k.clone(), json_tree(v))).collect()),
    }
}

/// Calls `serde_json::from_str::<serde_json::Value>` and copies the value into
/// the library's tree. Claims that the result is the named document of the
/// text.
#[verifier::external_body]
pub(crate) fn parse_json_tree(text: &str) -> (r: Option<Json>)
    ensures
        r == json_document(text@),
{
    match serde_json::from_str::<serde_json::Value>(text) {
        Ok(value) => Some(json_tree(&value)),
        Err(_) => None,
    }
}

/// What `Value::to_string` writes (compact JSON) for the document serde_json
/// reads `text` as.
pub uninterp spec fn json_compact_of(text: Seq<char>) -> Seq<char>;

/// Parses `text` with serde_json and writes the value back with `to_string`.
/// Claims that this succeeds exactly where the text is JSON and that the
/// result is then the named rendering of the text.
#[verifier::external_body]
pub(crate) fn json_compact(text: &str) -> (r: Option<String>)
    ensures
        r is Some <==> json_valid(text@),
        r matches Some(s) ==> s@ == json_compact_of(text@),
{
    match serde_json::from_str::<serde_json::Value>(text) {
        Ok(value) => Some(value.to_string()),
        Err(_) => None,
    }
}

/// Calls `String::from_utf8`. Claims what its documentation says: it succeeds
/// exactly on well-formed UTF-8 and then holds the characters encoded. The
/// error is passed on as its message, of which nothing is claimed.
#[verifier::external_body]
pub(crate) fn string_from_utf8(bytes: Vec<u8>) -> (r: Result<String, String>)
    ensures
        r is Ok <==> vstd::utf8::valid_utf8(bytes@),
        r matches Ok(s) ==> s@ == vstd::utf8::decode_utf8(bytes@),
{
    String::from_utf8(bytes).map_err(|e| e.to_string())
}

} // verus!
