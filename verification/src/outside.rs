//! The calls this library makes into other crates.
//!
//! Nothing in this file is proved. Each item states what the library takes
//! on trust from the crate named above it; the rest of the library is proved
//! from these statements alone.

use vstd::prelude::*;

verus! {

/// `serde_json::Value`: a JSON document, carried through unread.
#[verifier::external_type_specification]
#[verifier::external_body]
pub struct ExJsonValue(serde_json::Value);

/// `serde_json::Error`: why encoding or decoding of JSON failed.
#[verifier::external_type_specification]
#[verifier::external_body]
pub struct ExJsonError(serde_json::Error);

/// The compact JSON text that `serde_json::to_string` gives for a document,
/// or `None` where it reports an error.
pub uninterp spec fn json_text(value: serde_json::Value) -> Option<Seq<char>>;

/// A lower-case hexadecimal digit.
pub open spec fn is_lower_hex(c: char) -> bool {
    ('0' <= c && c <= '9') || ('a' <= c && c <= 'f')
}

/// The hyphenated form of a UUID: 36 characters, hyphens after the 8th, 12th,
/// 16th and 20th digit, lower-case hexadecimal digits elsewhere.
pub open spec fn is_hyphenated_uuid(s: Seq<char>) -> bool {
    &&& s.len() == 36
    &&& forall|i: int|
        0 <= i < 36 ==> if i == 8 || i == 13 || i == 18 || i == 23 {
            s[i] == '-'
        } else {
            is_lower_hex(#[trigger] s[i])
        }
}

/// Calls `serde_json::to_string` on a document. Claimed: the outcome depends
/// on the document alone, so it is the one that `json_text` names.
#[verifier::external_body]
pub(crate) fn encode_json(value: &serde_json::Value) -> (encoded: Result<String, serde_json::Error>)
    ensures
        match encoded {
            Ok(text) => json_text(*value) == Some(text@),
            Err(_) => json_text(*value).is_none(),
        },
{
    serde_json::to_string(value)
}

/// Formats a `serde_json::Error` through its `Display` impl. Nothing is
/// claimed of the message: an error that wraps one of the operating system
/// is worded by the machine it occurred on.
#[verifier::external_body]
pub(crate) fn json_error_message(error: &serde_json::Error) -> (message: String) {
    error.to_string()
}

/// Draws a random identifier with `uuid::Uuid::new_v4` and formats it
/// through the `Display` impl of `Uuid`. Claimed: the text is in hyphenated
/// form. Nothing is claimed of which identifier is drawn.
#[verifier::external_body]
pub(crate) fn random_uuid() -> (id: String)
    ensures
        is_hyphenated_uuid(id@),
{
    uuid::Uuid::new_v4().to_string()
}

/// Reads the clock with `chrono::Utc::now` and takes `DateTime::timestamp`
/// of it: whole seconds since the Unix epoch. Claimed: the count is not
/// negative, since `now` refuses a clock set before the epoch.
#[verifier::external_body]
pub(crate) fn unix_seconds_now() -> (seconds: i64)
    ensures
        seconds >= 0,
{
    chrono::Utc::now().timestamp()
}

} // verus!
