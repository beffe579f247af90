//! Trusted bindings to the `uuid` and `time` crates.
//!
//! Each function here is believed, not verified: its contract states what
//! the named outside function is documented to do, and the rest of the
//! library is verified against these contracts alone.

use vstd::prelude::*;

use crate::domain::timestamp::Timestamp;

verus! {

/// The value parsed from a textual UUID, if the text is one of the
/// encodings `uuid::Uuid::parse_str` accepts; the outcome is a function of
/// the characters alone.
pub uninterp spec fn uuid_of_str(s: Seq<char>) -> Option<u128>;

/// The canonical hyphenated text of a 128-bit UUID value; a function of
/// the value alone.
pub uninterp spec fn str_of_uuid(id: u128) -> Seq<char>;

/// Whether a seconds-since-epoch value lies in the range that
/// `time::OffsetDateTime` supports; a fixed function of the value.
pub uninterp spec fn odt_in_range(seconds: int) -> bool;

/// Relies on `uuid::Uuid::parse_str` to read a textual UUID;
/// `Uuid::as_u128` converts the parsed value to its 128-bit form.
#[verifier::external_body]
pub(crate) fn parse_uuid(s: &str) -> (r: Option<u128>)
    ensures
        r == uuid_of_str(s@),
{
    match uuid::Uuid::parse_str(s) {
        Ok(u) => Some(u.as_u128()),
        Err(_) => None,
    }
}

/// Relies on `uuid::Uuid`'s `Display`, the canonical hyphenated encoding;
/// `Uuid::from_u128` converts the argument.
#[verifier::external_body]
pub(crate) fn uuid_to_string(id: u128) -> (r: String)
    ensures
        r@ == str_of_uuid(id),
{
    uuid::Uuid::from_u128(id).to_string()
}

/// Relies on `uuid::Uuid::new_v4`: a randomly generated identifier, of
/// which nothing is promised.
#[verifier::external_body]
pub(crate) fn new_uuid() -> (r: u128) {
    uuid::Uuid::new_v4().as_u128()
}

/// Relies on `time::OffsetDateTime::now_utc` for the current instant;
/// `unix_timestamp` and `nanosecond` convert it to plain values, and
/// `nanosecond` is documented to stay below one billion.
#[verifier::external_body]
pub(crate) fn now_utc() -> (r: Timestamp)
    ensures
        r.wf(),
{
    let t = time::OffsetDateTime::now_utc();
    Timestamp { seconds: t.unix_timestamp(), nanos: t.nanosecond() }
}

/// Relies on `time::OffsetDateTime::from_unix_timestamp`, which succeeds
/// exactly when the seconds value lies in the supported date range.
#[verifier::external_body]
pub(crate) fn timestamp_in_range(seconds: i64) -> (r: bool)
    ensures
        r == odt_in_range(seconds as int),
{
    time::OffsetDateTime::from_unix_timestamp(seconds).is_ok()
}

} // verus!
