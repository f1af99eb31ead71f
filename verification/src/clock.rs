//! The system clock, read through `chrono`.

use vstd::prelude::*;

verus! {

/// Whether `c` is one of the digits `0` to `9`.
pub open spec fn is_digit(c: char) -> bool {
    '0' <= c <= '9'
}

/// Whether `label` is a time of day written as `HH:MM`.
pub open spec fn is_time_label(label: Seq<char>) -> bool {
    &&& label.len() == 5
    &&& is_digit(label[0])
    &&& is_digit(label[1])
    &&& label[2] == ':'
    &&& is_digit(label[3])
    &&& is_digit(label[4])
}

/// The current time in UTC, in milliseconds since the start of 1970.
///
/// Trusted: calls `chrono::Utc::now` and `DateTime::timestamp_millis`. Nothing is claimed
/// of the value, which differs from call to call. `chrono` expects the system clock not to
/// stand before 1970.
#[verifier::external_body]
pub(crate) fn utc_now_millis() -> i64 {
    chrono::Utc::now().timestamp_millis()
}

/// The current local time of day, as `HH:MM`.
///
/// Trusted: calls `chrono::Local::now` and formats the result with `DateTime::format` and
/// the pattern `%H:%M`, for which `chrono` documents a two-digit hour, a colon and a
/// two-digit minute. Only that shape is claimed, not which time it is.
#[verifier::external_body]
pub(crate) fn local_time_label() -> (label: String)
    ensures
        is_time_label(label@),
{
    chrono::Local::now().format("%H:%M").to_string()
}

} // verus!
