//! Wall-clock readings and timestamp parsing. Instants are milliseconds since
//! the Unix epoch.
use vstd::prelude::*;

verus! {

/// The instant that an RFC 3339 text denotes, if it is one.
pub uninterp spec fn rfc3339_millis_of(s: Seq<char>) -> Option<i64>;

/// Relies on `chrono::Utc::now` and `DateTime::timestamp_millis`: the current
/// instant. Nothing is promised of its value.
#[verifier::external_body]
pub(crate) fn now_millis() -> (r: i64) {
    chrono::Utc::now().timestamp_millis()
}

/// Relies on `chrono::Local::now` and `DateTime::to_rfc3339`: the current
/// local time as RFC 3339 text. Nothing is promised of its value.
#[verifier::external_body]
pub(crate) fn now_rfc3339() -> (r: String) {
    chrono::Local::now().to_rfc3339()
}

/// Relies on `chrono::DateTime::parse_from_rfc3339` and
/// `DateTime::timestamp_millis`: the instant that the text denotes, or `None`
/// where the text is not RFC 3339.
#[verifier::external_body]
pub(crate) fn rfc3339_millis(s: &str) -> (r: Option<i64>)
    ensures
        r == rfc3339_millis_of(s@),
{
    chrono::DateTime::parse_from_rfc3339(s).ok().map(|t| t.timestamp_millis())
}

} // verus!
