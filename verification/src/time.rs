// Calendar time: RFC 3339 timestamps, read by chrono.

use vstd::prelude::*;

verus! {

/// The Unix time (seconds) that chrono reads from an RFC 3339 timestamp, or
/// `None` when chrono rejects the text.
pub uninterp spec fn rfc3339_seconds(text: Seq<char>) -> Option<i64>;

/// Calls `chrono::DateTime::parse_from_rfc3339` and, on success, its
/// `timestamp()`. The contract claims only that the result is a function of
/// the text (named `rfc3339_seconds`); what chrono accepts is not restated.
#[verifier::external_body]
pub(crate) fn parse_rfc3339_seconds(text: &str) -> (r: Option<i64>)
    ensures
        r == rfc3339_seconds(text@),
{
    match chrono::DateTime::parse_from_rfc3339(text) {
        Ok(dt) => Some(dt.timestamp()),
        Err(_) => None,
    }
}

} // verus!
