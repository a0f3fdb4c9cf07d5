//! The wall clock, and the reading of written times.

use crate::types::opt_text;
use vstd::prelude::*;

verus! {

/// The present time in UTC, in milliseconds since the Unix epoch.
///
/// Trusted: calls `chrono::Utc::now` and reads the result with
/// `timestamp_millis`. Nothing is claimed of the number, which depends on
/// when the call is made.
#[verifier::external_body]
pub(crate) fn utc_now_millis() -> (ms: i64) {
    chrono::Utc::now().timestamp_millis()
}

/// The RFC 3339 writing of the time that `timestamp` writes in RFC 3339,
/// as chrono reads and writes it; `None` where chrono does not read
/// `timestamp` so.
pub uninterp spec fn rfc3339_form(timestamp: Seq<char>) -> Option<Seq<char>>;

/// The RFC 3339 writing of the time that `timestamp` writes in the
/// strftime format `format`, as chrono reads and writes it; `None` where
/// chrono does not read `timestamp` so.
pub uninterp spec fn formatted_form(timestamp: Seq<char>, format: Seq<char>) -> Option<Seq<char>>;

/// The RFC 3339 writing, in UTC, of the time that `timestamp` writes in
/// the relaxed RFC 3339 that chrono reads from a string; `None` where
/// chrono does not read `timestamp` so.
pub uninterp spec fn relaxed_form(timestamp: Seq<char>) -> Option<Seq<char>>;

/// Reads a time written in RFC 3339 and writes it again in RFC 3339.
///
/// Trusted: parses with `chrono::DateTime::parse_from_rfc3339` and writes
/// the result with `DateTime::to_rfc3339`. What comes out depends on the
/// text alone.
#[verifier::external_body]
pub(crate) fn reformat_rfc3339(timestamp: &str) -> (r: Option<String>)
    ensures
        opt_text(r) == rfc3339_form(timestamp@),
{
    match chrono::DateTime::parse_from_rfc3339(timestamp) {
        Ok(time) => Some(time.to_rfc3339()),
        Err(_) => None,
    }
}

/// Reads a time written in the strftime format `format`, which must hold
/// a time zone, and writes it in RFC 3339.
///
/// Trusted: parses with `chrono::DateTime::parse_from_str` and writes the
/// result with `DateTime::to_rfc3339`. What comes out depends on the two
/// texts alone.
#[verifier::external_body]
pub(crate) fn reformat_with(timestamp: &str, format: &str) -> (r: Option<String>)
    ensures
        opt_text(r) == formatted_form(timestamp@, format@),
{
    match chrono::DateTime::parse_from_str(timestamp, format) {
        Ok(time) => Some(time.to_rfc3339()),
        Err(_) => None,
    }
}

/// Reads a time written in relaxed RFC 3339 as a time in UTC and writes
/// it in RFC 3339.
///
/// Trusted: parses with the `FromStr` of `chrono::DateTime<Utc>` and
/// writes the result with `DateTime::to_rfc3339`. What comes out depends
/// on the text alone.
#[verifier::external_body]
pub(crate) fn reformat_relaxed(timestamp: &str) -> (r: Option<String>)
    ensures
        opt_text(r) == relaxed_form(timestamp@),
{
    match timestamp.parse::<chrono::DateTime<chrono::Utc>>() {
        Ok(time) => Some(time.to_rfc3339()),
        Err(_) => None,
    }
}

} // verus!
