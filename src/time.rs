//! Instants as whole seconds since the Unix epoch, read from the feed's
//! station-local timestamps.

use vstd::prelude::*;

verus! {

/// The instant, in seconds since the Unix epoch, that chrono reads from `s`
/// under the format `fmt`, or `None` where chrono rejects it.
pub uninterp spec fn timestamp_of(s: Seq<char>, fmt: Seq<char>) -> Option<i64>;

/// Relies on chrono's `DateTime::parse_from_str` and `DateTime::timestamp`:
/// parses a date, time and offset under `fmt`, giving whole seconds since the
/// epoch; an error where the text does not match.
#[verifier::external_body]
pub(crate) fn parse_timestamp(s: &str, fmt: &str) -> (r: Option<i64>)
    ensures
        r == timestamp_of(s@, fmt@),
{
    chrono::DateTime::parse_from_str(s, fmt).ok().map(|d| d.timestamp())
}

/// The instant that a feed timestamp `YYYYMMDDHHMMSS` denotes, read as wall
/// clock time at the fixed offset UTC+9.
pub open spec fn feed_instant(s: Seq<char>) -> Option<i64> {
    timestamp_of(s + " +0900"@, "%Y%m%d%H%M%S %z"@)
}

/// Reads a feed timestamp `YYYYMMDDHHMMSS` at the fixed offset UTC+9.
pub fn parse_feed_time(s: &str) -> (r: Option<i64>)
    ensures
        r == feed_instant(s@),
{
    let mut text = String::from_str(s);
    text.append(" +0900");
    parse_timestamp(text.as_str(), "%Y%m%d%H%M%S %z")
}

/// The instant, in seconds since the Unix epoch, that chrono reads from an
/// RFC 3339 date-time, or `None` where chrono rejects it.
pub uninterp spec fn rfc3339_instant(s: Seq<char>) -> Option<i64>;

/// Relies on chrono's `DateTime::parse_from_rfc3339` and
/// `DateTime::timestamp`: whole seconds since the epoch; an error where the
/// text is not RFC 3339.
#[verifier::external_body]
pub(crate) fn parse_rfc3339(s: &str) -> (r: Option<i64>)
    ensures
        r == rfc3339_instant(s@),
{
    chrono::DateTime::parse_from_rfc3339(s).ok().map(|d| d.timestamp())
}

/// The text that chrono gives for the UTC instant `secs` under `fmt`, or
/// `None` where `secs` is outside chrono's range.
pub uninterp spec fn utc_text_of(secs: i64, fmt: Seq<char>) -> Option<Seq<char>>;

/// Relies on chrono's `DateTime::from_timestamp` and `DateTime::format`:
/// `None` where the instant is out of chrono's range, else the formatted
/// text. The format is restricted to one whose items chrono always renders.
#[verifier::external_body]
pub(crate) fn format_utc(secs: i64, fmt: &str) -> (r: Option<String>)
    requires
        fmt@ == "%Y%m%d%H%M%S"@,
    ensures
        crate::text::opt_view(r) == utc_text_of(secs, fmt@),
{
    chrono::DateTime::from_timestamp(secs, 0).map(|d| d.format(fmt).to_string())
}

} // verus!
