//! Moments in time as seconds since the Unix epoch, and the texts that
//! stand for them.

use vstd::prelude::*;

verus! {

/// `chrono::Utc::now`, as seconds since the Unix epoch. The clock decides,
/// so nothing is claimed of the result.
#[verifier::external_body]
pub(crate) fn now() -> (seconds: i64)
{
    chrono::Utc::now().timestamp()
}

/// The moment written after a `strftime` pattern, in UTC; `None` for a
/// moment outside the range of the calendar.
pub uninterp spec fn moment_text(seconds: i64, pattern: Seq<char>) -> Option<Seq<char>>;

/// The pattern for the name of a moment: year, month, day, hour, minute
/// and second, without separators.
pub open spec fn name_pattern() -> Seq<char> {
    "%Y%m%d%H%M%S"@
}

/// `chrono::DateTime::from_timestamp` and `format`. A pattern that chrono
/// does not understand makes the formatting fail, so only the pattern of
/// names is let in.
#[verifier::external_body]
fn format_moment(seconds: i64, pattern: &str) -> (text: Option<String>)
    requires
        pattern@ == name_pattern(),
    ensures
        match text {
            Some(t) => moment_text(seconds, pattern@) == Some(t@),
            None => moment_text(seconds, pattern@) is None,
        },
{
    chrono::DateTime::from_timestamp(seconds, 0).map(|t| t.format(pattern).to_string())
}

/// The name of a moment: its date and time without separators.
pub open spec fn moment_name(seconds: i64) -> Option<Seq<char>> {
    moment_text(seconds, name_pattern())
}

/// Writes the name of a moment.
pub fn name_of_moment(seconds: i64) -> (name: Option<String>)
    ensures
        match name {
            Some(text) => moment_name(seconds) == Some(text@),
            None => moment_name(seconds) is None,
        },
{
    format_moment(seconds, "%Y%m%d%H%M%S")
}

/// The moment in RFC 3339 form, in UTC; `None` for a moment outside the
/// range of the calendar.
pub uninterp spec fn moment_rfc3339(seconds: i64) -> Option<Seq<char>>;

/// `chrono::DateTime::from_timestamp` and `to_rfc3339`.
#[verifier::external_body]
pub(crate) fn rfc3339_of_moment(seconds: i64) -> (text: Option<String>)
    ensures
        match text {
            Some(t) => moment_rfc3339(seconds) == Some(t@),
            None => moment_rfc3339(seconds) is None,
        },
{
    chrono::DateTime::from_timestamp(seconds, 0).map(|t| t.to_rfc3339())
}

/// The moment that a text in RFC 3339 form names, in whole seconds; `None`
/// if the text is not in that form.
pub uninterp spec fn parsed_rfc3339(text: Seq<char>) -> Option<i64>;

/// `chrono::DateTime::parse_from_rfc3339` and `timestamp`.
#[verifier::external_body]
pub(crate) fn parse_moment(text: &str) -> (seconds: Option<i64>)
    ensures
        seconds == parsed_rfc3339(text@),
{
    chrono::DateTime::parse_from_rfc3339(text).ok().map(|t| t.timestamp())
}

} // verus!
