//! Epoch seconds as calendar text.
//!
//! The calendar arithmetic is chrono's. A moment is always read as UTC, so
//! the text does not depend on where the program runs.

use chrono::TimeZone;
use chrono::Utc;
use vstd::prelude::*;
use vstd::string::*;

verus! {

/// The calendar text that chrono writes for a moment given in epoch seconds,
/// read as UTC and laid out by a `strftime` pattern; `None` where the moment
/// lies outside the years that chrono can hold.
pub uninterp spec fn utc_text(seconds: i64, pattern: Seq<char>) -> Option<Seq<char>>;

/// The layout of the capture date in a still image: `YYYY:MM:DD HH:MM:SS`.
pub open spec fn capture_date_pattern() -> Seq<char> {
    "%Y:%m:%d %H:%M:%S"@
}

/// The layout of the creation time in a video: `YYYY-MM-DDTHH:MM:SS`.
pub open spec fn creation_time_pattern() -> Seq<char> {
    "%Y-%m-%dT%H:%M:%S"@
}

/// Writes a moment as calendar text with chrono: `TimeZone::timestamp_opt` on
/// `Utc` makes the moment, `DateTime::format` lays it out.
///
/// Not proved: that the text depends on the seconds and the pattern alone,
/// and that nothing comes back exactly where chrono cannot hold the moment.
/// The two patterns that are let in hold no specifier that chrono rejects.
#[verifier::external_body]
pub(crate) fn format_utc(seconds: i64, pattern: &str) -> (text: Option<String>)
    requires
        pattern@ == capture_date_pattern() || pattern@ == creation_time_pattern(),
    ensures
        text.deep_view() == utc_text(seconds, pattern@),
{
    match Utc.timestamp_opt(seconds, 0).single() {
        Some(moment) => Some(moment.format(pattern).to_string()),
        None => None,
    }
}

/// The capture date of a still image for a moment in epoch seconds, or
/// nothing where the moment is out of the calendar's range.
pub fn capture_date(seconds: i64) -> (text: Option<String>)
    ensures
        text.deep_view() == utc_text(seconds, capture_date_pattern()),
{
    format_utc(seconds, "%Y:%m:%d %H:%M:%S")
}

/// The creation time of a video for a moment in epoch seconds, or nothing
/// where the moment is out of the calendar's range.
pub fn creation_time(seconds: i64) -> (text: Option<String>)
    ensures
        text.deep_view() == utc_text(seconds, creation_time_pattern()),
{
    format_utc(seconds, "%Y-%m-%dT%H:%M:%S")
}

} // verus!
