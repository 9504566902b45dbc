//! Time stamps of file headers as calendar text.

use crate::text::free_of;
use chrono::{TimeZone, Utc};
use vstd::prelude::*;

verus! {

/// The calendar text that chrono gives for a moment counted in milliseconds
/// since the start of 1970, in UTC: year, month and day with hyphens, a
/// space, then hour, minute and second with colons.
pub uninterp spec fn utc_calendar_text(millis: i64) -> Seq<char>;

/// Largest count of milliseconds that a header's 32-bit count of seconds
/// can stand for.
pub const MAX_STAMP_MILLIS: i64 = 4_294_967_295_000;

/// Calls chrono's `Utc.timestamp_millis_opt` and formats the moment with
/// `%Y-%m-%d %H:%M:%S`. Believed of chrono: the text depends on the count of
/// milliseconds alone, and holds digits, hyphens, colons and one space, so
/// no comma. The range asked for keeps the moment well inside what chrono
/// can represent, so the call returns a single moment.
#[verifier::external_body]
fn utc_calendar(millis: i64) -> (s: String)
    requires
        0 <= millis <= MAX_STAMP_MILLIS,
    ensures
        s@ == utc_calendar_text(millis),
        free_of(s@, ','),
{
    Utc.timestamp_millis_opt(millis).unwrap().format("%Y-%m-%d %H:%M:%S").to_string()
}

/// Milliseconds since the start of 1970 for a header's count of seconds.
pub open spec fn stamp_millis(seconds: u32) -> i64 {
    (seconds as i64 * 1000) as i64
}

/// The suffix that marks a time stamp as UTC.
pub open spec fn utc_suffix() -> Seq<char> {
    seq![' ', 'U', 'T', 'C']
}

/// What a row shows for a header's time stamp: the calendar text of the
/// moment, then ` UTC`.
pub open spec fn timestamp_field(seconds: u32) -> Seq<char> {
    utc_calendar_text(stamp_millis(seconds)) + utc_suffix()
}

/// Sets the UTC suffix behind a calendar text.
pub fn with_utc_suffix(calendar: String) -> (s: String)
    ensures
        s@ == calendar@ + utc_suffix(),
{
    proof {
        reveal_strlit(" UTC");
    }
    assert(" UTC"@ =~= utc_suffix());
    let mut s = calendar;
    s.append(" UTC");
    s
}

/// Renders a header's time stamp, a count of seconds since the start of
/// 1970 taken as UTC, as calendar text with the suffix ` UTC`.
pub fn timestamp(seconds: u32) -> (s: String)
    ensures
        s@ == timestamp_field(seconds),
        free_of(s@, ','),
{
    let millis: i64 = seconds as i64 * 1000;
    let calendar = utc_calendar(millis);
    with_utc_suffix(calendar)
}

} // verus!
