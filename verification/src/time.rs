//! Points in time, as session lists show them.

use vstd::prelude::*;

use crate::text::optional;
use crate::updates::text_or;

verus! {

/// The RFC 3339 text of the point in time so many seconds after the start of 1970, in UTC: none
/// for a year that the calendar does not reach.
pub uninterp spec fn rfc3339(seconds: i64) -> Option<Seq<char>>;

/// `chrono::DateTime::from_timestamp` with no fraction of a second, rendered with
/// `chrono::DateTime::to_rfc3339`. The calendar reaches from the start of the year -262143 to the
/// end of the year 262142. Of the texts themselves only that of the start of 1970 is spelled out.
#[verifier::external_body]
fn utc_text(seconds: i64) -> (text: Option<String>)
    ensures
        optional(text) == rfc3339(seconds),
        text is Some <==> -8_334_601_228_800 <= seconds <= 8_210_266_876_799,
        seconds == 0 ==> optional(text) == Some("1970-01-01T00:00:00+00:00"@),
{
    chrono::DateTime::from_timestamp(seconds, 0).map(|time| time.to_rfc3339())
}

/// The text, or that of the start of 1970 where there is none.
pub fn or_epoch(text: Option<String>) -> (result: String)
    ensures
        result@ == text_or(optional(text), "1970-01-01T00:00:00+00:00"@),
{
    match text {
        Some(text) => text,
        None => "1970-01-01T00:00:00+00:00".to_owned(),
    }
}

/// The point in time so many seconds after the start of 1970; where the calendar does not reach
/// it, the start of 1970.
pub fn timestamp(seconds: i64) -> (text: String)
    ensures
        text@ == text_or(rfc3339(seconds), "1970-01-01T00:00:00+00:00"@),
        rfc3339(seconds) is Some <==> -8_334_601_228_800 <= seconds <= 8_210_266_876_799,
        seconds == 0 ==> text@ == "1970-01-01T00:00:00+00:00"@,
{
    or_epoch(utc_text(seconds))
}

} // verus!
