//! Points in time read from RFC 3339 text.
use chrono::{Datelike, Timelike};
use vstd::prelude::*;

verus! {

/// A point in time with the UTC offset that its text gave, held as the
/// calendar and clock fields of local time.
#[derive(Debug, Clone, Copy, PartialEq, Eq, Structural)]
pub struct Timestamp {
    pub year: i32,
    pub month: u32,
    pub day: u32,
    pub hour: u32,
    pub minute: u32,
    pub second: u32,
    /// Nanoseconds past the second; from one billion on, a leap second.
    pub nanosecond: u32,
    /// Seconds that local time is ahead of UTC.
    pub offset_seconds: i32,
}

impl Timestamp {
    /// The ranges that each field keeps.
    pub open spec fn wf(&self) -> bool {
        &&& 1 <= self.month <= 12
        &&& 1 <= self.day <= 31
        &&& self.hour < 24
        &&& self.minute < 60
        &&& self.second < 60
        &&& self.nanosecond < 2_000_000_000
        &&& -86_400 < self.offset_seconds < 86_400
    }
}

#[verifier::external_type_specification]
#[verifier::external_body]
pub struct ExParseError(chrono::ParseError);

/// The point in time that RFC 3339 text `s` denotes, with its own offset,
/// or `None` where `s` is no RFC 3339 timestamp.
pub uninterp spec fn rfc3339_value(s: Seq<char>) -> Option<Timestamp>;

/// Relies on chrono's `DateTime::parse_from_rfc3339`, whose outcome depends
/// on the text alone and which keeps the offset that the text gives, and on
/// the ranges of chrono's `Datelike`, `Timelike` and `FixedOffset` getters.
#[verifier::external_body]
pub(crate) fn parse_rfc3339(s: &str) -> (r: Result<Timestamp, chrono::ParseError>)
    ensures
        match r {
            Ok(t) => rfc3339_value(s@) == Some(t) && t.wf(),
            Err(_) => rfc3339_value(s@) is None,
        },
{
    match chrono::DateTime::parse_from_rfc3339(s) {
        Ok(d) => Ok(Timestamp {
            year: d.year(),
            month: d.month(),
            day: d.day(),
            hour: d.hour(),
            minute: d.minute(),
            second: d.second(),
            nanosecond: d.nanosecond(),
            offset_seconds: d.offset().local_minus_utc(),
        }),
        Err(e) => Err(e),
    }
}

} // verus!
