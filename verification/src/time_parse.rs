//! Reading the gateway's timestamps: internet date-time text to an instant.

use crate::timestamp::{representable, Timestamp};
use time::format_description::well_known::Rfc3339;
use time::OffsetDateTime;
use vstd::prelude::*;

verus! {

/// What the `time` crate reads from an internet date-time text: the Unix
/// second and the nanosecond within it, or `None` when the text is not a
/// date-time in that format.
pub uninterp spec fn rfc3339_reading(text: Seq<char>) -> Option<(i64, u32)>;

/// Calls `time::OffsetDateTime::parse` with the `Rfc3339` format and, where
/// it succeeds, takes `unix_timestamp()` and `nanosecond()` of the value.
///
/// Trusted: the result is a function of the text alone, named
/// `rfc3339_reading`; nothing is claimed about which texts are accepted.
#[verifier::external_body]
fn read_rfc3339(s: &str) -> (r: Option<(i64, u32)>)
    ensures
        r == rfc3339_reading(s@),
{
    match OffsetDateTime::parse(s, &Rfc3339) {
        Ok(moment) => Some((moment.unix_timestamp(), moment.nanosecond())),
        Err(_) => None,
    }
}

/// The instant that a reading stands for, in nanoseconds from the epoch:
/// none for an unreadable text, none for an instant out of range.
pub open spec fn instant_of_reading(reading: Option<(i64, u32)>) -> Option<int> {
    match reading {
        Some((secs, nanos)) => if representable(secs * 1_000_000_000 + nanos) {
            Some(secs * 1_000_000_000 + nanos)
        } else {
            None
        },
        None => None,
    }
}

/// The instant a timestamp holds, where there is one.
pub open spec fn instant_of(t: Option<Timestamp>) -> Option<int> {
    match t {
        Some(t) => Some(t@),
        None => None,
    }
}

/// Turns a reading into a timestamp. An unreadable text gives no timestamp,
/// never a made-up one; neither does an instant that cannot be held.
pub fn timestamp_from_reading(reading: Option<(i64, u32)>) -> (r: Option<Timestamp>)
    ensures
        instant_of(r) == instant_of_reading(reading),
{
    match reading {
        Some((secs, nanos)) => Timestamp::from_unix(secs, nanos),
        None => None,
    }
}

/// Parses an internet date-time text, fractional seconds optional, into an
/// instant with nanosecond precision.
pub fn parse_rfc3339_system_time(s: &str) -> (r: Option<Timestamp>)
    ensures
        instant_of(r) == instant_of_reading(rfc3339_reading(s@)),
{
    timestamp_from_reading(read_rfc3339(s))
}

} // verus!
