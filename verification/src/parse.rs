use crate::time::Duration;
use vstd::prelude::*;

verus! {

/// The seconds and sub-second nanoseconds that the duration parser yields
/// for a string under this crate's settings (minute, hour and day units,
/// seconds by default), or `None` when the string is not a duration or
/// names a negative one. The result depends on the string alone.
pub uninterp spec fn spec_parse_duration(s: Seq<char>) -> Option<(u64, u32)>;

/// Relies on fundu's `DurationParser::parse`, configured with minute, hour
/// and day units and with negative input allowed, and on fundu's
/// `TryFrom<Duration>` conversion to `std::time::Duration`, which rejects a
/// negative result. The parse is a pure function of the string; the
/// nanosecond part of a `std::time::Duration` is below one second.
#[verifier::external_body]
fn parse_duration_raw(s: &str) -> (r: Option<(u64, u32)>)
    ensures
        r == spec_parse_duration(s@),
        r matches Some(p) ==> p.1 < 1_000_000_000,
{
    let units = [fundu::TimeUnit::Minute, fundu::TimeUnit::Hour, fundu::TimeUnit::Day];
    let parser = fundu::DurationParser::builder().time_units(&units).allow_negative().build();
    match parser.parse(s) {
        Ok(d) => match std::time::Duration::try_from(d) {
            Ok(sd) => Some((sd.as_secs(), sd.subsec_nanos())),
            Err(_) => None,
        },
        Err(_) => None,
    }
}

/// Parse a user-supplied duration string such as `7d` into a duration.
/// `None` when the string cannot be understood or names a negative
/// duration: such input cannot serve as an age threshold.
pub fn parse_time(time: &str) -> (r: Option<Duration>)
    ensures
        r is Some <==> spec_parse_duration(time@) is Some,
        r matches Some(d) ==> d.wf() && spec_parse_duration(time@) == Some((d.secs, d.nanos)),
{
    match parse_duration_raw(time) {
        Some((secs, nanos)) => Some(Duration::new(secs, nanos)),
        None => None,
    }
}

} // verus!
