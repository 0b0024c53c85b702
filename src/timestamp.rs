use vstd::prelude::*;
use crate::error::AtiumError;

verus! {

/// The time of day that chrono reads from a text with the format
/// `%H:%M:%S`, as seconds since midnight and nanoseconds within the second;
/// `None` where the text does not have that format.
pub uninterp spec fn clock_time_of(s: Seq<char>) -> Option<(u32, u32)>;

/// Relies on `chrono::NaiveTime::parse_from_str` with the format `%H:%M:%S`,
/// read back through `Timelike::num_seconds_from_midnight` and
/// `Timelike::nanosecond`, the two fields that order a `NaiveTime`.
#[verifier::external_body]
fn parse_clock_time(s: &str) -> (r: Option<(u32, u32)>)
    ensures
        r == clock_time_of(s@),
{
    chrono::NaiveTime::parse_from_str(s, "%H:%M:%S").ok().map(
        |t| (chrono::Timelike::num_seconds_from_midnight(&t), chrono::Timelike::nanosecond(&t)),
    )
}

/// `a` comes strictly before `b` in the day, comparing seconds and then
/// nanoseconds, as `NaiveTime` orders its values.
pub open spec fn earlier(a: (u32, u32), b: (u32, u32)) -> bool {
    a.0 < b.0 || (a.0 == b.0 && a.1 < b.1)
}

/// The timestamp used when the requested one is not before the end.
pub open spec fn start_of_media() -> Seq<char> {
    "00:00:00.000"@
}

/// What validation yields: the requested timestamp where it lies before the
/// duration, the start of the media otherwise, and an error where either
/// time is missing.
pub open spec fn timestamp_choice(
    requested: Seq<char>,
    requested_time: Option<(u32, u32)>,
    duration_time: Option<(u32, u32)>,
) -> Option<Seq<char>> {
    match (requested_time, duration_time) {
        (Some(t), Some(d)) => Some(
            if earlier(t, d) {
                requested
            } else {
                start_of_media()
            },
        ),
        _ => None,
    }
}

/// Chooses the extraction timestamp from the requested one and the times
/// read from it and from the media's duration.
pub fn choose_timestamp(
    requested: String,
    requested_time: Option<(u32, u32)>,
    duration_time: Option<(u32, u32)>,
) -> (r: Result<String, AtiumError>)
    ensures
        match timestamp_choice(requested@, requested_time, duration_time) {
            Some(t) => r is Ok && r->Ok_0@ == t,
            None => r == Err::<String, AtiumError>(AtiumError::InvalidTimestamp),
        },
{
    match (requested_time, duration_time) {
        (Some(t), Some(d)) => {
            if t.0 < d.0 || (t.0 == d.0 && t.1 < d.1) {
                Ok(requested)
            } else {
                Ok(String::from_str("00:00:00.000"))
            }
        },
        _ => Err(AtiumError::InvalidTimestamp),
    }
}

/// Validates a requested `hh:mm:ss` timestamp against the media's `hh:mm:ss`
/// duration: it is kept where it lies before the end, replaced by
/// `00:00:00.000` otherwise; either text that is not a time fails.
pub fn validate_timestamp(requested: &String, duration: &String) -> (r: Result<String, AtiumError>)
    ensures
        match timestamp_choice(requested@, clock_time_of(requested@), clock_time_of(duration@)) {
            Some(t) => r is Ok && r->Ok_0@ == t,
            None => r == Err::<String, AtiumError>(AtiumError::InvalidTimestamp),
        },
        clock_time_of(requested@) is Some && clock_time_of(duration@) is Some && earlier(
            clock_time_of(requested@)->Some_0,
            clock_time_of(duration@)->Some_0,
        ) ==> r is Ok && r->Ok_0@ == requested@,
        clock_time_of(requested@) is Some && clock_time_of(duration@) is Some && !earlier(
            clock_time_of(requested@)->Some_0,
            clock_time_of(duration@)->Some_0,
        ) ==> r is Ok && r->Ok_0@ == start_of_media(),
{
    let requested_time = parse_clock_time(requested.as_str());
    let duration_time = parse_clock_time(duration.as_str());
    choose_timestamp(requested.clone(), requested_time, duration_time)
}

} // verus!
