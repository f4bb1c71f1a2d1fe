use vstd::prelude::*;

use super::civil::CivilTime;
use super::duration::SignedDuration;
use super::span::Span;
use super::timestamp::{in_timestamp_range, Timestamp};
use jiff::tz::TimeZone;
use jiff::Error as JiffError;

verus! {

/// A time zone of the `jiff` crate; its rules are read from the time zone
/// database of the host, so the library treats it as opaque.
#[verifier::external_type_specification]
#[verifier::external_body]
pub struct ExTimeZone(jiff::tz::TimeZone);

/// The error type of the `jiff` crate.
#[verifier::external_type_specification]
#[verifier::external_body]
pub struct ExJiffError(JiffError);

/// `TimeZone::clone` gives back the same time zone.
pub assume_specification[ <jiff::tz::TimeZone as Clone>::clone ](tz: &TimeZone) -> (r: TimeZone)
    ensures
        r == *tz,
;

/// An instant seen in a time zone, as `jiff::Zoned` is: the instant and the
/// zone determine the civil date and time.
#[derive(Debug, Clone)]
pub struct ZonedTimestamp {
    pub timestamp: Timestamp,
    pub time_zone: TimeZone,
}

/// Rounding direction used when aligning a zoned instant to a number of
/// minutes.
#[derive(Debug, Clone, Copy, PartialEq, Eq, Structural)]
pub enum RoundingDirection {
    /// Round away from zero (up, for instants after year 0).
    Expand,
    /// Round toward zero (down, for instants after year 0).
    Truncate,
}

/// The unit a zoned instant is rounded to.
#[derive(Debug, Clone, Copy, PartialEq, Eq, Structural)]
pub enum RoundingUnit {
    Minute,
    Hour,
}

/// Whether `jiff` accepts rounding a zoned datetime to `increment` units:
/// the increment must divide the next larger unit (an hour for minutes, a
/// day for hours) and be less than it.
pub open spec fn valid_round_increment(unit: RoundingUnit, increment: int) -> bool {
    match unit {
        RoundingUnit::Minute => 0 < increment < 60 && 60int % increment == 0,
        RoundingUnit::Hour => 0 < increment < 24 && 24int % increment == 0,
    }
}

/// Calls `jiff::tz::TimeZone::get`: looks `name` up in the time zone
/// database of the host. Nothing is stated of the result, which depends on
/// that database.
#[verifier::external_body]
pub(crate) fn time_zone_get(name: &str) -> (r: Result<TimeZone, JiffError>) {
    TimeZone::get(name)
}

/// Calls `jiff::civil::Time::new`: it succeeds exactly when every field is
/// in range, and then holds the given fields.
#[verifier::external_body]
pub(crate) fn civil_time_new(hour: i8, minute: i8, second: i8, subsec_nanosecond: i32) -> (r: Result<
    CivilTime,
    JiffError,
>)
    ensures
        r is Ok <==> (CivilTime { hour, minute, second, subsec_nanosecond }).wf(),
        r matches Ok(t) ==> t == (CivilTime { hour, minute, second, subsec_nanosecond }),
{
    let t = jiff::civil::Time::new(hour, minute, second, subsec_nanosecond)?;
    Ok(CivilTime {
        hour: t.hour(),
        minute: t.minute(),
        second: t.second(),
        subsec_nanosecond: t.subsec_nanosecond(),
    })
}

/// Calls `<jiff::SignedDuration as TryFrom<jiff::Span>>::try_from` on a
/// well-formed span: it succeeds exactly when the span has no calendar units,
/// and then gives the exact length of its clock units.
#[verifier::external_body]
pub(crate) fn span_to_duration(span: &Span) -> (r: Result<SignedDuration, JiffError>)
    requires
        span.wf(),
    ensures
        r is Ok <==> span.is_time_only(),
        r matches Ok(d) ==> d@ == span.time_nanos(),
{
    let s = jiff::Span::new().try_years(span.years)?.try_months(span.months)?.try_weeks(
        span.weeks,
    )?.try_days(span.days)?.try_hours(span.hours)?.try_minutes(span.minutes)?.try_seconds(
        span.seconds,
    )?.try_milliseconds(span.milliseconds)?.try_microseconds(span.microseconds)?.try_nanoseconds(
        span.nanoseconds,
    )?;
    let d = jiff::SignedDuration::try_from(s)?;
    Ok(SignedDuration { nanos: d.as_nanos() })
}

/// Calls `jiff::Zoned::checked_add` with a span. The time zone is kept. A
/// well-formed span without calendar units is added as an exact length of
/// time, which fails only when the sum is out of range; nothing more is
/// stated of spans with calendar units, which are added in civil time.
#[verifier::external_body]
pub(crate) fn zoned_checked_add(z: &ZonedTimestamp, span: &Span) -> (r: Result<ZonedTimestamp, JiffError>)
    ensures
        r matches Ok(w) ==> w.time_zone == z.time_zone,
        span.wf() && span.is_time_only() ==> (r is Ok <==> in_timestamp_range(
            z.timestamp@ + span.time_nanos(),
        )),
        span.wf() && span.is_time_only() ==> (r matches Ok(w) ==> w.timestamp@ == z.timestamp@
            + span.time_nanos()),
{
    let s = jiff::Span::new().try_years(span.years)?.try_months(span.months)?.try_weeks(
        span.weeks,
    )?.try_days(span.days)?.try_hours(span.hours)?.try_minutes(span.minutes)?.try_seconds(
        span.seconds,
    )?.try_milliseconds(span.milliseconds)?.try_microseconds(span.microseconds)?.try_nanoseconds(
        span.nanoseconds,
    )?;
    let zoned = jiff::Timestamp::from_nanosecond(z.timestamp.nanos)?.to_zoned(z.time_zone.clone());
    let w = zoned.checked_add(s)?;
    Ok(ZonedTimestamp { timestamp: Timestamp { nanos: w.timestamp().as_nanosecond() }, time_zone: w.time_zone().clone() })
}

/// Calls `jiff::Zoned::with().time(..).build()`: the same civil date at the
/// given time of day, in the same time zone. Nothing is stated of the
/// instant, which depends on the rules of the zone.
#[verifier::external_body]
pub(crate) fn zoned_with_time(z: &ZonedTimestamp, time: &CivilTime) -> (r: Result<
    ZonedTimestamp,
    JiffError,
>)
    ensures
        r matches Ok(w) ==> w.time_zone == z.time_zone,
{
    let t = jiff::civil::Time::new(time.hour, time.minute, time.second, time.subsec_nanosecond)?;
    let zoned = jiff::Timestamp::from_nanosecond(z.timestamp.nanos)?.to_zoned(z.time_zone.clone());
    let w = zoned.with().time(t).build()?;
    Ok(ZonedTimestamp { timestamp: Timestamp { nanos: w.timestamp().as_nanosecond() }, time_zone: w.time_zone().clone() })
}

/// Calls `jiff::Zoned::round` to `increment` units of `unit`. `jiff`
/// accepts only increments that divide the next larger unit and are less
/// than it, so a success implies such an increment; the time zone is kept.
/// Nothing is stated of the instant, which is rounded in civil time.
#[verifier::external_body]
pub(crate) fn zoned_round(
    z: &ZonedTimestamp,
    unit: RoundingUnit,
    increment: i64,
    direction: RoundingDirection,
) -> (r: Result<ZonedTimestamp, JiffError>)
    ensures
        r matches Ok(w) ==> w.time_zone == z.time_zone && valid_round_increment(unit, increment as int),
{
    let mode = match direction {
        RoundingDirection::Expand => jiff::RoundMode::Expand,
        RoundingDirection::Truncate => jiff::RoundMode::Trunc,
    };
    let smallest = match unit {
        RoundingUnit::Minute => jiff::Unit::Minute,
        RoundingUnit::Hour => jiff::Unit::Hour,
    };
    let zoned = jiff::Timestamp::from_nanosecond(z.timestamp.nanos)?.to_zoned(z.time_zone.clone());
    let w = zoned.round(jiff::ZonedRound::new().smallest(smallest).increment(increment).mode(mode))?;
    Ok(ZonedTimestamp { timestamp: Timestamp { nanos: w.timestamp().as_nanosecond() }, time_zone: w.time_zone().clone() })
}

/// Calls `jiff::Zoned::end_of_day`: the last instant of the civil day, in
/// the same time zone.
#[verifier::external_body]
pub(crate) fn zoned_end_of_day(z: &ZonedTimestamp) -> (r: Result<ZonedTimestamp, JiffError>)
    ensures
        r matches Ok(w) ==> w.time_zone == z.time_zone,
{
    let zoned = jiff::Timestamp::from_nanosecond(z.timestamp.nanos)?.to_zoned(z.time_zone.clone());
    let w = zoned.end_of_day()?;
    Ok(ZonedTimestamp { timestamp: Timestamp { nanos: w.timestamp().as_nanosecond() }, time_zone: w.time_zone().clone() })
}

/// Calls `jiff::Zoned::start_of_day`: the first instant of the civil day, in
/// the same time zone.
#[verifier::external_body]
pub(crate) fn zoned_start_of_day(z: &ZonedTimestamp) -> (r: Result<ZonedTimestamp, JiffError>)
    ensures
        r matches Ok(w) ==> w.time_zone == z.time_zone,
{
    let zoned = jiff::Timestamp::from_nanosecond(z.timestamp.nanos)?.to_zoned(z.time_zone.clone());
    let w = zoned.start_of_day()?;
    Ok(ZonedTimestamp { timestamp: Timestamp { nanos: w.timestamp().as_nanosecond() }, time_zone: w.time_zone().clone() })
}

/// Calls `jiff::Zoned::tomorrow`: the same clock time on the next civil
/// day, in the same time zone.
#[verifier::external_body]
pub(crate) fn zoned_tomorrow(z: &ZonedTimestamp) -> (r: Result<ZonedTimestamp, JiffError>)
    ensures
        r matches Ok(w) ==> w.time_zone == z.time_zone,
{
    let zoned = jiff::Timestamp::from_nanosecond(z.timestamp.nanos)?.to_zoned(z.time_zone.clone());
    let w = zoned.tomorrow()?;
    Ok(ZonedTimestamp { timestamp: Timestamp { nanos: w.timestamp().as_nanosecond() }, time_zone: w.time_zone().clone() })
}

impl ZonedTimestamp {
    /// The instant `timestamp` seen in `time_zone`.
    pub fn new(timestamp: Timestamp, time_zone: &TimeZone) -> (r: ZonedTimestamp)
        ensures
            r.timestamp == timestamp,
            r.time_zone == *time_zone,
    {
        ZonedTimestamp { timestamp, time_zone: time_zone.clone() }
    }
}

} // verus!
