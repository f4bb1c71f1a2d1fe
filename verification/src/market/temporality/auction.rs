use vstd::prelude::*;

use super::interval::{hm, is_delta_days, DeltaDays, TimeDefinedInterval};
use crate::error::Error;
use crate::time::civil::CivilTime;
use crate::time::span::Span;
use crate::time::zoned::{civil_time_new, time_zone_get};
use jiff::tz::TimeZone;

verus! {

/// Market temporality where an auction is held at fixed times
/// and where bidding starts and ends at fixed times.
#[derive(Debug, Clone)]
pub struct StaticAuctionTemporality {
    pub open_interval: TimeDefinedInterval,
    pub bidding_interval: TimeDefinedInterval,
    pub delta_close_bidding_start: DeltaDays,
    pub timezone: TimeZone,
}

impl StaticAuctionTemporality {
    /// The temporality in the time zone named `timezone`; the delta between
    /// the auction close and the bidding start must be zero or one day. The
    /// time zone is looked up in the database of the host, and that lookup
    /// may fail.
    pub fn try_new(
        open_interval: TimeDefinedInterval,
        bidding_interval: TimeDefinedInterval,
        delta_close_bidding_start: Span,
        timezone: &str,
    ) -> (r: Result<Self, Error>)
        ensures
            r matches Ok(t) ==> t.open_interval == open_interval && t.bidding_interval
                == bidding_interval && t.delta_close_bidding_start.spec_value()
                == delta_close_bidding_start,
            !is_delta_days(delta_close_bidding_start) ==> r is Err,
            r matches Err(e) ==> e is Jiff || e == Error::Market(
                crate::market::error::MarketError::InvalidDeltaDayValue {
                    value: delta_close_bidding_start,
                },
            ),
    {
        let timezone = match time_zone_get(timezone) {
            Ok(tz) => tz,
            Err(e) => return Err(Error::Jiff(e)),
        };
        Self::with_time_zone(open_interval, bidding_interval, delta_close_bidding_start, timezone)
    }

    /// The temporality in the given time zone; the delta between the auction
    /// close and the bidding start must be zero or one day.
    pub fn with_time_zone(
        open_interval: TimeDefinedInterval,
        bidding_interval: TimeDefinedInterval,
        delta_close_bidding_start: Span,
        timezone: TimeZone,
    ) -> (r: Result<Self, Error>)
        ensures
            r is Ok <==> is_delta_days(delta_close_bidding_start),
            r matches Ok(t) ==> t.open_interval == open_interval && t.bidding_interval
                == bidding_interval && t.delta_close_bidding_start.spec_value()
                == delta_close_bidding_start && t.timezone == timezone,
            r matches Err(e) ==> e == Error::Market(
                crate::market::error::MarketError::InvalidDeltaDayValue {
                    value: delta_close_bidding_start,
                },
            ),
    {
        let delta_close_bidding_start_days = DeltaDays::try_from(delta_close_bidding_start)?;
        Ok(
            Self {
                open_interval,
                bidding_interval,
                delta_close_bidding_start: delta_close_bidding_start_days,
                timezone,
            },
        )
    }
}

/// Market temporality where an auction is dynamic and defined by a neutralization
/// period from reference and bidding times with reference as anchor.
#[derive(Debug, Clone)]
pub struct DynamicAuctionTemporality {
    /// Represents available bidding period.
    pub bidding_interval: TimeDefinedInterval,
    /// Represents the minimal time separating
    /// reference time and the next available bid.
    /// This may represent liquidity constraints
    /// on certain markets in certain countries or
    /// a regulatory constraint like in ancillary services
    /// about gate opening and closures.
    pub neutralization_delay: Span,
    pub timezone: TimeZone,
}

impl DynamicAuctionTemporality {
    /// The temporality in the time zone named `timezone`, looked up in the
    /// database of the host; only that lookup may fail.
    pub fn try_new(bidding_interval: TimeDefinedInterval, neutralization_delay: Span, timezone: &str) -> (r:
        Result<Self, Error>)
        ensures
            r matches Ok(t) ==> t.bidding_interval == bidding_interval && t.neutralization_delay
                == neutralization_delay,
            r matches Err(e) ==> e is Jiff,
    {
        let timezone = match time_zone_get(timezone) {
            Ok(tz) => tz,
            Err(e) => return Err(Error::Jiff(e)),
        };
        Ok(Self { bidding_interval, neutralization_delay, timezone })
    }
}

/// Market temporality where an auction represents a continuous bidding like
/// intraday continuous where bidding is always open either on current day or or next
/// day. The neutralization delay represents liquidity constraints.
#[derive(Debug, Clone)]
pub struct ContinuousAuctionTemporality {
    pub next_day_gate_open_time: CivilTime,
    pub neutralization_delay: Span,
    pub timezone: TimeZone,
}

impl ContinuousAuctionTemporality {
    /// The temporality in the time zone named `timezone`, whose next-day
    /// gate opens at `next_day_gate_open_hour:next_day_gate_open_minute`.
    /// The time zone is looked up in the database of the host, and that
    /// lookup may fail. Hours and minutes out of range are refused.
    pub fn try_new(
        next_day_gate_open_hour: i8,
        next_day_gate_open_minute: i8,
        neutralization_delay: Span,
        timezone: &str,
    ) -> (r: Result<Self, Error>)
        ensures
            r matches Ok(t) ==> t.next_day_gate_open_time == hm(
                next_day_gate_open_hour,
                next_day_gate_open_minute,
            ) && t.neutralization_delay == neutralization_delay,
            !hm(next_day_gate_open_hour, next_day_gate_open_minute).wf() ==> r is Err,
            r matches Err(e) ==> e is Jiff,
    {
        let timezone = match time_zone_get(timezone) {
            Ok(tz) => tz,
            Err(e) => return Err(Error::Jiff(e)),
        };
        Self::with_time_zone(
            next_day_gate_open_hour,
            next_day_gate_open_minute,
            neutralization_delay,
            timezone,
        )
    }

    /// The temporality in the time zone `timezone`. Hours and minutes out
    /// of range are refused.
    pub fn with_time_zone(
        next_day_gate_open_hour: i8,
        next_day_gate_open_minute: i8,
        neutralization_delay: Span,
        timezone: TimeZone,
    ) -> (r: Result<Self, Error>)
        ensures
            r is Ok <==> hm(next_day_gate_open_hour, next_day_gate_open_minute).wf(),
            r matches Ok(t) ==> t.next_day_gate_open_time == hm(
                next_day_gate_open_hour,
                next_day_gate_open_minute,
            ) && t.neutralization_delay == neutralization_delay && t.timezone == timezone,
            r matches Err(e) ==> e is Jiff,
    {
        let next_day_gate_open_time = match civil_time_new(
            next_day_gate_open_hour,
            next_day_gate_open_minute,
            0,
            0,
        ) {
            Ok(t) => t,
            Err(e) => return Err(Error::Jiff(e)),
        };
        Ok(Self { next_day_gate_open_time, neutralization_delay, timezone })
    }
}

} // verus!
