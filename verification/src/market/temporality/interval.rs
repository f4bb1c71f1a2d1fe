use vstd::prelude::*;

use crate::error::Error;
use crate::market::error::MarketError;
use crate::time::civil::CivilTime;
use crate::time::span::Span;
use crate::time::zoned::civil_time_new;

verus! {

/// Whether the span is exactly zero days or exactly one day (and nothing
/// else).
pub open spec fn is_delta_days(span: Span) -> bool {
    span == Span::zero() || span == (Span { days: 1, ..Span::zero() })
}

/// This struct is used to represent the time separating auction closure and bidding
/// start. For example : for day ahead market the bidding is by definition on the next day
/// from auction closure.
/// It is also used to represent the time separating auction open and close times. For example
/// for intraday third auction.
#[derive(Debug, Clone, Copy)]
pub struct DeltaDays(Span);

impl DeltaDays {
    /// The span held.
    pub closed spec fn spec_value(self) -> Span {
        self.0
    }

    /// A delta is always zero or one day.
    #[verifier::type_invariant]
    pub open spec fn is_zero_or_one_day(self) -> bool {
        is_delta_days(self.spec_value())
    }

    /// The span held.
    pub fn value(&self) -> (r: &Span)
        ensures
            *r == self.spec_value(),
            is_delta_days(*r),
    {
        proof {
            use_type_invariant(self);
        }
        &self.0
    }

    /// The delta of the span, which must be exactly zero or one day.
    pub fn try_from(value: Span) -> (r: Result<DeltaDays, Error>)
        ensures
            r is Ok <==> is_delta_days(value),
            r matches Ok(d) ==> d.spec_value() == value,
            r matches Err(e) ==> e == Error::Market(MarketError::InvalidDeltaDayValue { value }),
    {
        if value == Span::from_days(0) || value == Span::from_days(1) {
            Ok(DeltaDays(value))
        } else {
            Err(Error::Market(MarketError::InvalidDeltaDayValue { value }))
        }
    }
}

/// Represents an interval defined by a starting time and ending time
/// and a delta expressed in days.
/// The times will be associated with a reference date and the delta will be applied
/// between start and end to determine starting and ending datetimes.
///
/// The convention used here is [start,end].
///
/// For example:
///     To represent day ahead bidding interval:
///         start_time: 00:00
///         end_time: 23:59
///
/// Make sure to use for end_time a value that represents correctly the end.
/// For example if bidding ends at 11:00:
/// Make sure to put 10:59 to avoid including 11:00 in your representation
/// as it might lead to different results.
#[derive(Debug, Clone, Copy)]
pub struct TimeDefinedInterval {
    pub start_time: CivilTime,
    pub end_time: CivilTime,
    pub delta_start_end: DeltaDays,
}

/// The civil time `hour:minute:00`.
pub open spec fn hm(hour: i8, minute: i8) -> CivilTime {
    CivilTime { hour, minute, second: 0, subsec_nanosecond: 0 }
}

impl TimeDefinedInterval {
    /// Whether the interval goes from `start` to `end`, `days` days later.
    pub open spec fn is(self, start: CivilTime, end: CivilTime, days: i64) -> bool {
        &&& self.start_time == start
        &&& self.end_time == end
        &&& self.delta_start_end.spec_value() == (Span { days, ..Span::zero() })
    }

    /// The interval from `open_hour:open_minute` to
    /// `close_hour:close_minute`, `delta_start_end` (zero or one day) later.
    /// On the same day the close may not come before the open.
    pub fn try_new(
        open_hour: i8,
        open_minute: i8,
        close_hour: i8,
        close_minute: i8,
        delta_start_end: Span,
    ) -> (r: Result<Self, Error>)
        ensures
            r is Ok <==> {
                &&& hm(open_hour, open_minute).wf()
                &&& hm(close_hour, close_minute).wf()
                &&& is_delta_days(delta_start_end)
                &&& !(hm(open_hour, open_minute).spec_is_after(hm(close_hour, close_minute))
                    && delta_start_end.days == 0)
            },
            hm(open_hour, open_minute).wf() && hm(close_hour, close_minute).wf() && delta_start_end
                == Span::zero() ==> (r is Ok <==> open_hour * 60 + open_minute <= close_hour * 60
                + close_minute),
            hm(open_hour, open_minute).wf() && hm(close_hour, close_minute).wf() && delta_start_end
                == (Span { days: 1, ..Span::zero() }) ==> r is Ok,
            r matches Ok(i) ==> i.start_time == hm(open_hour, open_minute) && i.end_time == hm(
                close_hour,
                close_minute,
            ) && i.delta_start_end.spec_value() == delta_start_end,
            (!hm(open_hour, open_minute).wf() || !hm(close_hour, close_minute).wf()) ==> r matches Err(
                Error::Jiff(_),
            ),
            hm(open_hour, open_minute).wf() && hm(close_hour, close_minute).wf() && !is_delta_days(
                delta_start_end,
            ) ==> r == Err::<Self, Error>(
                Error::Market(MarketError::InvalidDeltaDayValue { value: delta_start_end }),
            ),
            hm(open_hour, open_minute).wf() && hm(close_hour, close_minute).wf() && is_delta_days(
                delta_start_end,
            ) && hm(open_hour, open_minute).spec_is_after(hm(close_hour, close_minute))
                && delta_start_end.days == 0 ==> r == Err::<Self, Error>(
                Error::Market(
                    MarketError::InvalidTimeDefinedBound {
                        start_time: hm(open_hour, open_minute),
                        end_time: hm(close_hour, close_minute),
                        delta_start_end,
                    },
                ),
            ),
    {
        let start_time = match civil_time_new(open_hour, open_minute, 0, 0) {
            Ok(t) => t,
            Err(e) => return Err(Error::Jiff(e)),
        };
        let end_time = match civil_time_new(close_hour, close_minute, 0, 0) {
            Ok(t) => t,
            Err(e) => return Err(Error::Jiff(e)),
        };
        let delta_start_end_days = DeltaDays::try_from(delta_start_end)?;
        if start_time.is_after(&end_time) && delta_start_end_days.value().get_days() == 0 {
            Err(
                Error::Market(
                    MarketError::InvalidTimeDefinedBound {
                        start_time,
                        end_time,
                        delta_start_end: *delta_start_end_days.value(),
                    },
                ),
            )
        } else {
            Ok(TimeDefinedInterval { start_time, end_time, delta_start_end: delta_start_end_days })
        }
    }
}

} // verus!
