use vstd::prelude::*;

verus! {

/// A span of time made of calendar and clock units, with the same units and
/// bounds as `jiff::Span`. Each field holds the signed amount of its unit;
/// in a well-formed span all non-zero amounts share one sign.
#[derive(Debug, Clone, Copy, PartialEq, Eq, Structural)]
pub struct Span {
    pub years: i64,
    pub months: i64,
    pub weeks: i64,
    pub days: i64,
    pub hours: i64,
    pub minutes: i64,
    pub seconds: i64,
    pub milliseconds: i64,
    pub microseconds: i64,
    pub nanoseconds: i64,
}

/// Whether `v` lies in `[-bound, bound]`.
pub open spec fn within(v: int, bound: int) -> bool {
    -bound <= v <= bound
}

impl Span {
    /// All amounts are zero or non-negative.
    pub open spec fn all_non_negative(self) -> bool {
        &&& self.years >= 0
        &&& self.months >= 0
        &&& self.weeks >= 0
        &&& self.days >= 0
        &&& self.hours >= 0
        &&& self.minutes >= 0
        &&& self.seconds >= 0
        &&& self.milliseconds >= 0
        &&& self.microseconds >= 0
        &&& self.nanoseconds >= 0
    }

    /// All amounts are zero or non-positive.
    pub open spec fn all_non_positive(self) -> bool {
        &&& self.years <= 0
        &&& self.months <= 0
        &&& self.weeks <= 0
        &&& self.days <= 0
        &&& self.hours <= 0
        &&& self.minutes <= 0
        &&& self.seconds <= 0
        &&& self.milliseconds <= 0
        &&& self.microseconds <= 0
        &&& self.nanoseconds <= 0
    }

    /// Every amount is within the bounds of its unit.
    pub open spec fn within_bounds(self) -> bool {
        &&& within(self.years as int, 19_998)
        &&& within(self.months as int, 239_976)
        &&& within(self.weeks as int, 1_043_497)
        &&& within(self.days as int, 7_304_484)
        &&& within(self.hours as int, 175_307_616)
        &&& within(self.minutes as int, 10_518_456_960)
        &&& within(self.seconds as int, 631_107_417_600)
        &&& within(self.milliseconds as int, 631_107_417_600_000)
        &&& within(self.microseconds as int, 631_107_417_600_000_000)
        &&& within(self.nanoseconds as int, 9_223_372_036_854_775_807)
    }

    /// A well-formed span: one sign and every unit within its bounds.
    pub open spec fn wf(self) -> bool {
        &&& self.all_non_negative() || self.all_non_positive()
        &&& self.within_bounds()
    }

    /// The span has no calendar units (years, months, weeks, days), so it
    /// denotes an exact length of time.
    pub open spec fn is_time_only(self) -> bool {
        self.years == 0 && self.months == 0 && self.weeks == 0 && self.days == 0
    }

    /// The exact length, in nanoseconds, of the clock units of the span.
    pub open spec fn time_nanos(self) -> int {
        self.hours * 3_600_000_000_000 + self.minutes * 60_000_000_000 + self.seconds
            * 1_000_000_000 + self.milliseconds * 1_000_000 + self.microseconds * 1_000
            + self.nanoseconds
    }

    /// The span of length zero.
    pub open spec fn zero() -> Span {
        Span {
            years: 0,
            months: 0,
            weeks: 0,
            days: 0,
            hours: 0,
            minutes: 0,
            seconds: 0,
            milliseconds: 0,
            microseconds: 0,
            nanoseconds: 0,
        }
    }

    /// The empty span.
    pub fn new() -> (r: Span)
        ensures
            r == Span::zero(),
            r.wf(),
    {
        Span {
            years: 0,
            months: 0,
            weeks: 0,
            days: 0,
            hours: 0,
            minutes: 0,
            seconds: 0,
            milliseconds: 0,
            microseconds: 0,
            nanoseconds: 0,
        }
    }

    /// A span of `days` days.
    pub fn from_days(days: i64) -> (r: Span)
        requires
            within(days as int, 7_304_484),
        ensures
            r == (Span { days, ..Span::zero() }),
            r.wf(),
    {
        Span { days, ..Span::new() }
    }

    /// A span of `hours` hours.
    pub fn from_hours(hours: i64) -> (r: Span)
        requires
            within(hours as int, 175_307_616),
        ensures
            r == (Span { hours, ..Span::zero() }),
            r.wf(),
            r.is_time_only(),
            r.time_nanos() == hours * 3_600_000_000_000,
    {
        Span { hours, ..Span::new() }
    }

    /// A span of `minutes` minutes.
    pub fn from_minutes(minutes: i64) -> (r: Span)
        requires
            within(minutes as int, 10_518_456_960),
        ensures
            r == (Span { minutes, ..Span::zero() }),
            r.wf(),
            r.is_time_only(),
            r.time_nanos() == minutes * 60_000_000_000,
    {
        Span { minutes, ..Span::new() }
    }

    /// A span of `seconds` seconds.
    pub fn from_seconds(seconds: i64) -> (r: Span)
        requires
            within(seconds as int, 631_107_417_600),
        ensures
            r == (Span { seconds, ..Span::zero() }),
            r.wf(),
            r.is_time_only(),
            r.time_nanos() == seconds * 1_000_000_000,
    {
        Span { seconds, ..Span::new() }
    }

    /// Checks that the given amounts make a well-formed span.
    pub fn is_well_formed(&self) -> (r: bool)
        ensures
            r == self.wf(),
    {
        let non_negative = self.years >= 0 && self.months >= 0 && self.weeks >= 0 && self.days
            >= 0 && self.hours >= 0 && self.minutes >= 0 && self.seconds >= 0
            && self.milliseconds >= 0 && self.microseconds >= 0 && self.nanoseconds >= 0;
        let non_positive = self.years <= 0 && self.months <= 0 && self.weeks <= 0 && self.days
            <= 0 && self.hours <= 0 && self.minutes <= 0 && self.seconds <= 0
            && self.milliseconds <= 0 && self.microseconds <= 0 && self.nanoseconds <= 0;
        (non_negative || non_positive) && -19_998 <= self.years && self.years <= 19_998
            && -239_976 <= self.months && self.months <= 239_976 && -1_043_497 <= self.weeks
            && self.weeks <= 1_043_497 && -7_304_484 <= self.days && self.days <= 7_304_484
            && -175_307_616 <= self.hours && self.hours <= 175_307_616 && -10_518_456_960
            <= self.minutes && self.minutes <= 10_518_456_960 && -631_107_417_600
            <= self.seconds && self.seconds <= 631_107_417_600 && -631_107_417_600_000
            <= self.milliseconds && self.milliseconds <= 631_107_417_600_000
            && -631_107_417_600_000_000 <= self.microseconds && self.microseconds
            <= 631_107_417_600_000_000 && -9_223_372_036_854_775_807 <= self.nanoseconds
    }

    /// The number of days of the span.
    pub fn get_days(&self) -> (r: i64)
        ensures
            r == self.days,
    {
        self.days
    }
}

} // verus!
