use vstd::prelude::*;

verus! {

/// A wall-clock time of day, with the same fields as `jiff::civil::Time`.
#[derive(Debug, Clone, Copy, PartialEq, Eq, Structural)]
pub struct CivilTime {
    pub hour: i8,
    pub minute: i8,
    pub second: i8,
    pub subsec_nanosecond: i32,
}

impl CivilTime {
    /// Every field lies in its range: a valid time of day.
    pub open spec fn wf(self) -> bool {
        &&& 0 <= self.hour <= 23
        &&& 0 <= self.minute <= 59
        &&& 0 <= self.second <= 59
        &&& 0 <= self.subsec_nanosecond <= 999_999_999
    }

    /// Lexicographic order on (hour, minute, second, subsecond): the order
    /// of times within one day.
    pub open spec fn spec_is_after(self, other: CivilTime) -> bool {
        ||| self.hour > other.hour
        ||| self.hour == other.hour && self.minute > other.minute
        ||| self.hour == other.hour && self.minute == other.minute && self.second > other.second
        ||| self.hour == other.hour && self.minute == other.minute && self.second == other.second
            && self.subsec_nanosecond > other.subsec_nanosecond
    }

    /// Nanoseconds elapsed since midnight at this time of day.
    pub open spec fn day_nanos(self) -> int {
        self.hour * 3_600_000_000_000 + self.minute * 60_000_000_000 + self.second * 1_000_000_000
            + self.subsec_nanosecond
    }

    /// Whether `self` comes strictly later in the day than `other`.
    pub fn is_after(&self, other: &CivilTime) -> (r: bool)
        ensures
            r == self.spec_is_after(*other),
            self.wf() && other.wf() ==> (r <==> self.day_nanos() > other.day_nanos()),
    {
        proof {
            if self.wf() && other.wf() {
                lemma_is_after_is_later_in_day(*self, *other);
            }
        }
        if self.hour != other.hour {
            self.hour > other.hour
        } else if self.minute != other.minute {
            self.minute > other.minute
        } else if self.second != other.second {
            self.second > other.second
        } else {
            self.subsec_nanosecond > other.subsec_nanosecond
        }
    }
}

/// Of two valid times of day, one comes after the other exactly when more
/// time has elapsed since midnight at it: the order compares hours, then
/// minutes, then seconds, then nanoseconds.
pub proof fn lemma_is_after_is_later_in_day(a: CivilTime, b: CivilTime)
    requires
        a.wf(),
        b.wf(),
    ensures
        a.spec_is_after(b) <==> a.day_nanos() > b.day_nanos(),
{
}

} // verus!
