use vstd::prelude::*;

use crate::error::Error;
use crate::time::duration::SignedDuration;
use crate::time::span::Span;
use crate::time::timestamp::{nanos_per_second, Timestamp};
use crate::time::zoned::span_to_duration;
use jiff::Error as JiffError;

verus! {

/// Nanoseconds in fifteen minutes.
pub open spec fn fifteen_minutes_nanos() -> int {
    900_000_000_000
}

/// The lengths a grid step may have: 15, 30 or 60 minutes.
pub open spec fn is_allowed_step(nanos: int) -> bool {
    nanos == 900_000_000_000 || nanos == 1_800_000_000_000 || nanos == 3_600_000_000_000
}

/// Whether the instant `t` (nanoseconds since the Unix epoch, sub-second
/// part included) is a whole multiple of a step of `step_seconds` seconds.
pub open spec fn is_step_aligned(t: int, step_seconds: int) -> bool {
    t % (step_seconds * nanos_per_second()) == 0
}

/// Errors about grid steps.
#[derive(Debug)]
pub enum MinuteStepError {
    /// The duration is not one of the allowed steps.
    InvalidGranularity { step: SignedDuration },
    /// The instant is not on a multiple of the step.
    DatetimeNonMultipleOfStep { dt: Timestamp, step: SignedDuration },
    /// The span could not be turned into an exact duration.
    JiffConversionError(JiffError),
}

/// The step of a regular time grid: 15, 30 or 60 minutes. Its value can only
/// be built through the validating constructors.
#[derive(Debug, Clone, Copy, PartialEq, Eq, Structural, Hash)]
pub struct MinuteStep(SignedDuration);

impl View for MinuteStep {
    type V = int;

    /// The length of the step in nanoseconds.
    closed spec fn view(&self) -> int {
        self.0@
    }
}

impl MinuteStep {
    /// A step always has one of the allowed lengths.
    #[verifier::type_invariant]
    pub open spec fn allowed(self) -> bool {
        is_allowed_step(self@)
    }

    /// The step as a duration.
    pub closed spec fn spec_duration(self) -> SignedDuration {
        self.0
    }

    /// Two steps of the same length are the same value.
    pub proof fn lemma_view_eq(a: Self, b: Self)
        requires
            a@ == b@,
        ensures
            a == b,
    {
        SignedDuration::lemma_view_eq(a.0, b.0);
    }

    /// The duration of a step is as long as the step.
    pub proof fn lemma_duration_view(self)
        ensures
            self.spec_duration()@ == self@,
    {
    }

    /// The length of the step in whole seconds.
    pub open spec fn seconds(self) -> int {
        self@ / nanos_per_second()
    }

    /// The step as a duration.
    pub fn duration(&self) -> (r: &SignedDuration)
        ensures
            *r == self.spec_duration(),
            r@ == self@,
    {
        &self.0
    }

    /// The step as a span of seconds.
    pub fn span(&self) -> (r: Span)
        ensures
            r == (Span { seconds: self.seconds() as i64, ..Span::zero() }),
            r.wf(),
            r.is_time_only(),
            r.time_nanos() == self@,
    {
        proof {
            use_type_invariant(self);
        }
        Span::from_seconds(self.0.as_secs())
    }

    /// The number of whole seconds of the step.
    pub fn as_secs(&self) -> (r: i64)
        ensures
            r == self.seconds(),
            r == 900 || r == 1800 || r == 3600,
    {
        proof {
            use_type_invariant(self);
        }
        self.0.as_secs()
    }

    /// Checks that `dt` is on a multiple of the step.
    pub fn check_datetime_multiple_step(&self, dt: Timestamp) -> (r: Result<(), Error>)
        ensures
            r is Ok <==> is_step_aligned(dt@, self.seconds()),
            r matches Err(e) ==> e == Error::Step(
                MinuteStepError::DatetimeNonMultipleOfStep { dt, step: self.spec_duration() },
            ),
    {
        proof {
            use_type_invariant(&dt);
            use_type_invariant(self);
        }
        let nanos = dt.as_nanosecond();
        let step = self.0.as_nanos();
        // Shifting by a common multiple of every step keeps the remainder
        // and makes the dividend non-negative.
        let shifted: i128 = nanos + 3_600_000_000_000_000_000_000;
        proof {
            assert(step == self@);
            assert(step == self.seconds() * nanos_per_second());
            let k: int = 3_600_000_000_000_000_000_000int / (step as int);
            assert(k * step == 3_600_000_000_000_000_000_000int);
            vstd::arithmetic::div_mod::lemma_mod_multiples_vanish(k, nanos as int, step as int);
        }
        if shifted % step == 0 {
            Ok(())
        } else {
            Err(Error::Step(MinuteStepError::DatetimeNonMultipleOfStep { dt, step: self.0 }))
        }
    }

    /// The step of the given length, or an error when it is not 15, 30 or
    /// 60 minutes.
    pub fn try_from_duration(value: SignedDuration) -> (r: Result<MinuteStep, Error>)
        ensures
            r is Ok <==> is_allowed_step(value@),
            r matches Ok(s) ==> s@ == value@,
            r matches Err(e) ==> e == Error::Step(
                MinuteStepError::InvalidGranularity { step: value },
            ),
    {
        let n = value.as_nanos();
        if n == 900_000_000_000 || n == 1_800_000_000_000 || n == 3_600_000_000_000 {
            Ok(MinuteStep(value))
        } else {
            Err(Error::Step(MinuteStepError::InvalidGranularity { step: value }))
        }
    }

    /// The step of the length of a well-formed span. Spans with calendar
    /// units are refused by the conversion to a duration; other lengths than
    /// 15, 30 or 60 minutes are refused as granularities.
    pub fn try_from_span(value: &Span) -> (r: Result<MinuteStep, Error>)
        requires
            value.wf(),
        ensures
            r is Ok <==> value.is_time_only() && is_allowed_step(value.time_nanos()),
            r matches Ok(s) ==> s@ == value.time_nanos(),
            !value.is_time_only() ==> r matches Err(Error::Step(
                MinuteStepError::JiffConversionError(_),
            )),
            value.is_time_only() && !is_allowed_step(value.time_nanos()) ==> (r matches Err(
                Error::Step(MinuteStepError::InvalidGranularity { step }),
            ) && step@ == value.time_nanos()),
            r matches Err(e) ==> e is Step,
    {
        match span_to_duration(value) {
            Ok(d) => Self::try_from_duration(d),
            Err(e) => Err(Error::Step(MinuteStepError::JiffConversionError(e))),
        }
    }

    /// The fifteen-minute step.
    pub fn fifteen_minutes() -> (r: MinuteStep)
        ensures
            r@ == fifteen_minutes_nanos(),
    {
        MinuteStep(SignedDuration::from_mins(15))
    }

    /// The thirty-minute step.
    pub fn thirty_minutes() -> (r: MinuteStep)
        ensures
            r@ == 1_800_000_000_000,
    {
        MinuteStep(SignedDuration::from_mins(30))
    }

    /// The one-hour step.
    pub fn one_hour() -> (r: MinuteStep)
        ensures
            r@ == 3_600_000_000_000,
    {
        MinuteStep(SignedDuration::from_mins(60))
    }
}

} // verus!
