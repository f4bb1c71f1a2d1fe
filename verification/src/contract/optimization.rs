//! What an optimization run is asked for and what it reports.
use vstd::prelude::*;

use super::error::Error;
use crate::error::Error as DomainError;
use crate::temporal::grid::{steps_between, RegularTimeGrid, TimeGridError};
use crate::temporal::step::{is_allowed_step, is_step_aligned, MinuteStep, MinuteStepError};
use crate::time::duration::SignedDuration;
use crate::time::timestamp::Timestamp;

verus! {

/// What an optimization run reports once solved: for now, how many
/// components and perimeters were built.
#[derive(Debug, Clone, Copy, PartialEq, Eq, Structural)]
pub struct OptimizationOutput {
    pub components_built: usize,
    pub wholesale_perimeters_built: usize,
    pub ancillary_perimeters_built: usize,
}

/// The grid an optimization run is solved on, from its start, its end and
/// its step. The step must be 15, 30 or 60 minutes; the end must come after
/// the start, and both must be on a multiple of the step.
pub fn optimization_grid(start: Timestamp, end: Timestamp, step: SignedDuration) -> (r: Result<
    RegularTimeGrid,
    Error,
>)
    ensures
        !is_allowed_step(step@) ==> r == Err::<RegularTimeGrid, Error>(
            Error::Domain(DomainError::Step(MinuteStepError::InvalidGranularity { step })),
        ),
        is_allowed_step(step@) && end@ <= start@ ==> r == Err::<RegularTimeGrid, Error>(
            Error::Domain(DomainError::Grid(TimeGridError::EndBeforeStart { start, end })),
        ),
        is_allowed_step(step@) && end@ > start@ && !is_step_aligned(start@, step@ / 1_000_000_000)
            ==> r == Err::<RegularTimeGrid, Error>(
            Error::Domain(
                DomainError::Step(MinuteStepError::DatetimeNonMultipleOfStep { dt: start, step }),
            ),
        ),
        is_allowed_step(step@) && end@ > start@ && is_step_aligned(start@, step@ / 1_000_000_000)
            && !is_step_aligned(end@, step@ / 1_000_000_000) ==> r == Err::<RegularTimeGrid, Error>(
            Error::Domain(
                DomainError::Step(MinuteStepError::DatetimeNonMultipleOfStep { dt: end, step }),
            ),
        ),
        is_allowed_step(step@) && end@ > start@ && is_step_aligned(start@, step@ / 1_000_000_000)
            && is_step_aligned(end@, step@ / 1_000_000_000) ==> (r is Ok <==> steps_between(
            start@,
            end@,
            step@ / 1_000_000_000,
        ) <= usize::MAX),
        r matches Ok(g) ==> g.start == start && g.end == end && g.step@ == step@ && g.length
            == steps_between(start@, end@, step@ / 1_000_000_000),
        r matches Err(Error::Domain(DomainError::Grid(e))) ==> e is EndBeforeStart
            || e is LengthOverFlow,
        r matches Err(e) ==> e is Domain,
{
    let minute_step = match MinuteStep::try_from_duration(step) {
        Ok(s) => s,
        Err(e) => {
            return Err(Error::Domain(e));
        },
    };
    proof {
        assert(minute_step.spec_duration() == step) by {
            minute_step.lemma_duration_view();
            SignedDuration::lemma_view_eq(minute_step.spec_duration(), step);
        }
    }
    match RegularTimeGrid::try_new_start_end(start, minute_step, end) {
        Ok(g) => Ok(g),
        Err(e) => Err(Error::Domain(e)),
    }
}

} // verus!
