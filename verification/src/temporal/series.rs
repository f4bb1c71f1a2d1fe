use vstd::prelude::*;

use super::grid::{
    grid_end_nanos, lemma_built_grid_point_count, lemma_index_of_grid_point, RegularTimeGrid,
    TimeGridError,
};
use super::step::{is_allowed_step, is_step_aligned, MinuteStep, MinuteStepError};
use crate::error::Error;
use crate::time::duration::SignedDuration;
use crate::time::timestamp::{in_timestamp_range, Timestamp};

verus! {

/// Errors about time series.
#[derive(Debug)]
pub enum TimeSeriesError {
    /// Fewer rows than needed to infer a step.
    TooShort { length: usize, minimal: i32 },
    /// The last row is not at the end of the grid inferred from the first two.
    GridEndMismatch { expected: Timestamp, actual: Timestamp },
    /// The instant is on the grid but no row holds it.
    MissingValueAtTime { datetime: Timestamp },
    /// A row does not start at the grid instant of its rank.
    MisplacedRow { expected: Timestamp, actual: Timestamp },
}

/// A row that knows the instant it starts at.
pub trait TimeStampedUtc {
    /// The instant the row starts at.
    spec fn spec_start_at(&self) -> Timestamp;

    /// The instant the row starts at.
    fn start_at(&self) -> (r: &Timestamp)
        ensures
            *r == self.spec_start_at(),
    ;
}

/// Rows of data laid on a regular time grid, so that the row of an instant
/// is found by arithmetic on the grid.
#[derive(Debug)]
pub struct TimeSeries<T> {
    /// The grid the rows are laid on.
    pub grid: RegularTimeGrid,
    /// One row per instant of the grid.
    pub data: Vec<T>,
}

/// Nanoseconds between the first two rows.
pub open spec fn first_gap<T: TimeStampedUtc>(data: Seq<T>) -> int {
    data[1].spec_start_at()@ - data[0].spec_start_at()@
}

/// Whether the rows form a time series: at least two rows, the gap between
/// the first two is an allowed step, the first row is on a multiple of it,
/// the number of rows fits in an `i32`, the grid of one instant per row ends
/// at an instant, and every row starts at the grid instant of its rank.
pub open spec fn forms_time_series<T: TimeStampedUtc>(data: Seq<T>) -> bool {
    &&& data.len() >= 2
    &&& is_allowed_step(first_gap(data))
    &&& is_step_aligned(data[0].spec_start_at()@, first_gap(data) / 1_000_000_000)
    &&& data.len() <= i32::MAX
    &&& in_timestamp_range(
        grid_end_nanos(data[0].spec_start_at()@, first_gap(data), data.len() as usize),
    )
    &&& forall|k: int|
        0 <= k < data.len() ==> (#[trigger] data[k]).spec_start_at()@ == data[0].spec_start_at()@
            + k * first_gap(data)
}

/// The error that laying `data` on a grid reports, checking in turn that
/// there are two rows, that the gap between the first two is an allowed
/// step, that the first row is on a multiple of it, that the number of rows
/// fits in an `i32`, that the grid ends at an instant, that the last row is
/// at its end, and then the rows in order.
pub open spec fn is_series_error<T: TimeStampedUtc>(e: Error, data: Seq<T>) -> bool {
    let gap = first_gap(data);
    let start = data[0].spec_start_at();
    let end = grid_end_nanos(start@, gap, data.len() as usize);
    if data.len() < 2 {
        e == Error::TimeSeries(TimeSeriesError::TooShort { length: data.len() as usize, minimal: 2 })
    } else if !is_allowed_step(gap) {
        e matches Error::Step(MinuteStepError::InvalidGranularity { step }) && step@ == gap
    } else if !is_step_aligned(start@, gap / 1_000_000_000) {
        e matches Error::Step(MinuteStepError::DatetimeNonMultipleOfStep { dt, step }) && dt == start
            && step@ == gap
    } else if data.len() > i32::MAX {
        e matches Error::Grid(TimeGridError::LengthOverFlow(_))
    } else if !in_timestamp_range(end) {
        e matches Error::Grid(TimeGridError::EndDateTimeOverFlow { start: s, step, length }) && s
            == start && step@ == gap && length == data.len()
    } else if end != data.last().spec_start_at()@ {
        e matches Error::TimeSeries(TimeSeriesError::GridEndMismatch { expected, actual })
            && expected == data.last().spec_start_at() && actual@ == end
    } else {
        exists|k: int|
            #![trigger data[k]]
            0 <= k < data.len() && data[k].spec_start_at()@ != start@ + k * gap && (forall|j: int|
                0 <= j < k ==> (#[trigger] data[j]).spec_start_at()@ == start@ + j * gap) && (e matches Error::TimeSeries(
                TimeSeriesError::MisplacedRow { expected, actual },
            ) && expected@ == start@ + k * gap && actual == data[k].spec_start_at())
    }
}

impl<T> TimeSeries<T> {
    /// The row at the instant `dt`. The instant must be on the grid and a row
    /// must exist for it.
    pub fn at(&self, dt: &Timestamp) -> (r: Result<&T, Error>)
        ensures
            r is Ok <==> self.grid.start@ <= dt@ <= self.grid.end@ && is_step_aligned(
                dt@,
                self.grid.step.seconds(),
            ) && self.grid.spec_index(dt@) < self.grid.length && self.grid.spec_index(dt@)
                < self.data.len(),
            r matches Ok(v) ==> *v == self.data[self.grid.spec_index(dt@)],
            (dt@ < self.grid.start@ || dt@ > self.grid.end@) ==> r == Err::<&T, Error>(
                Error::Grid(
                    TimeGridError::OutsideBounds {
                        dt: *dt,
                        start: self.grid.start,
                        end: self.grid.end,
                    },
                ),
            ),
            self.grid.start@ <= dt@ <= self.grid.end@ && !is_step_aligned(
                dt@,
                self.grid.step.seconds(),
            ) ==> r == Err::<&T, Error>(
                Error::Step(
                    MinuteStepError::DatetimeNonMultipleOfStep {
                        dt: *dt,
                        step: self.grid.step.spec_duration(),
                    },
                ),
            ),
            self.grid.start@ <= dt@ <= self.grid.end@ && is_step_aligned(
                dt@,
                self.grid.step.seconds(),
            ) && self.grid.spec_index(dt@) < self.grid.length && self.data.len()
                <= self.grid.spec_index(dt@) ==> r == Err::<
                &T,
                Error,
            >(Error::TimeSeries(TimeSeriesError::MissingValueAtTime { datetime: *dt })),
    {
        let index = self.grid.index_of(dt)?;
        if index < self.data.len() {
            Ok(&self.data[index])
        } else {
            Err(Error::TimeSeries(TimeSeriesError::MissingValueAtTime { datetime: *dt }))
        }
    }
}

impl<T: TimeStampedUtc> TimeSeries<T> {
    /// Lays the rows on the grid they imply: the grid starts at the first
    /// row, its step is the gap between the first two rows, it has one
    /// instant per row, and its end must be the instant of the last row.
    pub fn try_from(data: Vec<T>) -> (r: Result<TimeSeries<T>, Error>)
        ensures
            r is Ok <==> forms_time_series(data@),
            r matches Ok(ts) ==> {
                &&& ts.data@ == data@
                &&& ts.grid.start == data@[0].spec_start_at()
                &&& ts.grid.step@ == first_gap(data@)
                &&& ts.grid.length == data.len()
                &&& ts.grid.end == data@.last().spec_start_at()
            },
            r matches Err(e) ==> is_series_error(e, data@),
    {
        let length = data.len();
        if length < 2 {
            return Err(Error::TimeSeries(TimeSeriesError::TooShort { length, minimal: 2 }));
        }
        let start = *data[0].start_at();
        let second = *data[1].start_at();
        let step = MinuteStep::try_from_duration(second.duration_since(&start))?;
        let end = *data[length - 1].start_at();
        proof {
            step.lemma_duration_view();
        }
        let grid = RegularTimeGrid::try_new(start, step, length)?;
        if !grid.end.same_instant(&end) {
            proof {
                assert(data@.last() == data@[length - 1]);
                if forms_time_series(data@) {
                    assert(data@[length - 1].spec_start_at()@ == start@ + (length - 1) * first_gap(
                        data@,
                    ));
                    vstd::arithmetic::mul::lemma_mul_is_commutative(length - 1, step@);
                }
            }
            return Err(
                Error::TimeSeries(
                    TimeSeriesError::GridEndMismatch { expected: end, actual: grid.end },
                ),
            );
        }
        proof {
            use_type_invariant(&step);
            use_type_invariant(&grid.end);
            use_type_invariant(&start);
            Timestamp::lemma_view_eq(grid.end, end);
            assert(data@.last() == data@[length - 1]);
            vstd::arithmetic::mul::lemma_mul_is_commutative(length - 1, step@);
        }
        let gap: SignedDuration = *step.duration();
        let mut expected = start;
        let mut k: usize = 0;
        while k < length
            invariant
                length == data@.len(),
                2 <= length <= i32::MAX,
                start == data@[0].spec_start_at(),
                gap@ == step@,
                step@ == first_gap(data@),
                0 < step@ <= 3_600_000_000_000,
                is_allowed_step(first_gap(data@)),
                is_step_aligned(start@, first_gap(data@) / 1_000_000_000),
                grid.end@ == grid_end_nanos(start@, step@, length),
                grid.end@ == start@ + (length - 1) * step@,
                grid.end == data@.last().spec_start_at(),
                grid.start == start,
                grid.step == step,
                grid.length == length,
                in_timestamp_range(start@),
                in_timestamp_range(grid.end@),
                k <= length,
                k < length ==> expected@ == start@ + k * step@,
                forall|j: int| 0 <= j < k ==> (#[trigger] data@[j]).spec_start_at()@ == start@ + j
                    * step@,
            decreases length - k,
        {
            let actual = *data[k].start_at();
            if !actual.same_instant(&expected) {
                proof {
                    let gap = first_gap(data@);
                    assert(data@[k as int].spec_start_at()@ != start@ + k * gap);
                    assert(is_allowed_step(gap));
                    assert(is_step_aligned(start@, gap / 1_000_000_000));
                    assert(data@.len() <= i32::MAX);
                    assert(in_timestamp_range(grid_end_nanos(start@, gap, data@.len() as usize)));
                    assert(grid_end_nanos(start@, gap, data@.len() as usize) == data@.last().spec_start_at()@);
                    assert(actual == data@[k as int].spec_start_at());
                    assert(expected@ == start@ + k * gap);
                }
                return Err(
                    Error::TimeSeries(TimeSeriesError::MisplacedRow { expected, actual }),
                );
            }
            if k + 1 < length {
                proof {
                    assert(start@ <= start@ + (k + 1) * step@ <= start@ + (length - 1) * step@)
                        by (nonlinear_arith)
                        requires
                            0 <= k + 1 <= length - 1,
                            step@ > 0,
                    ;
                    assert(start@ + (k + 1) * step@ == expected@ + gap@) by (nonlinear_arith)
                        requires
                            expected@ == start@ + k * step@,
                            gap@ == step@,
                    ;
                }
                expected = expected.add(&gap);
            }
            k = k + 1;
        }
        Ok(TimeSeries { grid, data })
    }
}

/// Every row of a time series starts at the grid instant of its rank, which
/// `index_of` finds at that rank: `at` on the instant of row `k` gives row
/// `k`.
pub proof fn lemma_time_series_rows_cover_grid<T: TimeStampedUtc>(data: Seq<T>, g: RegularTimeGrid)
    requires
        forms_time_series(data),
        g.step.allowed(),
        g.start == data[0].spec_start_at(),
        g.step@ == first_gap(data),
        g.length == data.len(),
        g.end@ == grid_end_nanos(g.start@, g.step@, g.length),
    ensures
        g.row_count() == data.len(),
        forall|k: int|
            0 <= k < data.len() ==> {
                &&& (#[trigger] data[k]).spec_start_at()@ == g.point(k)
                &&& g.start@ <= g.point(k) <= g.end@
                &&& is_step_aligned(g.point(k), g.step.seconds())
                &&& g.spec_index(g.point(k)) == k
            },
{
    lemma_built_grid_point_count(g);
    assert forall|k: int| 0 <= k < data.len() implies {
        &&& (#[trigger] data[k]).spec_start_at()@ == g.point(k)
        &&& g.start@ <= g.point(k) <= g.end@
        &&& is_step_aligned(g.point(k), g.step.seconds())
        &&& g.spec_index(g.point(k)) == k
    } by {
        lemma_index_of_grid_point(g, k);
    }
}

} // verus!
