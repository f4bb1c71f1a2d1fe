use vstd::prelude::*;

use super::step::{is_step_aligned, MinuteStep, MinuteStepError};
use crate::error::Error;
use crate::time::duration::SignedDuration;
use crate::time::timestamp::{in_timestamp_range, nanos_per_second, Timestamp};
use core::num::TryFromIntError;

verus! {

/// Errors about regular time grids.
#[derive(Debug)]
pub enum TimeGridError {
    /// The instant lies before the start or after the last row of the grid.
    OutsideBounds { dt: Timestamp, start: Timestamp, end: Timestamp },
    /// The instant is on the step, but its row number does not fit in a
    /// `usize`.
    MissAlignedDatetime { dt: Timestamp, step: MinuteStep },
    /// The end of the grid is not after its start.
    EndBeforeStart { start: Timestamp, end: Timestamp },
    /// The end of a grid of `length` rows lies beyond the last instant.
    EndDateTimeOverFlow { start: Timestamp, step: MinuteStep, length: i32 },
    /// A step error raised while building the grid.
    StepError(MinuteStepError),
    /// The number of steps does not fit in a `usize`.
    LengthOverFlow(TryFromIntError),
}

/// A regular time grid: instants `start`, `start + step`, ... up to `end`,
/// which lets one compute the row of an instant without searching.
#[derive(Debug, Clone, Copy)]
pub struct RegularTimeGrid {
    /// First instant of the grid.
    pub start: Timestamp,
    /// Step between two consecutive instants.
    pub step: MinuteStep,
    /// Length recorded for the grid.
    pub length: usize,
    /// Last instant of the grid.
    pub end: Timestamp,
}

/// The number of steps from the first to the last of `length` rows.
pub open spec fn end_offset_steps(length: usize) -> int {
    length - 1
}

/// The instant ending a grid that starts at `start` with `length` rows.
pub open spec fn grid_end_nanos(start: int, step: int, length: usize) -> int {
    start + step * end_offset_steps(length)
}

/// Number of whole steps of `step_seconds` seconds from `start` to `t`, both
/// in nanoseconds.
pub open spec fn steps_between(start: int, t: int, step_seconds: int) -> int {
    (t - start) / (step_seconds * nanos_per_second())
}

/// If `n` whole multiples of `s` fit in `a` but `n + 1` do not, `a / s` is `n`.
proof fn lemma_div_is_count(a: int, s: int, n: int)
    requires
        s > 0,
        n * s <= a,
        a < (n + 1) * s,
    ensures
        a / s == n,
{
    vstd::arithmetic::div_mod::lemma_fundamental_div_mod(a, s);
    let q = a / s;
    assert(q == n) by (nonlinear_arith)
        requires
            s > 0,
            n * s <= a,
            a < (n + 1) * s,
            a == s * q + a % s,
            0 <= a % s < s,
    ;
}

/// If `n` whole multiples of `s` fit in `a`, then `n <= a / s`.
proof fn lemma_count_le_div(a: int, s: int, n: int)
    requires
        s > 0,
        n * s <= a,
    ensures
        n <= a / s,
{
    vstd::arithmetic::div_mod::lemma_fundamental_div_mod(a, s);
    let q = a / s;
    assert(n <= q) by (nonlinear_arith)
        requires
            s > 0,
            n * s <= a,
            a == s * q + a % s,
            0 <= a % s < s,
    ;
}

/// Whether `r` is the outcome of building the grid from `start` to `end`
/// with `step` (`RegularTimeGrid::try_new_start_end`): the end must come
/// after the start, then the start and the end must be on a multiple of the
/// step, and the number of whole steps between them must fit in a `usize`
/// (else `LengthOverFlow`); the grid records that number as its length.
pub open spec fn is_start_end_outcome(
    r: Result<RegularTimeGrid, Error>,
    start: Timestamp,
    step: MinuteStep,
    end: Timestamp,
) -> bool {
    let secs = step.seconds();
    &&& end@ <= start@ ==> r == Err::<RegularTimeGrid, Error>(
        Error::Grid(TimeGridError::EndBeforeStart { start, end }),
    )
    &&& end@ > start@ && !is_step_aligned(start@, secs) ==> r == Err::<RegularTimeGrid, Error>(
        Error::Step(
            MinuteStepError::DatetimeNonMultipleOfStep { dt: start, step: step.spec_duration() },
        ),
    )
    &&& end@ > start@ && is_step_aligned(start@, secs) && !is_step_aligned(end@, secs) ==> r
        == Err::<RegularTimeGrid, Error>(
        Error::Step(
            MinuteStepError::DatetimeNonMultipleOfStep { dt: end, step: step.spec_duration() },
        ),
    )
    &&& end@ > start@ && is_step_aligned(start@, secs) && is_step_aligned(end@, secs) ==> (r is Ok
        <==> steps_between(start@, end@, secs) <= usize::MAX)
    &&& end@ > start@ && is_step_aligned(start@, secs) && is_step_aligned(end@, secs)
        && steps_between(start@, end@, secs) > usize::MAX ==> (r matches Err(
        Error::Grid(TimeGridError::LengthOverFlow(_)),
    ))
    &&& r matches Ok(g) ==> g.start == start && g.step == step && g.end == end && g.length
        == steps_between(start@, end@, secs)
    &&& r matches Err(Error::Grid(e)) ==> e is EndBeforeStart || e is LengthOverFlow
}

impl RegularTimeGrid {
    /// The index that `index_of` computes for an instant of the grid.
    pub open spec fn spec_index(self, dt: int) -> int {
        steps_between(self.start@, dt, self.step.seconds())
    }

    /// The `i`-th instant of the grid, in nanoseconds.
    pub open spec fn point(self, i: int) -> int {
        self.start@ + i * self.step@
    }

    /// Number of instants `start + k * step`, `k >= 0`, that are not after
    /// `end`.
    pub open spec fn point_count(self) -> int {
        if self.end@ < self.start@ {
            0
        } else {
            (self.end@ - self.start@) / self.step@ + 1
        }
    }

    /// A grid of `length` rows starting at `start`: its end is
    /// `start + step * (length - 1)`. The start must be on a multiple of the
    /// step, the length must fit in an `i32` and the end must be an instant.
    pub fn try_new(start: Timestamp, step: MinuteStep, length: usize) -> (r: Result<Self, Error>)
        ensures
            r is Ok <==> is_step_aligned(start@, step.seconds()) && length <= i32::MAX
                && in_timestamp_range(grid_end_nanos(start@, step@, length)),
            r matches Ok(g) ==> g.start == start && g.step == step && g.length == length
                && g.end@ == grid_end_nanos(start@, step@, length),
            !is_step_aligned(start@, step.seconds()) ==> r == Err::<Self, Error>(
                Error::Step(
                    MinuteStepError::DatetimeNonMultipleOfStep {
                        dt: start,
                        step: step.spec_duration(),
                    },
                ),
            ),
            is_step_aligned(start@, step.seconds()) && length > i32::MAX ==> (r matches Err(
                Error::Grid(TimeGridError::LengthOverFlow(_)),
            )),
            is_step_aligned(start@, step.seconds()) && length <= i32::MAX && !in_timestamp_range(
                grid_end_nanos(start@, step@, length),
            ) ==> r == Err::<Self, Error>(
                Error::Grid(TimeGridError::EndDateTimeOverFlow { start, step, length: length as i32 }),
            ),
    {
        step.check_datetime_multiple_step(start)?;
        let rows: i32 = match i32::try_from(length) {
            Ok(n) => n,
            Err(e) => {
                return Err(Error::Grid(TimeGridError::LengthOverFlow(e)));
            },
        };
        proof {
            use_type_invariant(&step);
            assert(0 <= step@ * (rows - 1) <= 8_000_000_000_000_000_000_000 || (rows == 0 && step@ * (rows - 1) == -step@))
                by (nonlinear_arith)
                requires
                    0 < step@ <= 3_600_000_000_000,
                    0 <= rows <= 2_147_483_647,
            ;
        }
        let offset = step.duration().mul(rows - 1);
        let end = match start.checked_add(&offset) {
            Some(t) => t,
            None => {
                return Err(Error::Grid(TimeGridError::EndDateTimeOverFlow { start, step, length: rows }));
            },
        };
        proof {
            lemma_grid_end_aligned(start@, step, length);
        }
        step.check_datetime_multiple_step(end)?;
        Ok(RegularTimeGrid { start, step, length, end })
    }

    /// A grid of the whole steps from `start` to `end`: its rows are the
    /// instants before `end`, and `end` closes the last step. The end must be after the
    /// start, and both must be on a multiple of the step.
    pub fn try_new_start_end(start: Timestamp, step: MinuteStep, end: Timestamp) -> (r: Result<
        Self,
        Error,
    >)
        ensures
            is_start_end_outcome(r, start, step, end),
    {
        if end.as_nanosecond() <= start.as_nanosecond() {
            return Err(Error::Grid(TimeGridError::EndBeforeStart { start, end }));
        }
        step.check_datetime_multiple_step(start)?;
        step.check_datetime_multiple_step(end)?;
        proof {
            use_type_invariant(&step);
            step.lemma_duration_view();
        }
        let steps: i128 = end.duration_since(&start).as_nanos() / step.duration().as_nanos();
        match usize::try_from(steps) {
            Ok(length) => Ok(RegularTimeGrid { start, step, length, end }),
            Err(e) => Err(Error::Grid(TimeGridError::LengthOverFlow(e))),
        }
    }

    /// The row of the instant `dt`: the number of whole steps from the start.
    /// The instant must lie between the start and the end of the grid, be on
    /// a multiple of the step and name one of the `length` rows.
    pub fn index_of(&self, dt: &Timestamp) -> (r: Result<usize, Error>)
        ensures
            (dt@ < self.start@ || dt@ > self.end@) ==> r == Err::<usize, Error>(
                Error::Grid(
                    TimeGridError::OutsideBounds { dt: *dt, start: self.start, end: self.end },
                ),
            ),
            self.start@ <= dt@ <= self.end@ && !is_step_aligned(dt@, self.step.seconds()) ==> r
                == Err::<usize, Error>(
                Error::Step(
                    MinuteStepError::DatetimeNonMultipleOfStep {
                        dt: *dt,
                        step: self.step.spec_duration(),
                    },
                ),
            ),
            self.start@ <= dt@ <= self.end@ && is_step_aligned(dt@, self.step.seconds())
                && self.length <= self.spec_index(dt@) <= usize::MAX ==> r == Err::<usize, Error>(
                Error::Grid(
                    TimeGridError::OutsideBounds { dt: *dt, start: self.start, end: self.end },
                ),
            ),
            self.start@ <= dt@ <= self.end@ && is_step_aligned(dt@, self.step.seconds())
                && self.spec_index(dt@) > usize::MAX ==> r == Err::<usize, Error>(
                Error::Grid(TimeGridError::MissAlignedDatetime { dt: *dt, step: self.step }),
            ),
            r is Ok <==> self.start@ <= dt@ <= self.end@ && is_step_aligned(
                dt@,
                self.step.seconds(),
            ) && self.spec_index(dt@) < self.length,
            r matches Ok(i) ==> i == self.spec_index(dt@),
    {
        let outside = Error::Grid(
            TimeGridError::OutsideBounds { dt: *dt, start: self.start, end: self.end },
        );
        if dt.is_before(&self.start) || self.end.is_before(dt) {
            return Err(outside);
        }
        self.step.check_datetime_multiple_step(*dt)?;
        proof {
            use_type_invariant(&self.step);
            self.step.lemma_duration_view();
        }
        let steps: i128 = dt.duration_since(&self.start).as_nanos() / self.step.duration().as_nanos();
        match usize::try_from(steps) {
            Ok(index) => {
                if index < self.length {
                    Ok(index)
                } else {
                    Err(outside)
                }
            },
            Err(_) => Err(Error::Grid(TimeGridError::MissAlignedDatetime { dt: *dt, step: self.step })),
        }
    }

    /// Number of rows `iter` lists: the `length` rows, as far as they do not
    /// pass the end.
    pub open spec fn row_count(self) -> int {
        if self.length < self.point_count() {
            self.length as int
        } else {
            self.point_count()
        }
    }

    /// The rows of the grid, `start + k * step` for `k` below `length`, as
    /// long as they are not after the end.
    pub fn iter(&self) -> (r: Vec<Timestamp>)
        ensures
            r.len() == self.row_count(),
            forall|k: int| 0 <= k < r.len() ==> (#[trigger] r[k])@ == self.point(k),
    {
        let step: SignedDuration = *self.step.duration();
        let mut out: Vec<Timestamp> = Vec::new();
        proof {
            use_type_invariant(&self.step);
            if self.start@ <= self.end@ {
                vstd::arithmetic::div_mod::lemma_div_pos_is_pos(self.end@ - self.start@, self.step@);
            }
        }
        if self.end.is_before(&self.start) || self.length == 0 {
            return out;
        }
        let mut current = self.start;
        proof {
            use_type_invariant(&self.step);
            assert(self.point(0) == self.start@) by (nonlinear_arith);
        }
        loop
            invariant_except_break
                self.start@ <= current@ <= self.end@,
                current@ == self.point(out.len() as int),
                out.len() <= (self.end@ - self.start@) / self.step@,
                out.len() < self.length,
            invariant
                forall|k: int| 0 <= k < out.len() ==> (#[trigger] out[k])@ == self.point(k),
                step@ == self.step@,
            ensures
                out.len() == self.row_count(),
                forall|k: int| 0 <= k < out.len() ==> (#[trigger] out[k])@ == self.point(k),
            decreases self.end@ - current@,
        {
            proof {
                use_type_invariant(&self.step);
                use_type_invariant(&self.end);
                use_type_invariant(&current);
            }
            let ghost n = out.len() as int;
            out.push(current);
            if out.len() == self.length {
                proof {
                    lemma_count_le_div(self.end@ - self.start@, self.step@, n);
                }
                break;
            }
            let next = current.checked_add(&step);
            proof {
                assert(self.point(n + 1) == self.point(n) + self.step@) by (nonlinear_arith);
                assert(n * self.step@ == self.point(n) - self.start@) by (nonlinear_arith);
                assert((n + 1) * self.step@ == self.point(n + 1) - self.start@) by (nonlinear_arith);
            }
            match next {
                Some(t) => {
                    if self.end.is_before(&t) {
                        proof {
                            lemma_div_is_count(self.end@ - self.start@, self.step@, n);
                        }
                        break;
                    }
                    proof {
                        lemma_count_le_div(self.end@ - self.start@, self.step@, n + 1);
                    }
                    current = t;
                },
                None => {
                    proof {
                        lemma_div_is_count(self.end@ - self.start@, self.step@, n);
                    }
                    break;
                },
            }
        }
        out
    }
}

/// The last instant of a grid starting on a multiple of the step is on a
/// multiple of the step too.
proof fn lemma_grid_end_aligned(start: int, step: MinuteStep, length: usize)
    requires
        step.allowed(),
        is_step_aligned(start, step.seconds()),
    ensures
        is_step_aligned(grid_end_nanos(start, step@, length), step.seconds()),
{
    let s = step.seconds() * nanos_per_second();
    assert(s == step@);
    vstd::arithmetic::div_mod::lemma_mod_multiples_vanish(end_offset_steps(length), start, s);
}

/// The step of a grid in nanoseconds is its number of seconds times a
/// billion.
proof fn lemma_step_nanos(step: MinuteStep)
    requires
        step.allowed(),
    ensures
        step@ == step.seconds() * nanos_per_second(),
        step@ > 0,
{
}

/// A grid built with `length` rows (`RegularTimeGrid::try_new`) lists
/// exactly `length` instants.
pub proof fn lemma_built_grid_point_count(g: RegularTimeGrid)
    requires
        g.step.allowed(),
        g.end@ == grid_end_nanos(g.start@, g.step@, g.length),
    ensures
        g.point_count() == g.length,
        g.row_count() == g.length,
{
    let n = g.length as int;
    let s = g.step@;
    assert(g.end@ - g.start@ == s * (n - 1));
    if n >= 1 {
        assert((s * (n - 1)) / s == n - 1) by {
            vstd::arithmetic::div_mod::lemma_div_by_multiple(n - 1, s);
            vstd::arithmetic::mul::lemma_mul_is_commutative(s, n - 1);
        }
    } else {
        assert(s * (n - 1) < 0) by (nonlinear_arith)
            requires
                s > 0,
                n == 0,
        ;
    }
}

/// A grid built from a start to an end (`RegularTimeGrid::try_new_start_end`)
/// has one instant per step and the end: it lists its `length` rows, and
/// its end closes the last of them.
pub proof fn lemma_start_end_grid_rows(g: RegularTimeGrid)
    requires
        g.step.allowed(),
        g.start@ < g.end@,
        is_step_aligned(g.start@, g.step.seconds()),
        is_step_aligned(g.end@, g.step.seconds()),
        g.length == steps_between(g.start@, g.end@, g.step.seconds()),
    ensures
        g.point_count() == g.length + 1,
        g.row_count() == g.length,
        g.point(g.length as int) == g.end@,
{
    let s = g.step@;
    lemma_step_nanos(g.step);
    let d = g.end@ - g.start@;
    assert(g.end@ % s == 0);
    assert(g.start@ % s == 0);
    assert(d % s == 0) by {
        vstd::arithmetic::div_mod::lemma_sub_mod_noop(g.end@, g.start@, s);
        vstd::arithmetic::div_mod::lemma_small_mod(0, s as nat);
    }
    vstd::arithmetic::div_mod::lemma_fundamental_div_mod(d, s);
    assert(g.length * s == d) by (nonlinear_arith)
        requires
            d == s * (d / s) + d % s,
            d % s == 0,
            g.length == d / s,
    ;
}

/// Round trip between the rows of a grid and their instants: on a grid
/// starting on a multiple of its step, the `k`-th instant listed by `iter`
/// lies on the grid and on a multiple of the step, and `index_of` finds it
/// at row `k`.
pub proof fn lemma_index_of_grid_point(g: RegularTimeGrid, k: int)
    requires
        g.step.allowed(),
        is_step_aligned(g.start@, g.step.seconds()),
        0 <= k < g.row_count(),
    ensures
        g.start@ <= g.point(k) <= g.end@,
        is_step_aligned(g.point(k), g.step.seconds()),
        g.spec_index(g.point(k)) == k,
        k < g.length,
{
    let s = g.step@;
    lemma_step_nanos(g.step);
    assert(k * s >= 0) by (nonlinear_arith)
        requires
            k >= 0,
            s > 0,
    ;
    assert(k <= (g.end@ - g.start@) / s);
    assert(k * s <= g.end@ - g.start@) by {
        vstd::arithmetic::div_mod::lemma_fundamental_div_mod(g.end@ - g.start@, s);
        assert(k * s <= s * ((g.end@ - g.start@) / s)) by (nonlinear_arith)
            requires
                k <= (g.end@ - g.start@) / s,
                s > 0,
        ;
    }
    vstd::arithmetic::div_mod::lemma_mod_multiples_vanish(k, g.start@, s);
    vstd::arithmetic::mul::lemma_mul_is_commutative(k, s);
    vstd::arithmetic::div_mod::lemma_div_by_multiple(k, s);
}

/// Round trip the other way: on a grid starting on a multiple of its step,
/// an instant on a multiple of the step between the start and the end is
/// the instant of the row `index_of` gives it.
pub proof fn lemma_grid_point_of_index(g: RegularTimeGrid, dt: int)
    requires
        g.step.allowed(),
        is_step_aligned(g.start@, g.step.seconds()),
        is_step_aligned(dt, g.step.seconds()),
        g.start@ <= dt <= g.end@,
    ensures
        0 <= g.spec_index(dt) < g.point_count(),
        g.point(g.spec_index(dt)) == dt,
{
    let s = g.step@;
    lemma_step_nanos(g.step);
    let d = dt - g.start@;
    assert(dt % s == 0);
    assert(g.start@ % s == 0);
    assert(d % s == 0) by {
        vstd::arithmetic::div_mod::lemma_sub_mod_noop(dt, g.start@, s);
        vstd::arithmetic::div_mod::lemma_small_mod(0, s as nat);
    }
    vstd::arithmetic::div_mod::lemma_fundamental_div_mod(d, s);
    let m = d / s;
    assert(g.spec_index(dt) == m);
    assert(m >= 0) by {
        vstd::arithmetic::div_mod::lemma_div_pos_is_pos(d, s);
    }
    assert(g.point(m) == dt) by (nonlinear_arith)
        requires
            g.point(m) == g.start@ + m * s,
            d == s * m + d % s,
            d % s == 0,
            d == dt - g.start@,
    ;
    assert(m * s <= g.end@ - g.start@) by (nonlinear_arith)
        requires
            d == s * m,
            d == dt - g.start@,
            dt <= g.end@,
    ;
    lemma_count_le_div(g.end@ - g.start@, s, m);
}

} // verus!
