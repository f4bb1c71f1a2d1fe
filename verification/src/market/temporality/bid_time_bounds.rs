use vstd::prelude::*;

use super::auction::{
    ContinuousAuctionTemporality, DynamicAuctionTemporality, StaticAuctionTemporality,
};
use crate::error::Error;
use crate::market::bid::ProductSpecifications;
use crate::market::error::MarketError;
use crate::temporal::grid::{is_start_end_outcome, steps_between, RegularTimeGrid, TimeGridError};
use crate::temporal::step::{is_step_aligned, MinuteStep, MinuteStepError};
use crate::time::civil::CivilTime;
use crate::time::span::Span;
use crate::time::timestamp::{in_timestamp_range, Timestamp};
use crate::time::zoned::{
    valid_round_increment, zoned_checked_add, zoned_end_of_day, zoned_round,
    zoned_start_of_day, zoned_tomorrow, zoned_with_time, RoundingDirection, RoundingUnit, ZonedTimestamp,
};

verus! {

/// A grid describing a bidding window for products of step `step`: it
/// uses that step, starts strictly before it ends, both ends are on a
/// multiple of the step, and its length is the number of steps between them.
pub open spec fn is_bid_window(g: RegularTimeGrid, step: MinuteStep) -> bool {
    &&& g.step == step
    &&& g.start@ < g.end@
    &&& is_step_aligned(g.start@, step.seconds())
    &&& is_step_aligned(g.end@, step.seconds())
    &&& g.length == steps_between(g.start@, g.end@, step.seconds())
}

/// The unit and increment a bidding window is rounded to for a bid step:
/// whole hours for a one-hour step, else its number of minutes.
pub open spec fn step_rounding(step: MinuteStep) -> (RoundingUnit, int) {
    if step@ == 3_600_000_000_000 {
        (RoundingUnit::Hour, 1)
    } else {
        (RoundingUnit::Minute, step@ / 60_000_000_000)
    }
}

/// The unit and increment to round a bidding window to for `step`; `jiff`
/// accepts both.
pub fn rounding_for_step(step: &MinuteStep) -> (r: (RoundingUnit, i64))
    ensures
        (r.0, r.1 as int) == step_rounding(*step),
        valid_round_increment(r.0, r.1 as int),
{
    proof {
        use_type_invariant(step);
    }
    let minutes = step.duration().as_mins();
    if minutes == 60 {
        (RoundingUnit::Hour, 1)
    } else {
        (RoundingUnit::Minute, minutes)
    }
}

/// Whether `e` is an error that computing a bidding window may report: one
/// of `jiff` while moving, setting or rounding zoned datetimes, or one of
/// laying the window on a grid (an end not after the start, an end on no
/// multiple of the step, or too many steps).
pub open spec fn is_window_error(e: Error) -> bool {
    match e {
        Error::Jiff(_) => true,
        Error::Step(MinuteStepError::DatetimeNonMultipleOfStep { .. }) => true,
        Error::Grid(TimeGridError::EndBeforeStart { .. }) => true,
        Error::Grid(TimeGridError::LengthOverFlow(_)) => true,
        _ => false,
    }
}

/// Whether `e` is an error that computing a window whose rounded start comes
/// before its rounded end may report: one of `jiff`, or a rounded bound that
/// is on no multiple of the bid step `step` counted from the Unix epoch.
pub open spec fn is_fitted_window_error(e: Error, step: MinuteStep) -> bool {
    match e {
        Error::Jiff(_) => true,
        Error::Step(MinuteStepError::DatetimeNonMultipleOfStep { step: s, .. }) => s
            == step.spec_duration(),
        _ => false,
    }
}

/// Defines the ability to compute bidding start and end relative
/// to a reference timestamp which will be in our case the run time
/// of the process.
pub trait ToBidTimeBounds {
    /// Returns `None` when the computed bidding window does not contain a
    /// single full bid step (e.g. it is narrower than the step, or empty).
    fn to_bid_time_bounds(
        &self,
        reference_time: &Timestamp,
        bid_specifications: &ProductSpecifications,
    ) -> (r: Result<Option<RegularTimeGrid>, Error>)
        ensures
            r matches Ok(Some(g)) ==> is_bid_window(g, bid_specifications.step),
            r matches Err(e) ==> is_window_error(e) || e == Error::Market(
                MarketError::EmptyContinuousBiddingBound,
            ),
    ;
}

/// Convenience method that adds a delta in days and sets the time to the new
/// zoned datetime.
fn add_and_set_time(reference: &ZonedTimestamp, delta: &Span, time: CivilTime) -> (r: Result<
    ZonedTimestamp,
    Error,
>)
    ensures
        r matches Ok(w) ==> w.time_zone == reference.time_zone,
        r matches Err(e) ==> e is Jiff,
{
    let moved = match zoned_checked_add(reference, delta) {
        Ok(z) => z,
        Err(e) => return Err(Error::Jiff(e)),
    };
    match zoned_with_time(&moved, &time) {
        Ok(z) => Ok(z),
        Err(e) => Err(Error::Jiff(e)),
    }
}

/// Adapts bidding start and end to fit bid step which is
/// expressed in minutes.
/// We round up start to next multiple of bid step and end
/// to the previous one as convention is as starting convention
/// to make sure to have full steps inside interval.
///
/// It returns None when the window between start and end is too narrow
/// and smaller than the bid step. In this case, there is no bidding interval
/// to be returned.
fn fit_bounds_to_bid_step(start: &ZonedTimestamp, end: &ZonedTimestamp, bid_step: &MinuteStep) -> (r:
    Result<Option<(ZonedTimestamp, ZonedTimestamp)>, Error>)
    ensures
        r matches Ok(Some(b)) ==> b.0.timestamp@ < b.1.timestamp@ && b.0.time_zone
            == start.time_zone && b.1.time_zone == end.time_zone,
        r matches Err(e) ==> e is Jiff,
{
    let (unit, increment) = rounding_for_step(bid_step);
    let new_start = match zoned_round(start, unit, increment, RoundingDirection::Expand) {
        Ok(z) => z,
        Err(e) => return Err(Error::Jiff(e)),
    };
    let new_end = match zoned_round(end, unit, increment, RoundingDirection::Truncate) {
        Ok(z) => z,
        Err(e) => return Err(Error::Jiff(e)),
    };
    Ok(fitted_bounds(new_start, new_end))
}

/// Bidding bounds already rounded to the bid step: none when the rounded
/// start is not before the rounded end, as the window then holds no full
/// step.
pub fn fitted_bounds(new_start: ZonedTimestamp, new_end: ZonedTimestamp) -> (r: Option<
    (ZonedTimestamp, ZonedTimestamp),
>)
    ensures
        r == if new_start.timestamp@ < new_end.timestamp@ {
            Some((new_start, new_end))
        } else {
            None
        },
{
    if new_start.timestamp.is_before(&new_end.timestamp) {
        Some((new_start, new_end))
    } else {
        None
    }
}

/// Whether `r` is the outcome of laying a bidding window from `start` to
/// `end` on a grid of step `step`: the grid that
/// `RegularTimeGrid::try_new_start_end` builds, or its error.
pub open spec fn is_window_outcome(
    r: Result<Option<RegularTimeGrid>, Error>,
    start: Timestamp,
    step: MinuteStep,
    end: Timestamp,
) -> bool {
    match r {
        Ok(None) => false,
        Ok(Some(g)) => is_start_end_outcome(Ok(g), start, step, end),
        Err(e) => is_start_end_outcome(Err(e), start, step, end),
    }
}

/// The grid of the bidding window fitted to the bid step, or none when
/// no window was fitted.
pub fn window_grid(bounds: Option<(ZonedTimestamp, ZonedTimestamp)>, step: MinuteStep) -> (r:
    Result<Option<RegularTimeGrid>, Error>)
    ensures
        bounds is None ==> r == Ok::<Option<RegularTimeGrid>, Error>(None),
        bounds matches Some(b) ==> is_window_outcome(r, b.0.timestamp, step, b.1.timestamp),
        bounds matches Some(b) && b.0.timestamp@ < b.1.timestamp@ ==> (r matches Err(e)
            ==> is_fitted_window_error(e, step)),
{
    match bounds {
        None => Ok(None),
        Some((start_at, end_at)) => {
            proof {
                use_type_invariant(&start_at.timestamp);
                use_type_invariant(&end_at.timestamp);
                use_type_invariant(&step);
                if start_at.timestamp@ < end_at.timestamp@ {
                    lemma_window_steps_fit(start_at.timestamp@, end_at.timestamp@, step.seconds());
                }
            }
            match RegularTimeGrid::try_new_start_end(start_at.timestamp, step, end_at.timestamp) {
                Ok(grid) => Ok(Some(grid)),
                Err(e) => Err(e),
            }
        },
    }
}

/// The steps between two instants always fit in a `usize`.
proof fn lemma_window_steps_fit(start: int, end: int, step_seconds: int)
    requires
        in_timestamp_range(start),
        in_timestamp_range(end),
        start < end,
        step_seconds >= 900,
    ensures
        steps_between(start, end, step_seconds) <= usize::MAX,
{
    let d = end - start;
    let s = step_seconds * 1_000_000_000;
    assert(0 < d <= 700_000_000_000_000_000_000);
    assert(s >= 900_000_000_000);
    assert(d / s <= d / 900_000_000_000) by {
        vstd::arithmetic::div_mod::lemma_div_is_ordered_by_denominator(d, 900_000_000_000, s);
    }
    assert(d / 900_000_000_000int <= 700_000_000_000_000_000_000int / 900_000_000_000int) by {
        vstd::arithmetic::div_mod::lemma_div_is_ordered(d, 700_000_000_000_000_000_000int, 900_000_000_000int);
    }
}

/// The window joining the bidding windows of a continuous market on the
/// current day and on the next day (see `join_day_windows`).
pub open spec fn joined_windows(
    same_day: Option<(Timestamp, Timestamp)>,
    next_day: Option<(Timestamp, Timestamp)>,
) -> Option<(Timestamp, Timestamp)> {
    match (same_day, next_day) {
        (None, None) => None,
        (Some(s), None) => Some(s),
        (Some(s), Some(n)) => Some((s.0, n.1)),
        (None, Some(n)) => Some(n),
    }
}

/// Joins the bidding windows of a continuous market on the current day and
/// on the next day. Bidding being continuous, when both exist the window runs
/// from the start of the first to the end of the second; when only one
/// exists it is the window; when none exists there is no window.
pub fn join_day_windows(
    same_day: Option<(Timestamp, Timestamp)>,
    next_day: Option<(Timestamp, Timestamp)>,
) -> (r: Option<(Timestamp, Timestamp)>)
    ensures
        r == joined_windows(same_day, next_day),
{
    match (same_day, next_day) {
        (None, None) => None,
        (Some(same), None) => Some(same),
        (Some((same_start_at, _)), Some((_, next_end_at))) => Some((same_start_at, next_end_at)),
        (None, Some(next)) => Some(next),
    }
}

impl ToBidTimeBounds for StaticAuctionTemporality {
    fn to_bid_time_bounds(
        &self,
        reference_time: &Timestamp,
        bid_specifications: &ProductSpecifications,
    ) -> (r: Result<Option<RegularTimeGrid>, Error>)
        ensures
            r matches Err(e) ==> is_window_error(e) && is_fitted_window_error(
                e,
                bid_specifications.step,
            ),
    {
        let zoned_reference_time = ZonedTimestamp::new(*reference_time, &self.timezone);
        let zoned_open_at = match zoned_with_time(
            &zoned_reference_time,
            &self.open_interval.start_time,
        ) {
            Ok(z) => z,
            Err(e) => return Err(Error::Jiff(e)),
        };
        let zoned_close_at = add_and_set_time(
            &zoned_open_at,
            self.open_interval.delta_start_end.value(),
            self.open_interval.end_time,
        )?;
        let zoned_bidding_start = add_and_set_time(
            &zoned_close_at,
            self.delta_close_bidding_start.value(),
            self.bidding_interval.start_time,
        )?;
        let zoned_bidding_end = add_and_set_time(
            &zoned_bidding_start,
            self.bidding_interval.delta_start_end.value(),
            self.bidding_interval.end_time,
        )?;
        let bounds = fit_bounds_to_bid_step(
            &zoned_bidding_start,
            &zoned_bidding_end,
            &bid_specifications.step,
        )?;
        window_grid(bounds, bid_specifications.step)
    }
}

impl ToBidTimeBounds for DynamicAuctionTemporality {
    /// The bidding window from the bidding interval of the day reached by
    /// the neutralization delay. No bid starts before the reference time
    /// plus the neutralization delay: an earlier interval start is moved
    /// forward to that instant (see `not_before`) before being rounded up to
    /// the bid step.
    fn to_bid_time_bounds(
        &self,
        reference_time: &Timestamp,
        bid_specifications: &ProductSpecifications,
    ) -> (r: Result<Option<RegularTimeGrid>, Error>)
        ensures
            r matches Err(e) ==> is_window_error(e) && is_fitted_window_error(
                e,
                bid_specifications.step,
            ),
    {
        let zoned_reference_time = ZonedTimestamp::new(*reference_time, &self.timezone);
        let zoned_bidding_start = add_and_set_time(
            &zoned_reference_time,
            &self.neutralization_delay,
            self.bidding_interval.start_time,
        )?;
        let zoned_bidding_end = add_and_set_time(
            &zoned_bidding_start,
            self.bidding_interval.delta_start_end.value(),
            self.bidding_interval.end_time,
        )?;
        // No bid starts within the neutralization delay.
        let earliest_start = match zoned_checked_add(
            &zoned_reference_time,
            &self.neutralization_delay,
        ) {
            Ok(z) => z,
            Err(e) => return Err(Error::Jiff(e)),
        };
        let bounds = fit_bounds_to_bid_step(
            &not_before(zoned_bidding_start, earliest_start),
            &zoned_bidding_end,
            &bid_specifications.step,
        )?;
        window_grid(bounds, bid_specifications.step)
    }
}

/// Drops the time zones of fitted bounds.
fn instants(bounds: Option<(ZonedTimestamp, ZonedTimestamp)>) -> (r: Option<(Timestamp, Timestamp)>)
    ensures
        r == match bounds {
            None => None,
            Some(b) => Some((b.0.timestamp, b.1.timestamp)),
        },
{
    match bounds {
        None => None,
        Some((start_at, end_at)) => Some((start_at.timestamp, end_at.timestamp)),
    }
}

impl ToBidTimeBounds for ContinuousAuctionTemporality {
    fn to_bid_time_bounds(
        &self,
        reference_time: &Timestamp,
        bid_specifications: &ProductSpecifications,
    ) -> (r: Result<Option<RegularTimeGrid>, Error>)
        ensures
            r is Ok ==> r matches Ok(Some(_)),
            r matches Err(e) ==> is_window_error(e) || e == Error::Market(
                MarketError::EmptyContinuousBiddingBound,
            ),
    {
        let zoned_reference_time = ZonedTimestamp::new(*reference_time, &self.timezone);
        // Compute same day bidding bounds.
        let same_day_end = match zoned_end_of_day(&zoned_reference_time) {
            Ok(z) => z,
            Err(e) => return Err(Error::Jiff(e)),
        };
        let same_day_start = match zoned_checked_add(
            &zoned_reference_time,
            &self.neutralization_delay,
        ) {
            Ok(z) => z,
            Err(e) => return Err(Error::Jiff(e)),
        };
        let same_day_bounds = fit_bounds_to_bid_step(
            &same_day_start,
            &same_day_end,
            &bid_specifications.step,
        )?;
        // Compute next day bidding bounds.
        let tomorrow = match zoned_tomorrow(&zoned_reference_time) {
            Ok(z) => z,
            Err(e) => return Err(Error::Jiff(e)),
        };
        let next_bidding_day_start = match zoned_start_of_day(&tomorrow) {
            Ok(z) => z,
            Err(e) => return Err(Error::Jiff(e)),
        };
        // At reference times at the end of the day, adding the neutralization
        // delay will exceed the scope of the current day into next one and
        // we need to exclude the relevant times from bidding of next.
        let next_day_bidding_start = next_day_bidding_start(
            next_bidding_day_start,
            same_day_start,
        );
        let next_day_bidding_end = match zoned_end_of_day(&next_day_bidding_start) {
            Ok(z) => z,
            Err(e) => return Err(Error::Jiff(e)),
        };
        let next_day_bounds = fit_bounds_to_bid_step(
            &next_day_bidding_start,
            &next_day_bidding_end,
            &bid_specifications.step,
        )?;
        continuous_window(
            instants(same_day_bounds),
            instants(next_day_bounds),
            bid_specifications.step,
        )
    }
}

/// The later of `start` and `earliest`: a bidding start moved forward to the
/// earliest instant a bid may start at.
pub fn not_before(start: ZonedTimestamp, earliest: ZonedTimestamp) -> (r: ZonedTimestamp)
    ensures
        r == if start.timestamp@ >= earliest.timestamp@ {
            start
        } else {
            earliest
        },
{
    if !start.timestamp.is_before(&earliest.timestamp) {
        start
    } else {
        earliest
    }
}

/// Where bidding on the next day starts: at the start of that day, unless
/// the neutralization delay already reaches past it, in which case bidding
/// starts after the delay.
pub fn next_day_bidding_start(next_day_start: ZonedTimestamp, same_day_start: ZonedTimestamp) -> (r:
    ZonedTimestamp)
    ensures
        r == if next_day_start.timestamp@ >= same_day_start.timestamp@ {
            next_day_start
        } else {
            same_day_start
        },
{
    if !next_day_start.timestamp.is_before(&same_day_start.timestamp) {
        next_day_start
    } else {
        same_day_start
    }
}

/// The bidding window of a continuous market from its windows on the
/// current day and on the next day. Bidding being continuous, one of them
/// always exists: when neither does, the computation went wrong and
/// `EmptyContinuousBiddingBound` is reported.
pub fn continuous_window(
    same_day: Option<(Timestamp, Timestamp)>,
    next_day: Option<(Timestamp, Timestamp)>,
    step: MinuteStep,
) -> (r: Result<Option<RegularTimeGrid>, Error>)
    ensures
        joined_windows(same_day, next_day) is None ==> r == Err::<Option<RegularTimeGrid>, Error>(
            Error::Market(MarketError::EmptyContinuousBiddingBound),
        ),
        joined_windows(same_day, next_day) matches Some(w) ==> is_window_outcome(r, w.0, step, w.1),
{
    match join_day_windows(same_day, next_day) {
        None => Err(Error::Market(MarketError::EmptyContinuousBiddingBound)),
        Some((start_at, end_at)) => match RegularTimeGrid::try_new_start_end(start_at, step, end_at) {
            Ok(grid) => Ok(Some(grid)),
            Err(e) => Err(e),
        },
    }
}

} // verus!
