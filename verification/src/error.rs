use vstd::prelude::*;

use crate::market::error::MarketError;
use crate::problem::error::ProblemError;
use crate::temporal::grid::TimeGridError;
use crate::temporal::series::TimeSeriesError;
use crate::temporal::step::MinuteStepError;
use jiff::Error as JiffError;

verus! {

/// Every error the library reports.
#[derive(Debug)]
pub enum Error {
    /// A grid cannot be built, or an instant is not on it.
    Grid(TimeGridError),
    /// A time series cannot be built or read.
    TimeSeries(TimeSeriesError),
    /// A step is invalid or an instant is not on it.
    Step(MinuteStepError),
    /// A market, its products or its revenues are inconsistent.
    Market(MarketError),
    /// An optimization problem is inconsistent.
    Problem(ProblemError),
    /// An error of the `jiff` crate: time zone lookup, civil time or zoned
    /// arithmetic.
    Jiff(JiffError),
}

} // verus!
