//! Regular time grids, their allowed steps, and time series laid on them.

pub mod grid;
pub mod series;
pub mod step;
