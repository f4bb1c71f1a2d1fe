//! When bids can be placed on a market: auction temporalities and the
//! bidding windows they open at a reference time.

pub mod auction;
pub mod bid_time_bounds;
pub mod interval;
