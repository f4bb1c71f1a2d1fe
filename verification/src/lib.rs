//! Verified core of the golion optimisation domain: regular time grids,
//! market configurations and bidding windows, and the consistency rules of an
//! optimisation problem.

pub mod constants;
pub mod contract;
pub mod countries;
pub mod error;
pub mod market;
pub mod temporal;
pub mod time;

pub use error::Error;
pub mod problem;
