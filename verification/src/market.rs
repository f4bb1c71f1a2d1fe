//! Markets: their types, products, configurations per country, bidding
//! windows and revenues.

pub mod bid;
pub mod error;
pub mod market_type;
pub mod temporality;
pub mod config;
pub mod specification;
pub mod revenue;
