use vstd::prelude::*;

use super::bid::ProductSpecifications;
use super::market_type::MarketType;
use crate::countries::Countries;
use crate::time::civil::CivilTime;
use crate::time::span::Span;

verus! {

/// Errors about markets.
#[derive(Debug)]
pub enum MarketError {
    // -- Temporality
    /// A delta in days other than zero or one day.
    InvalidDeltaDayValue { value: Span },
    /// An interval that ends before it starts on the same day.
    InvalidTimeDefinedBound { start_time: CivilTime, end_time: CivilTime, delta_start_end: Span },
    /// A continuous market with no bidding window on either day.
    EmptyContinuousBiddingBound,
    // -- Specification
    /// A product the market does not offer in the country.
    InvalidProduct {
        market: MarketType,
        country: Countries,
        product: ProductSpecifications,
        possible_products: Vec<ProductSpecifications>,
    },
    // -- Revenue
    /// No revenue series for the market.
    MissingMarketRevenue { market: MarketType, country: Countries },
    // -- config
    /// The market is not supported yet.
    NotImplemented { market: MarketType, country: Countries },
}

} // verus!
