//! Perimeters as requested, and how they turn into their domain definitions.
use vstd::prelude::*;

use super::choice::{is_market_specs_outcome, MarketChoice};
use super::error::Error;
use crate::countries::Countries;
use crate::market::market_type::{AncillaryMarketType, WholesaleMarketType};
use crate::problem::definition::{perimeter_penalty, ReserveDefinition};

verus! {

/// Rows of data for one market. Each row is a `V`.
#[derive(Debug)]
pub struct MarketSeries<M, V> {
    pub market: M,
    pub values: Vec<V>,
}

/// A balance responsible party perimeter as requested: the entity facing
/// the transmission system operators, on which imbalances are measured and
/// paid. Each commitment row is a `C`.
#[derive(Debug)]
pub struct BrpPerimeter<C> {
    pub id: u128,
    /// Ids of the assets composing the perimeter.
    pub composition: Vec<u128>,
    /// Wholesale markets to bid on.
    pub markets: Vec<MarketChoice<WholesaleMarketType>>,
    /// Commitments already taken, market by market.
    pub commitments: Vec<MarketSeries<WholesaleMarketType, C>>,
}

/// A reserve perimeter as requested, for one ancillary service. Each
/// commitment is a `C`.
#[derive(Debug)]
pub struct ReservePerimeter<C> {
    pub id: u128,
    pub market: MarketChoice<AncillaryMarketType>,
    /// Ids of the reserve units or groups composing the perimeter.
    pub composition: Vec<u128>,
    /// Commitments already taken on the ancillary service.
    pub commitments: Vec<C>,
}

impl<C> ReservePerimeter<C> {
    /// The domain definition of the perimeter in `country`: its market
    /// choice becomes a market specification (see
    /// `MarketChoice::try_into_market_specs`), the rest is kept.
    pub fn try_into_definition(self, country: &Countries) -> (r: Result<ReserveDefinition<C>, Error>)
        ensures
            r matches Ok(d) ==> {
                &&& is_market_specs_outcome(self.market, *country, Ok(d.spec_market()))
                &&& d.spec_id() == self.id
                &&& d.spec_composition() == self.composition@
                &&& d.spec_commitments() == self.commitments@
                &&& d.spec_penalty() == perimeter_penalty()
            },
            r matches Err(e) ==> is_market_specs_outcome(self.market, *country, Err(e)),
    {
        let market = self.market.try_into_market_specs(country)?;
        Ok(ReserveDefinition::new(self.id, market, self.composition, self.commitments))
    }
}

} // verus!
