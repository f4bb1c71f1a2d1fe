//! A market an asset or a perimeter chooses to bid on, with its product.
use vstd::prelude::*;

use super::error::Error;
use crate::countries::Countries;
use crate::error::Error as DomainError;
use crate::market::bid::ProductSpecifications;
use crate::market::config::{is_not_implemented, market_steps, offers_product};
use crate::market::error::MarketError;
use crate::market::market_type::{AncillaryMarketType, MarketKind, MarketType, WholesaleMarketType};
use crate::market::specification::MarketSpec;
use crate::temporal::step::{is_allowed_step, MinuteStepError};
use crate::time::span::Span;

verus! {

/// Nanoseconds in `minutes` minutes.
pub open spec fn minutes_nanos(minutes: u16) -> int {
    minutes * 60_000_000_000
}

/// A market to bid on, with the step in minutes and the power increment in
/// kW of the product bid there.
#[derive(Debug, Clone, Copy)]
pub struct MarketChoice<T> {
    pub market: T,
    pub product_step_minutes: u16,
    pub product_increment_kw: u16,
}

/// Whether `r` is what bidding the product of `choice` on its market in
/// `country` may give: the step must be 15, 30 or 60 minutes, and the market
/// must be configured and offer the product there.
pub open spec fn is_market_specs_outcome<T: MarketKind>(
    choice: MarketChoice<T>,
    country: Countries,
    r: Result<MarketSpec, Error>,
) -> bool {
    let market = choice.market.spec_market_type();
    let nanos = minutes_nanos(choice.product_step_minutes);
    &&& !is_allowed_step(nanos) ==> (r matches Err(
        Error::Domain(DomainError::Step(MinuteStepError::InvalidGranularity { step })),
    ) && step@ == nanos)
    &&& is_allowed_step(nanos) && is_not_implemented(market) ==> r == Err::<MarketSpec, Error>(
        Error::Domain(DomainError::Market(MarketError::NotImplemented { market, country })),
    )
    &&& r matches Ok(s) ==> {
        &&& s.market == market
        &&& s.country == country
        &&& s.product.step@ == nanos
        &&& s.product.increment@ == choice.product_increment_kw
        &&& s.config.is_config_of(s.market, s.country)
        &&& offers_product(market, s.product)
    }
    &&& is_allowed_step(nanos) && !is_not_implemented(market) && !(choice.product_increment_kw
        == 10 && market_steps(market).contains(nanos)) ==> (r matches Err(Error::Domain(e)) && (
    e is Jiff || e matches DomainError::Market(MarketError::InvalidProduct { .. })))
    &&& r matches Err(Error::Domain(DomainError::Market(MarketError::InvalidProduct {
        market: m,
        country: c,
        product,
        possible_products,
    }))) ==> {
        &&& m == market
        &&& c == country
        &&& product.step@ == nanos
        &&& product.increment@ == choice.product_increment_kw
        &&& !offers_product(market, product)
        &&& forall|q: ProductSpecifications| #[trigger] possible_products@.contains(q)
            <==> offers_product(market, q)
    }
    &&& r matches Err(e) ==> e is Domain
}

impl<T: MarketKind> MarketChoice<T> {
    /// The specification of bidding this product on this market in
    /// `country`. The step must be 15, 30 or 60 minutes, and the market must
    /// be configured and offer the product there.
    pub fn try_into_market_specs(&self, country: &Countries) -> (r: Result<MarketSpec, Error>)
        ensures
            is_market_specs_outcome(*self, *country, r),
    {
        let step = Span::from_minutes(self.product_step_minutes as i64);
        let product = match ProductSpecifications::try_new(step, self.product_increment_kw) {
            Ok(p) => p,
            Err(e) => {
                return Err(Error::Domain(e));
            },
        };
        match MarketSpec::try_new(self.market.market_type(), *country, product) {
            Ok(s) => Ok(s),
            Err(e) => Err(Error::Domain(e)),
        }
    }
}

/// A choice of a wholesale market that is turned into a market
/// specification specifies that very wholesale market, and one of an
/// ancillary market that very ancillary market.
pub proof fn lemma_choice_specifies_its_market(
    wholesale: MarketChoice<WholesaleMarketType>,
    ancillary: MarketChoice<AncillaryMarketType>,
    country: Countries,
    rw: Result<MarketSpec, Error>,
    ra: Result<MarketSpec, Error>,
)
    requires
        is_market_specs_outcome(wholesale, country, rw),
        is_market_specs_outcome(ancillary, country, ra),
    ensures
        rw matches Ok(s) ==> s.market == MarketType::WholeSale(wholesale.market),
        ra matches Ok(s) ==> s.market == MarketType::Ancillary(ancillary.market),
{
}

} // verus!
