use vstd::prelude::*;

use crate::countries::Countries;
use crate::error::Error;
use crate::market::bid::ProductSpecifications;
use crate::market::config::{is_not_implemented, lemma_config_offers, offers_product, AllMarketConfig};
use crate::market::error::MarketError;
use crate::market::market_type::MarketType;
use crate::market::temporality::bid_time_bounds::{
    is_bid_window, is_fitted_window_error, is_window_error, ToBidTimeBounds,
};
use crate::temporal::grid::RegularTimeGrid;
use crate::time::timestamp::Timestamp;

verus! {

/// A market a perimeter bids on: the market, its country, the product bid
/// and the configuration of the market in that country.
#[derive(Debug, Clone)]
pub struct MarketSpec {
    pub market: MarketType,
    pub country: Countries,
    pub product: ProductSpecifications,
    pub config: AllMarketConfig,
}

/// Whether `product` is one of `products`.
fn contains_product(products: &Vec<ProductSpecifications>, product: &ProductSpecifications) -> (r:
    bool)
    ensures
        r == products@.contains(*product),
{
    let mut i: usize = 0;
    while i < products.len()
        invariant
            i <= products.len(),
            forall|j: int| 0 <= j < i ==> products@[j] != *product,
        decreases products.len() - i,
    {
        if products[i] == *product {
            assert(products@[i as int] == *product);
            return true;
        }
        i = i + 1;
    }
    false
}

/// A copy of `products`.
fn copy_products(products: &Vec<ProductSpecifications>) -> (r: Vec<ProductSpecifications>)
    ensures
        r@ == products@,
{
    let mut out: Vec<ProductSpecifications> = Vec::new();
    let mut i: usize = 0;
    while i < products.len()
        invariant
            i <= products.len(),
            out@ == products@.take(i as int),
        decreases products.len() - i,
    {
        out.push(products[i]);
        i = i + 1;
        assert(out@ =~= products@.take(i as int));
    }
    assert(products@.take(products.len() as int) =~= products@);
    out
}

impl MarketSpec {
    /// The specification of bidding `product` on `market` in `country`. The
    /// market must be configured (see `AllMarketConfig::try_new`) and offer
    /// the product there.
    pub fn try_new(market: MarketType, country: Countries, product: ProductSpecifications) -> (r:
        Result<Self, Error>)
        ensures
            is_not_implemented(market) ==> r == Err::<Self, Error>(
                Error::Market(MarketError::NotImplemented { market, country }),
            ),
            !is_not_implemented(market) && !offers_product(market, product) ==> (r matches Err(e)
                && (e is Jiff || e matches Error::Market(MarketError::InvalidProduct { .. }))),
            r matches Ok(s) ==> s.market == market && s.country == country && s.product == product
                && s.config.is_config_of(market, country) && offers_product(market, product),
            r matches Err(Error::Market(MarketError::InvalidProduct {
                market: m,
                country: c,
                product: p,
                possible_products,
            })) ==> m == market && c == country && p == product && !offers_product(market, product)
                && (forall|q: ProductSpecifications| #[trigger] possible_products@.contains(q)
                <==> offers_product(market, q)),
            r matches Err(e) ==> e is Jiff || e is Market,
    {
        let config = AllMarketConfig::try_new(&market, &country)?;
        Self::with_config(market, country, product, config)
    }

    /// The specification of bidding `product` on `market` in `country` with
    /// the configuration of that market there: it exists exactly when the
    /// configuration offers the product, and otherwise reports the products
    /// it offers.
    pub fn with_config(
        market: MarketType,
        country: Countries,
        product: ProductSpecifications,
        config: AllMarketConfig,
    ) -> (r: Result<Self, Error>)
        requires
            config.is_config_of(market, country),
        ensures
            r is Ok <==> config.spec_possible_products().contains(product),
            r matches Ok(s) ==> s.market == market && s.country == country && s.product == product
                && s.config == config,
            r matches Err(e) ==> (e matches Error::Market(MarketError::InvalidProduct {
                market: m,
                country: c,
                product: p,
                possible_products,
            }) && m == market && c == country && p == product && possible_products@
                == config.spec_possible_products()),
            forall|q: ProductSpecifications| #[trigger] config.spec_possible_products().contains(q)
                <==> offers_product(market, q),
    {
        proof {
            lemma_config_offers(config, market, country, product);
            assert forall|q: ProductSpecifications| #[trigger] config.spec_possible_products().contains(q)
                <==> offers_product(market, q) by {
                lemma_config_offers(config, market, country, q);
            }
        }
        if contains_product(config.possible_products(), &product) {
            Ok(MarketSpec { market, country, product, config })
        } else {
            let possible_products = copy_products(config.possible_products());
            Err(
                Error::Market(
                    MarketError::InvalidProduct { market, country, product, possible_products },
                ),
            )
        }
    }

    /// The bidding window open at `reference_time` for the product of this
    /// specification, or `None` when it holds no full step.
    pub fn get_bid_time_bounds(&self, reference_time: &Timestamp) -> (r: Result<
        Option<RegularTimeGrid>,
        Error,
    >)
        ensures
            r matches Ok(Some(g)) ==> is_bid_window(g, self.product.step),
            r matches Err(e) ==> is_window_error(e) || e == Error::Market(
                MarketError::EmptyContinuousBiddingBound,
            ),
            self.config is IntradayContinuous ==> (r is Ok ==> r matches Ok(Some(_))),
            !(self.config is IntradayContinuous) ==> (r matches Err(e) ==> is_window_error(e)
                && is_fitted_window_error(e, self.product.step)),
    {
        self.config.to_bid_time_bounds(reference_time, &self.product)
    }
}

} // verus!
