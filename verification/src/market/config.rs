use vstd::prelude::*;

use crate::countries::Countries;
use crate::error::Error;
use crate::market::bid::{KiloWattIncrement, ProductSpecifications};
use crate::temporal::step::MinuteStep;
use crate::market::error::MarketError;
use crate::market::market_type::{
    AncillaryMarketType, CapacityAncillaryMarketType, EnergyAncillaryMarketType, MarketType,
    WholesaleMarketType,
};
use crate::market::temporality::auction::{
    ContinuousAuctionTemporality, DynamicAuctionTemporality, StaticAuctionTemporality,
};
use crate::market::temporality::bid_time_bounds::{
    is_bid_window, is_fitted_window_error, is_window_error, ToBidTimeBounds,
};
use crate::market::temporality::interval::{hm, TimeDefinedInterval};
use crate::temporal::grid::RegularTimeGrid;
use crate::time::span::Span;
use crate::time::timestamp::Timestamp;
use crate::time::zoned::time_zone_get;
use jiff::tz::TimeZone;

verus! {

/// Nanoseconds in 15 minutes, 30 minutes and one hour.
pub open spec fn min15() -> int {
    900_000_000_000
}

pub open spec fn min30() -> int {
    1_800_000_000_000
}

pub open spec fn hour1() -> int {
    3_600_000_000_000
}

// region: Market config
/// A particular market configuration
#[derive(Debug, Clone)]
pub struct MarketConfig<T> {
    /// Country of market.
    pub country: Countries,
    /// Auction temporality
    pub auction: T,
    /// Possible products, without repetition.
    pub possible_products: Vec<ProductSpecifications>,
}

/// The products offered are exactly those with the given steps (in
/// nanoseconds, in that order) and an increment of 10 kW.
pub open spec fn offers_steps(products: Seq<ProductSpecifications>, steps: Seq<int>) -> bool {
    &&& products.len() == steps.len()
    &&& forall|i: int|
        0 <= i < products.len() ==> (#[trigger] products[i]).step@ == steps[i]
            && products[i].increment@ == 10
}

/// The steps, in nanoseconds, of the products a market offers (each with
/// an increment of 10 kW); none for the markets not implemented.
pub open spec fn market_steps(market: MarketType) -> Seq<int> {
    match market {
        MarketType::WholeSale(WholesaleMarketType::IntradayContinuous) => seq![min15(), min30(), hour1()],
        MarketType::WholeSale(_) => seq![min15(), hour1()],
        MarketType::Ancillary(AncillaryMarketType::Energy(_)) => seq![min15()],
        MarketType::Ancillary(AncillaryMarketType::Capacity(_)) => seq![],
    }
}

/// Whether `market` offers `product`: a product of one of its steps with an
/// increment of 10 kW.
pub open spec fn offers_product(market: MarketType, product: ProductSpecifications) -> bool {
    product.increment@ == 10 && market_steps(market).contains(product.step@)
}

/// Products offered for the given steps are exactly the products of those
/// steps with an increment of 10 kW.
proof fn lemma_offers_steps_contains(
    products: Seq<ProductSpecifications>,
    steps: Seq<int>,
    product: ProductSpecifications,
)
    requires
        offers_steps(products, steps),
    ensures
        products.contains(product) <==> product.increment@ == 10 && steps.contains(product.step@),
{
    if products.contains(product) {
        let i = choose|i: int| 0 <= i < products.len() && products[i] == product;
        assert(steps[i] == product.step@);
    }
    if product.increment@ == 10 && steps.contains(product.step@) {
        let i = choose|i: int| 0 <= i < steps.len() && steps[i] == product.step@;
        assert(products[i].step@ == product.step@);
        MinuteStep::lemma_view_eq(products[i].step, product.step);
        KiloWattIncrement::lemma_view_eq(products[i].increment, product.increment);
        assert(products[i] == product);
    }
}

/// The configuration of a market offers exactly the products that the market
/// offers.
pub proof fn lemma_config_offers(
    c: AllMarketConfig,
    market: MarketType,
    country: Countries,
    product: ProductSpecifications,
)
    requires
        c.is_config_of(market, country),
    ensures
        c.spec_possible_products().contains(product) <==> offers_product(market, product),
{
    match market {
        MarketType::WholeSale(WholesaleMarketType::IntradayContinuous) => {
            lemma_offers_steps_contains(c.spec_possible_products(), seq![min15(), min30(), hour1()], product);
        },
        MarketType::WholeSale(_) => {
            lemma_offers_steps_contains(c.spec_possible_products(), seq![min15(), hour1()], product);
        },
        MarketType::Ancillary(AncillaryMarketType::Energy(_)) => {
            lemma_offers_steps_contains(c.spec_possible_products(), seq![min15()], product);
        },
        MarketType::Ancillary(AncillaryMarketType::Capacity(_)) => {},
    }
}

/// A static auction held from `open` to `close` (`open_days` later), whose
/// bidding goes from `bid_start` to `bid_end` on one day, starting
/// `delta_days` after the close.
pub open spec fn static_auction_is(
    a: StaticAuctionTemporality,
    open: (i8, i8),
    close: (i8, i8),
    open_days: i64,
    bid_start: (i8, i8),
    delta_days: i64,
) -> bool {
    &&& a.open_interval.is(hm(open.0, open.1), hm(close.0, close.1), open_days)
    &&& a.bidding_interval.is(hm(bid_start.0, bid_start.1), hm(23, 59), 0)
    &&& a.delta_close_bidding_start.spec_value() == (Span { days: delta_days, ..Span::zero() })
}

/// A continuous auction whose next-day gate opens at `gate` and whose
/// neutralization delay is `delay`.
pub open spec fn continuous_auction_is(
    a: ContinuousAuctionTemporality,
    gate: (i8, i8),
    delay: Span,
) -> bool {
    a.next_day_gate_open_time == hm(gate.0, gate.1) && a.neutralization_delay == delay
}

/// All market configuration representation.
/// This struct groups all market configurations and matches it
/// per country. The methods defined for each market option is the place
/// designed to set any specific configuration for a certain country.
/// It can be a specific dedicated liquidity constraint translated in a neutralization
/// delay or a specific open and closure times or bid granularity...
///
/// aFRR and FCR are not implemented yet and some configurations may be corrected
/// later on with further verifications.
#[derive(Debug, Clone)]
pub enum AllMarketConfig {
    SpotDayAhead(MarketConfig<StaticAuctionTemporality>),
    IntradayAuction1(MarketConfig<StaticAuctionTemporality>),
    IntradayAuction2(MarketConfig<StaticAuctionTemporality>),
    IntradayAuction3(MarketConfig<StaticAuctionTemporality>),
    IntradayContinuous(MarketConfig<ContinuousAuctionTemporality>),
    AfrrFree(MarketConfig<DynamicAuctionTemporality>),
    Afrr(MarketConfig<DynamicAuctionTemporality>),
    Fcr(MarketConfig<DynamicAuctionTemporality>),
}

/// Whether the market is one whose configuration is not implemented yet
/// (aFRR and FCR capacity).
pub open spec fn is_not_implemented(market: MarketType) -> bool {
    market matches MarketType::Ancillary(AncillaryMarketType::Capacity(_))
}

impl AllMarketConfig {
    /// The time zone the market runs in.
    pub open spec fn spec_time_zone(self) -> TimeZone {
        match self {
            AllMarketConfig::SpotDayAhead(c) => c.auction.timezone,
            AllMarketConfig::IntradayAuction1(c) => c.auction.timezone,
            AllMarketConfig::IntradayAuction2(c) => c.auction.timezone,
            AllMarketConfig::IntradayAuction3(c) => c.auction.timezone,
            AllMarketConfig::IntradayContinuous(c) => c.auction.timezone,
            AllMarketConfig::AfrrFree(c) => c.auction.timezone,
            AllMarketConfig::Afrr(c) => c.auction.timezone,
            AllMarketConfig::Fcr(c) => c.auction.timezone,
        }
    }

    /// The products the market offers.
    pub open spec fn spec_possible_products(self) -> Seq<ProductSpecifications> {
        match self {
            AllMarketConfig::SpotDayAhead(c) => c.possible_products@,
            AllMarketConfig::IntradayAuction1(c) => c.possible_products@,
            AllMarketConfig::IntradayAuction2(c) => c.possible_products@,
            AllMarketConfig::IntradayAuction3(c) => c.possible_products@,
            AllMarketConfig::IntradayContinuous(c) => c.possible_products@,
            AllMarketConfig::AfrrFree(c) => c.possible_products@,
            AllMarketConfig::Afrr(c) => c.possible_products@,
            AllMarketConfig::Fcr(c) => c.possible_products@,
        }
    }

    /// The configuration of `market` in `country`, apart from its time
    /// zone: the auction times, neutralization delays and products.
    pub open spec fn is_config_of(self, market: MarketType, country: Countries) -> bool {
        match market {
            MarketType::WholeSale(WholesaleMarketType::SpotDayAhead) => self matches AllMarketConfig::SpotDayAhead(c)
                && c.country == country && static_auction_is(c.auction, (0, 0), (12, 0), 1, (0, 0), 1)
                && offers_steps(c.possible_products@, seq![min15(), hour1()]),
            MarketType::WholeSale(WholesaleMarketType::IntradayAuction1) => self matches AllMarketConfig::IntradayAuction1(c)
                && c.country == country && static_auction_is(c.auction, (0, 0), (15, 0), 0, (0, 0), 1)
                && offers_steps(c.possible_products@, seq![min15(), hour1()]),
            MarketType::WholeSale(WholesaleMarketType::IntradayAuction2) => self matches AllMarketConfig::IntradayAuction2(c)
                && c.country == country && static_auction_is(c.auction, (0, 0), (22, 0), 0, (0, 0), 1)
                && offers_steps(c.possible_products@, seq![min15(), hour1()]),
            MarketType::WholeSale(WholesaleMarketType::IntradayAuction3) => self matches AllMarketConfig::IntradayAuction3(c)
                && c.country == country && static_auction_is(c.auction, (0, 0), (10, 0), 1, (12, 0), 0)
                && offers_steps(c.possible_products@, seq![min15(), hour1()]),
            MarketType::WholeSale(WholesaleMarketType::IntradayContinuous) => self matches AllMarketConfig::IntradayContinuous(c)
                && c.country == country && continuous_auction_is(
                    c.auction,
                    if country == Countries::BE { (14, 0) } else { (15, 0) },
                    if country == Countries::DE {
                        Span { minutes: 15, ..Span::zero() }
                    } else {
                        Span { hours: 1, ..Span::zero() }
                    },
                ) && offers_steps(c.possible_products@, seq![min15(), min30(), hour1()]),
            MarketType::Ancillary(AncillaryMarketType::Energy(EnergyAncillaryMarketType::AfrrFree)) => self matches AllMarketConfig::AfrrFree(c)
                && c.country == country && c.auction.bidding_interval.is(hm(12, 0), hm(23, 59), 0)
                && c.auction.neutralization_delay == (Span { minutes: 30, ..Span::zero() })
                && offers_steps(c.possible_products@, seq![min15()]),
            MarketType::Ancillary(AncillaryMarketType::Capacity(_)) => false,
        }
    }

    /// The configuration of `market` in `country`. The aFRR and FCR capacity
    /// markets are not implemented and give `NotImplemented`; the other
    /// markets run in the `CET` time zone, looked up in the database of the
    /// host, and that lookup may fail.
    pub fn try_new(market_type: &MarketType, country: &Countries) -> (r: Result<Self, Error>)
        ensures
            is_not_implemented(*market_type) ==> r == Err::<Self, Error>(
                Error::Market(
                    MarketError::NotImplemented { market: *market_type, country: *country },
                ),
            ),
            r matches Ok(c) ==> c.is_config_of(*market_type, *country),
            !is_not_implemented(*market_type) ==> (r matches Err(e) ==> e is Jiff),
    {
        if let MarketType::Ancillary(AncillaryMarketType::Capacity(capacity)) = market_type {
            return match capacity {
                CapacityAncillaryMarketType::Afrr => Self::afrr(country),
                CapacityAncillaryMarketType::Fcr => Self::fcr(country),
            };
        }
        let timezone = match time_zone_get("CET") {
            Ok(tz) => tz,
            Err(e) => return Err(Error::Jiff(e)),
        };
        Self::in_time_zone(market_type, country, timezone)
    }

    /// The configuration of `market` in `country`, in the given time zone.
    /// It exists for every market but the aFRR and FCR capacity ones.
    pub fn in_time_zone(market_type: &MarketType, country: &Countries, timezone: TimeZone) -> (r:
        Result<Self, Error>)
        ensures
            r is Ok <==> !is_not_implemented(*market_type),
            r matches Ok(c) ==> c.is_config_of(*market_type, *country) && c.spec_time_zone()
                == timezone,
            r matches Err(e) ==> e == Error::Market(
                MarketError::NotImplemented { market: *market_type, country: *country },
            ),
    {
        match market_type {
            MarketType::WholeSale(WholesaleMarketType::SpotDayAhead) => {
                Self::spot_day_ahead(country, timezone)
            },
            MarketType::WholeSale(WholesaleMarketType::IntradayAuction1) => {
                Self::intraday_auction_1(country, timezone)
            },
            MarketType::WholeSale(WholesaleMarketType::IntradayAuction2) => {
                Self::intraday_auction_2(country, timezone)
            },
            MarketType::WholeSale(WholesaleMarketType::IntradayAuction3) => {
                Self::intraday_auction_3(country, timezone)
            },
            MarketType::WholeSale(WholesaleMarketType::IntradayContinuous) => {
                Self::intraday_continuous(country, timezone)
            },
            MarketType::Ancillary(AncillaryMarketType::Energy(EnergyAncillaryMarketType::AfrrFree)) => {
                Self::afrr_free(country, timezone)
            },
            MarketType::Ancillary(AncillaryMarketType::Capacity(CapacityAncillaryMarketType::Afrr)) => {
                Self::afrr(country)
            },
            MarketType::Ancillary(AncillaryMarketType::Capacity(CapacityAncillaryMarketType::Fcr)) => {
                Self::fcr(country)
            },
        }
    }

    /// Products of 15 minutes and one hour, with 10 kW increments.
    fn quarter_and_hour_products() -> (r: Vec<ProductSpecifications>)
        ensures
            offers_steps(r@, seq![min15(), hour1()]),
    {
        let mut products: Vec<ProductSpecifications> = Vec::new();
        match ProductSpecifications::try_new(Span::from_minutes(15), 10) {
            Ok(p) => products.push(p),
            Err(_) => {},
        }
        match ProductSpecifications::try_new(Span::from_hours(1), 10) {
            Ok(p) => products.push(p),
            Err(_) => {},
        }
        assert(products@.len() == 2);
        products
    }

    /// The static auction with the given times, in `timezone`.
    fn static_auction(
        open: (i8, i8),
        close: (i8, i8),
        open_days: i64,
        bid_start: (i8, i8),
        delta_days: i64,
        timezone: TimeZone,
    ) -> (r: Result<StaticAuctionTemporality, Error>)
        requires
            hm(open.0, open.1).wf(),
            hm(close.0, close.1).wf(),
            hm(bid_start.0, bid_start.1).wf(),
            open_days == 0 || open_days == 1,
            delta_days == 0 || delta_days == 1,
            open_days == 0 ==> !hm(open.0, open.1).spec_is_after(hm(close.0, close.1)),
            !hm(bid_start.0, bid_start.1).spec_is_after(hm(23, 59)),
        ensures
            r matches Ok(a) && static_auction_is(a, open, close, open_days, bid_start, delta_days)
                && a.timezone == timezone,
    {
        let open_interval = TimeDefinedInterval::try_new(
            open.0,
            open.1,
            close.0,
            close.1,
            Span::from_days(open_days),
        )?;
        let bidding_interval = TimeDefinedInterval::try_new(
            bid_start.0,
            bid_start.1,
            23,
            59,
            Span::from_days(0),
        )?;
        StaticAuctionTemporality::with_time_zone(
            open_interval,
            bidding_interval,
            Span::from_days(delta_days),
            timezone,
        )
    }

    fn spot_day_ahead(country: &Countries, timezone: TimeZone) -> (r: Result<Self, Error>)
        ensures
            r matches Ok(c) && c.is_config_of(
                MarketType::WholeSale(WholesaleMarketType::SpotDayAhead),
                *country,
            ) && c.spec_time_zone() == timezone,
    {
        let common_european_temporality = Self::static_auction(
            (0, 0),
            (12, 0),
            1,
            (0, 0),
            1,
            timezone,
        )?;
        let possible_products = Self::quarter_and_hour_products();
        let auction = match country {
            Countries::BE
            | Countries::DE
            | Countries::IT
            | Countries::FR
            | Countries::ES
            | Countries::PT => common_european_temporality,
        };
        Ok(Self::SpotDayAhead(MarketConfig { country: *country, auction, possible_products }))
    }

    fn intraday_auction_1(country: &Countries, timezone: TimeZone) -> (r: Result<Self, Error>)
        ensures
            r matches Ok(c) && c.is_config_of(
                MarketType::WholeSale(WholesaleMarketType::IntradayAuction1),
                *country,
            ) && c.spec_time_zone() == timezone,
    {
        let harmonized_sidc_ida1 = Self::static_auction((0, 0), (15, 0), 0, (0, 0), 1, timezone)?;
        let possible_products = Self::quarter_and_hour_products();
        let auction = match country {
            Countries::BE
            | Countries::DE
            | Countries::IT
            | Countries::FR
            | Countries::ES
            | Countries::PT => harmonized_sidc_ida1,
        };
        Ok(Self::IntradayAuction1(MarketConfig { country: *country, auction, possible_products }))
    }

    fn intraday_auction_2(country: &Countries, timezone: TimeZone) -> (r: Result<Self, Error>)
        ensures
            r matches Ok(c) && c.is_config_of(
                MarketType::WholeSale(WholesaleMarketType::IntradayAuction2),
                *country,
            ) && c.spec_time_zone() == timezone,
    {
        let harmonized_sidc_ida2 = Self::static_auction((0, 0), (22, 0), 0, (0, 0), 1, timezone)?;
        let possible_products = Self::quarter_and_hour_products();
        let auction = match country {
            Countries::BE
            | Countries::DE
            | Countries::IT
            | Countries::FR
            | Countries::ES
            | Countries::PT => harmonized_sidc_ida2,
        };
        Ok(Self::IntradayAuction2(MarketConfig { country: *country, auction, possible_products }))
    }

    fn intraday_auction_3(country: &Countries, timezone: TimeZone) -> (r: Result<Self, Error>)
        ensures
            r matches Ok(c) && c.is_config_of(
                MarketType::WholeSale(WholesaleMarketType::IntradayAuction3),
                *country,
            ) && c.spec_time_zone() == timezone,
    {
        let harmonized_sidc_ida3 = Self::static_auction((0, 0), (10, 0), 1, (12, 0), 0, timezone)?;
        let possible_products = Self::quarter_and_hour_products();
        let auction = match country {
            Countries::BE
            | Countries::DE
            | Countries::IT
            | Countries::FR
            | Countries::ES
            | Countries::PT => harmonized_sidc_ida3,
        };
        Ok(Self::IntradayAuction3(MarketConfig { country: *country, auction, possible_products }))
    }

    fn intraday_continuous(country: &Countries, timezone: TimeZone) -> (r: Result<Self, Error>)
        ensures
            r matches Ok(c) && c.is_config_of(
                MarketType::WholeSale(WholesaleMarketType::IntradayContinuous),
                *country,
            ) && c.spec_time_zone() == timezone,
    {
        let auction = match country {
            Countries::FR | Countries::ES | Countries::PT | Countries::IT => {
                ContinuousAuctionTemporality::with_time_zone(15, 0, Span::from_hours(1), timezone)?
            },
            Countries::DE => {
                ContinuousAuctionTemporality::with_time_zone(
                    15,
                    0,
                    Span::from_minutes(15),
                    timezone,
                )?
            },
            Countries::BE => {
                ContinuousAuctionTemporality::with_time_zone(14, 0, Span::from_hours(1), timezone)?
            },
        };
        let mut possible_products: Vec<ProductSpecifications> = Vec::new();
        match ProductSpecifications::try_new(Span::from_minutes(15), 10) {
            Ok(p) => possible_products.push(p),
            Err(_) => {},
        }
        match ProductSpecifications::try_new(Span::from_minutes(30), 10) {
            Ok(p) => possible_products.push(p),
            Err(_) => {},
        }
        match ProductSpecifications::try_new(Span::from_hours(1), 10) {
            Ok(p) => possible_products.push(p),
            Err(_) => {},
        }
        assert(possible_products@.len() == 3);
        Ok(Self::IntradayContinuous(MarketConfig { country: *country, auction, possible_products }))
    }

    fn afrr_free(country: &Countries, timezone: TimeZone) -> (r: Result<Self, Error>)
        ensures
            r matches Ok(c) && c.is_config_of(
                MarketType::Ancillary(AncillaryMarketType::Energy(EnergyAncillaryMarketType::AfrrFree)),
                *country,
            ) && c.spec_time_zone() == timezone,
    {
        let bidding_interval = TimeDefinedInterval::try_new(12, 0, 23, 59, Span::from_days(0))?;
        let harmonized_picasso = DynamicAuctionTemporality {
            bidding_interval,
            neutralization_delay: Span::from_minutes(30),
            timezone,
        };
        let auction = match country {
            Countries::BE
            | Countries::DE
            | Countries::IT
            | Countries::FR
            | Countries::ES
            | Countries::PT => harmonized_picasso,
        };
        let mut possible_products: Vec<ProductSpecifications> = Vec::new();
        match ProductSpecifications::try_new(Span::from_minutes(15), 10) {
            Ok(p) => possible_products.push(p),
            Err(_) => {},
        }
        assert(possible_products@.len() == 1);
        Ok(Self::AfrrFree(MarketConfig { country: *country, auction, possible_products }))
    }

    fn afrr(country: &Countries) -> (r: Result<Self, Error>)
        ensures
            r == Err::<Self, Error>(
                Error::Market(
                    MarketError::NotImplemented {
                        market: MarketType::Ancillary(
                            AncillaryMarketType::Capacity(CapacityAncillaryMarketType::Afrr),
                        ),
                        country: *country,
                    },
                ),
            ),
    {
        Err(
            Error::Market(
                MarketError::NotImplemented {
                    market: MarketType::Ancillary(
                        AncillaryMarketType::Capacity(CapacityAncillaryMarketType::Afrr),
                    ),
                    country: *country,
                },
            ),
        )
    }

    fn fcr(country: &Countries) -> (r: Result<Self, Error>)
        ensures
            r == Err::<Self, Error>(
                Error::Market(
                    MarketError::NotImplemented {
                        market: MarketType::Ancillary(
                            AncillaryMarketType::Capacity(CapacityAncillaryMarketType::Fcr),
                        ),
                        country: *country,
                    },
                ),
            ),
    {
        Err(
            Error::Market(
                MarketError::NotImplemented {
                    market: MarketType::Ancillary(
                        AncillaryMarketType::Capacity(CapacityAncillaryMarketType::Fcr),
                    ),
                    country: *country,
                },
            ),
        )
    }

    /// The products the market offers.
    pub fn possible_products(&self) -> (r: &Vec<ProductSpecifications>)
        ensures
            r@ == self.spec_possible_products(),
    {
        match self {
            AllMarketConfig::SpotDayAhead(c) => &c.possible_products,
            AllMarketConfig::IntradayAuction1(c) => &c.possible_products,
            AllMarketConfig::IntradayAuction2(c) => &c.possible_products,
            AllMarketConfig::IntradayAuction3(c) => &c.possible_products,
            AllMarketConfig::IntradayContinuous(c) => &c.possible_products,
            AllMarketConfig::AfrrFree(c) => &c.possible_products,
            AllMarketConfig::Afrr(c) => &c.possible_products,
            AllMarketConfig::Fcr(c) => &c.possible_products,
        }
    }
}

impl ToBidTimeBounds for AllMarketConfig {
    fn to_bid_time_bounds(
        &self,
        reference_time: &Timestamp,
        bid_specifications: &ProductSpecifications,
    ) -> (r: Result<Option<RegularTimeGrid>, Error>)
        ensures
            self is IntradayContinuous ==> (r is Ok ==> r matches Ok(Some(_))),
            !(self is IntradayContinuous) ==> (r matches Err(e) ==> is_window_error(e)
                && is_fitted_window_error(e, bid_specifications.step)),
    {
        match self {
            AllMarketConfig::SpotDayAhead(c) => c.auction.to_bid_time_bounds(reference_time, bid_specifications),
            AllMarketConfig::IntradayAuction1(c) => c.auction.to_bid_time_bounds(reference_time, bid_specifications),
            AllMarketConfig::IntradayAuction2(c) => c.auction.to_bid_time_bounds(reference_time, bid_specifications),
            AllMarketConfig::IntradayAuction3(c) => c.auction.to_bid_time_bounds(reference_time, bid_specifications),
            AllMarketConfig::IntradayContinuous(c) => c.auction.to_bid_time_bounds(reference_time, bid_specifications),
            AllMarketConfig::AfrrFree(c) => c.auction.to_bid_time_bounds(reference_time, bid_specifications),
            AllMarketConfig::Afrr(c) => c.auction.to_bid_time_bounds(reference_time, bid_specifications),
            AllMarketConfig::Fcr(c) => c.auction.to_bid_time_bounds(reference_time, bid_specifications),
        }
    }
}

/// A configured market offers each of its products once.
pub proof fn lemma_config_products_distinct(c: AllMarketConfig, market: MarketType, country: Countries)
    requires
        c.is_config_of(market, country),
    ensures
        c.spec_possible_products().no_duplicates(),
{
    let products = c.spec_possible_products();
    assert forall|i: int, j: int| 0 <= i < j < products.len() implies products[i] != products[j] by {
        assert(products[i].step@ != products[j].step@);
    }
}

// endregion: Market config

} // verus!
