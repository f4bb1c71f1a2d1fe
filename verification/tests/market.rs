use golion::constants;
use golion::contract::certification::CertifiedEnvelope;
use golion::contract::choice::MarketChoice;
use golion::contract::error::Error as ContractError;
use golion::contract::optimization::OptimizationOutput;
use golion::contract::perimeter::ReservePerimeter;
use golion::countries::Countries;
use golion::market::bid::{KiloWattIncrement, ProductSpecifications};
use golion::market::config::AllMarketConfig;
use golion::market::error::MarketError;
use golion::market::market_type::{
    AncillaryMarketType, CapacityAncillaryMarketType, EnergyAncillaryMarketType, MarketType,
    WholesaleMarketType,
};
use golion::market::revenue::{RevenueStore, RevenueUnit};
use golion::market::specification::MarketSpec;
use golion::market::temporality::bid_time_bounds::ToBidTimeBounds;
use golion::temporal::series::{TimeSeriesError, TimeStampedUtc};
use golion::temporal::step::{MinuteStep, MinuteStepError};
use golion::time::duration::SignedDuration;
use golion::time::span::Span;
use golion::time::timestamp::Timestamp;
use golion::Error;

fn ts(text: &str) -> Timestamp {
    let parsed: jiff::Timestamp = text.parse().unwrap();
    Timestamp::from_nanosecond(parsed.as_nanosecond()).unwrap()
}

fn product(minutes: i64, increment_kw: u16) -> ProductSpecifications {
    ProductSpecifications::try_new(Span::from_minutes(minutes), increment_kw).unwrap()
}

fn spot() -> MarketType {
    MarketType::WholeSale(WholesaleMarketType::SpotDayAhead)
}

fn afrr_free() -> MarketType {
    MarketType::Ancillary(AncillaryMarketType::Energy(EnergyAncillaryMarketType::AfrrFree))
}

fn afrr() -> MarketType {
    MarketType::Ancillary(AncillaryMarketType::Capacity(CapacityAncillaryMarketType::Afrr))
}

#[derive(Debug)]
struct Price {
    start_at: Timestamp,
    euros: i64,
}

impl TimeStampedUtc for Price {
    fn spec_start_at(&self) -> Timestamp {
        self.start_at
    }

    fn start_at(&self) -> &Timestamp {
        &self.start_at
    }
}

fn prices(first: &str, count: usize, euros: i64) -> Vec<Price> {
    let start = ts(first);
    (0..count)
        .map(|i| Price {
            start_at: start.add(&SignedDuration::from_mins(15 * i as i64)),
            euros,
        })
        .collect()
}

#[test]
fn kilowatt_increment_keeps_its_value() {
    assert_eq!(KiloWattIncrement::from(250).value(), 250);
    assert_eq!(KiloWattIncrement::new(10).value(), 10);
    assert_eq!(u16::from(KiloWattIncrement::from(1000)), 1000);
    assert_eq!((KiloWattIncrement::from(100) + KiloWattIncrement::from(10)).value(), 110);
}

#[test]
fn market_spec_with_config_checks_the_offered_products() {
    let config = AllMarketConfig::try_new(&afrr_free(), &Countries::FR).unwrap();
    let spec = MarketSpec::with_config(afrr_free(), Countries::FR, product(15, 10), config.clone()).unwrap();
    assert_eq!(spec.product, product(15, 10));
    assert!(matches!(
        MarketSpec::with_config(afrr_free(), Countries::FR, product(60, 10), config),
        Err(Error::Market(MarketError::InvalidProduct { possible_products, .. }))
            if possible_products == vec![product(15, 10)]
    ));
}

#[test]
fn product_step_must_be_allowed() {
    let p = product(30, 10);
    assert_eq!(p.step, MinuteStep::try_from_duration(SignedDuration::from_mins(30)).unwrap());
    assert_eq!(p.increment.value(), 10);
    assert!(matches!(
        ProductSpecifications::try_new(Span::from_minutes(45), 10),
        Err(Error::Step(MinuteStepError::InvalidGranularity { .. }))
    ));
}

#[test]
fn market_codes_differ() {
    let markets = [
        spot(),
        MarketType::WholeSale(WholesaleMarketType::IntradayAuction1),
        MarketType::WholeSale(WholesaleMarketType::IntradayAuction2),
        MarketType::WholeSale(WholesaleMarketType::IntradayAuction3),
        MarketType::WholeSale(WholesaleMarketType::IntradayContinuous),
        afrr(),
        MarketType::Ancillary(AncillaryMarketType::Capacity(CapacityAncillaryMarketType::Fcr)),
        afrr_free(),
    ];
    for (i, m) in markets.iter().enumerate() {
        assert_eq!(m.code() as usize, i);
    }
    assert_eq!(MarketType::from(WholesaleMarketType::SpotDayAhead), spot());
    assert_eq!(MarketType::from(EnergyAncillaryMarketType::AfrrFree), afrr_free());
    assert_eq!(MarketType::from(CapacityAncillaryMarketType::Afrr), afrr());
}

#[test]
fn spot_offers_quarter_and_hour_products() {
    let config = AllMarketConfig::try_new(&spot(), &Countries::FR).unwrap();
    assert!(matches!(config, AllMarketConfig::SpotDayAhead(_)));
    assert_eq!(config.possible_products(), &vec![product(15, 10), product(60, 10)]);
}

#[test]
fn continuous_offers_three_products() {
    let continuous = MarketType::WholeSale(WholesaleMarketType::IntradayContinuous);
    let config = AllMarketConfig::try_new(&continuous, &Countries::DE).unwrap();
    assert_eq!(config.possible_products(), &vec![product(15, 10), product(30, 10), product(60, 10)]);
    match config {
        AllMarketConfig::IntradayContinuous(c) => {
            assert_eq!(c.country, Countries::DE);
            assert_eq!(c.auction.neutralization_delay, Span::from_minutes(15));
            assert_eq!(c.auction.next_day_gate_open_time.hour, 15);
        },
        _ => panic!("wrong configuration"),
    }
    match AllMarketConfig::try_new(&continuous, &Countries::BE).unwrap() {
        AllMarketConfig::IntradayContinuous(c) => {
            assert_eq!(c.auction.neutralization_delay, Span::from_hours(1));
            assert_eq!(c.auction.next_day_gate_open_time.hour, 14);
        },
        _ => panic!("wrong configuration"),
    }
}

#[test]
fn capacity_markets_are_not_implemented() {
    assert!(matches!(
        AllMarketConfig::try_new(&afrr(), &Countries::FR),
        Err(Error::Market(MarketError::NotImplemented { market, country: Countries::FR })) if market == afrr()
    ));
}

#[test]
fn market_spec_needs_an_offered_product() {
    let spec = MarketSpec::try_new(afrr_free(), Countries::FR, product(15, 10)).unwrap();
    assert_eq!(spec.market, afrr_free());
    assert_eq!(spec.country, Countries::FR);
    assert!(matches!(
        MarketSpec::try_new(afrr_free(), Countries::FR, product(30, 10)),
        Err(Error::Market(MarketError::InvalidProduct { possible_products, .. }))
            if possible_products == vec![product(15, 10)]
    ));
    assert!(matches!(
        MarketSpec::try_new(spot(), Countries::FR, product(15, 5)),
        Err(Error::Market(MarketError::InvalidProduct { .. }))
    ));
}

#[test]
fn market_spec_gives_the_bid_window() {
    let spec = MarketSpec::try_new(spot(), Countries::FR, product(15, 10)).unwrap();
    // The spot auction interval runs from 00:00 to 12:00 the next day, and
    // bidding covers the day after its close, in CET.
    let grid = spec.get_bid_time_bounds(&ts("2024-01-15T09:00:00Z")).unwrap().unwrap();
    assert_eq!(grid.start, ts("2024-01-16T23:00:00Z"));
    assert_eq!(grid.end, ts("2024-01-17T22:45:00Z"));
    let config = AllMarketConfig::try_new(&spot(), &Countries::FR).unwrap();
    let same = config.to_bid_time_bounds(&ts("2024-01-15T09:00:00Z"), &product(15, 10)).unwrap().unwrap();
    assert_eq!(same.start, grid.start);
}

#[test]
fn market_choice_becomes_a_market_spec() {
    let choice = MarketChoice {
        market: WholesaleMarketType::SpotDayAhead,
        product_step_minutes: 15,
        product_increment_kw: 10,
    };
    let spec = choice.try_into_market_specs(&Countries::FR).unwrap();
    assert_eq!(spec.market, spot());
    assert_eq!(spec.product, product(15, 10));
}

#[test]
fn market_choice_errors() {
    let bad_step = MarketChoice { market: spot(), product_step_minutes: 20, product_increment_kw: 10 };
    assert!(matches!(
        bad_step.try_into_market_specs(&Countries::FR),
        Err(ContractError::Domain(Error::Step(MinuteStepError::InvalidGranularity { step })))
            if step == SignedDuration::from_mins(20)
    ));
    let capacity = MarketChoice {
        market: CapacityAncillaryMarketType::Fcr,
        product_step_minutes: 15,
        product_increment_kw: 10,
    };
    assert!(matches!(
        capacity.try_into_market_specs(&Countries::FR),
        Err(ContractError::Domain(Error::Market(MarketError::NotImplemented { .. })))
    ));
    let unknown_product = MarketChoice { market: afrr_free(), product_step_minutes: 60, product_increment_kw: 10 };
    assert!(matches!(
        unknown_product.try_into_market_specs(&Countries::FR),
        Err(ContractError::Domain(Error::Market(MarketError::InvalidProduct { .. })))
    ));
}

#[test]
fn reserve_perimeter_becomes_a_definition() {
    let perimeter = ReservePerimeter {
        id: 7,
        market: MarketChoice {
            market: AncillaryMarketType::Energy(EnergyAncillaryMarketType::AfrrFree),
            product_step_minutes: 15,
            product_increment_kw: 10,
        },
        composition: vec![1, 2],
        commitments: vec!["first", "second"],
    };
    let definition = perimeter.try_into_definition(&Countries::FR).unwrap();
    assert_eq!(*definition.id(), 7);
    assert_eq!(definition.market().market, afrr_free());
    assert_eq!(definition.composition(), &[1, 2]);
    assert_eq!(definition.commitments(), &["first", "second"]);
    assert_eq!(*definition.penalty(), -10);
    let refused = ReservePerimeter {
        id: 8,
        market: MarketChoice {
            market: AncillaryMarketType::Capacity(CapacityAncillaryMarketType::Afrr),
            product_step_minutes: 15,
            product_increment_kw: 10,
        },
        composition: vec![1],
        commitments: Vec::<()>::new(),
    };
    assert!(refused.try_into_definition(&Countries::FR).is_err());
}

#[test]
fn revenue_store_reads_back_what_was_written() {
    let mut store = RevenueStore::new();
    assert!(matches!(
        store.get(spot(), Countries::FR),
        Err(Error::Market(MarketError::MissingMarketRevenue { country: Countries::FR, .. }))
    ));
    let series = golion::temporal::series::TimeSeries::try_from(prices("2024-01-15T00:00:00Z", 4, 3)).unwrap();
    store.insert(spot(), series);
    let stored = store.get(spot(), Countries::FR).unwrap();
    assert_eq!(stored.data.len(), 4);
    assert_eq!(stored.data[0].euros, 3);
    assert!(store.get(afrr_free(), Countries::FR).is_err());
}

#[test]
fn revenue_store_from_series_keeps_the_last_entry_of_a_market() {
    let store = RevenueStore::try_from_series(vec![
        (spot(), prices("2024-01-15T00:00:00Z", 3, 1)),
        (afrr_free(), prices("2024-01-15T00:00:00Z", 2, 5)),
        (spot(), prices("2024-01-15T00:00:00Z", 5, 2)),
    ])
    .unwrap();
    let spot_series = store.get(spot(), Countries::FR).unwrap();
    assert_eq!(spot_series.data.len(), 5);
    assert_eq!(spot_series.data[0].euros, 2);
    assert_eq!(store.get(afrr_free(), Countries::FR).unwrap().data[1].euros, 5);
    assert!(store.get(afrr(), Countries::FR).is_err());
}

#[test]
fn revenue_store_from_series_fails_on_a_bad_series() {
    let result = RevenueStore::try_from_series(vec![
        (spot(), prices("2024-01-15T00:00:00Z", 3, 1)),
        (afrr_free(), prices("2024-01-15T00:00:00Z", 1, 5)),
    ]);
    assert!(matches!(result, Err(Error::TimeSeries(TimeSeriesError::TooShort { length: 1, .. }))));
}

#[test]
fn contract_values() {
    assert_ne!(CertifiedEnvelope::CertifiedOperatingRange, CertifiedEnvelope::CertificationTradeoffLine);
    let output = OptimizationOutput {
        components_built: 3,
        wholesale_perimeters_built: 1,
        ancillary_perimeters_built: 2,
    };
    assert_eq!(output.components_built + output.ancillary_perimeters_built, 5);
    assert_ne!(RevenueUnit::PerKiloWatt, RevenueUnit::PerKiloWattHour);
    assert_ne!(constants::Countries::FR, constants::Countries::DE);
    let legacy = constants::MarketType::Ancillary(constants::AncillaryMarketType::UncertifiedAncillaryMarketType);
    assert_ne!(legacy, constants::MarketType::WholeSale(constants::WholesaleMarketType::SpotDayAhead));
    let _ = (
        constants::CertifiedAncillaryMarketType::Afrr,
        constants::UncertifiedAncillaryMarketType::AfrrFree,
    );
}
