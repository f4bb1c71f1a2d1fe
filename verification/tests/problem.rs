use golion::countries::Countries;
use golion::market::bid::ProductSpecifications;
use golion::market::error::MarketError;
use golion::market::market_type::{
    AncillaryMarketType, EnergyAncillaryMarketType, MarketType, WholesaleMarketType,
};
use golion::market::revenue::RevenueStore;
use golion::market::specification::MarketSpec;
use golion::problem::definition::{BrpDefinition, ReserveDefinition};
use golion::problem::error::ProblemError;
use golion::problem::OptimizationProblem;
use golion::temporal::grid::RegularTimeGrid;
use golion::temporal::series::{TimeSeries, TimeStampedUtc};
use golion::temporal::step::MinuteStep;
use golion::time::duration::SignedDuration;
use golion::time::span::Span;
use golion::time::timestamp::Timestamp;
use golion::Error;
use std::collections::HashMap;
use uuid::Uuid;

/// A battery as the problem sees it: its id only matters here.
#[derive(Debug)]
struct Bess {
    initial_soc_kwh: u32,
}

/// A revenue row.
#[derive(Debug)]
struct Row {
    start_at: Timestamp,
}

impl TimeStampedUtc for Row {
    fn spec_start_at(&self) -> Timestamp {
        self.start_at
    }

    fn start_at(&self) -> &Timestamp {
        &self.start_at
    }
}

type Problem = OptimizationProblem<Bess, (), Row>;

fn step() -> MinuteStep {
    MinuteStep::try_from_duration(SignedDuration::from_mins(15)).unwrap()
}

fn start() -> Timestamp {
    let parsed: jiff::Timestamp = "2026-01-01T00:00:00Z".parse().unwrap();
    Timestamp::from_nanosecond(parsed.as_nanosecond()).unwrap()
}

fn grid() -> RegularTimeGrid {
    RegularTimeGrid::try_new(start(), step(), 2).unwrap()
}

fn bess() -> Bess {
    Bess { initial_soc_kwh: 20 }
}

fn new_id() -> u128 {
    Uuid::new_v4().as_u128()
}

fn brp(composition: Vec<u128>, markets: Vec<MarketSpec>) -> BrpDefinition<()> {
    BrpDefinition::new(new_id(), markets, composition, vec![])
}

fn day_ahead_fr() -> MarketSpec {
    let product = ProductSpecifications::try_new(Span::from_minutes(15), 10).unwrap();
    MarketSpec::try_new(MarketType::WholeSale(WholesaleMarketType::SpotDayAhead), Countries::FR, product)
        .unwrap()
}

fn revenue_series() -> TimeSeries<Row> {
    let rows: Vec<Row> = grid().iter().into_iter().map(|start_at| Row { start_at }).collect();
    TimeSeries::try_from(rows).unwrap()
}

#[test]
fn accepts_consistent_problem() {
    let asset_id = new_id();
    let assets = HashMap::from([(asset_id, bess())]);
    let problem = Problem::try_new(
        grid(),
        assets,
        vec![brp(vec![asset_id], vec![])],
        Vec::new(),
        RevenueStore::new(),
    );
    assert!(problem.is_ok());
}

#[test]
fn rejects_unknown_asset_in_perimeter() {
    let unknown_id = new_id();
    let assets = HashMap::from([(new_id(), bess())]);
    let problem = Problem::try_new(
        grid(),
        assets,
        vec![brp(vec![unknown_id], vec![])],
        Vec::new(),
        RevenueStore::new(),
    );
    assert!(matches!(
        problem,
        Err(Error::Problem(ProblemError::UnknownAssetsInPerimeter { asset_ids, .. }))
            if asset_ids == vec![unknown_id]
    ));
}

#[test]
fn rejects_asset_in_multiple_brps() {
    let asset_id = new_id();
    let assets = HashMap::from([(asset_id, bess())]);
    let problem = Problem::try_new(
        grid(),
        assets,
        vec![brp(vec![asset_id], vec![]), brp(vec![asset_id], vec![])],
        Vec::new(),
        RevenueStore::new(),
    );
    assert!(matches!(
        problem,
        Err(Error::Problem(ProblemError::AssetInMultipleBrps { asset_ids }))
            if asset_ids == vec![asset_id]
    ));
}

#[test]
fn rejects_market_without_revenue() {
    let asset_id = new_id();
    let assets = HashMap::from([(asset_id, bess())]);
    let perimeter = brp(vec![asset_id], vec![day_ahead_fr()]);
    let problem = Problem::try_new(grid(), assets, vec![perimeter], Vec::new(), RevenueStore::new());
    assert!(matches!(problem, Err(Error::Market(MarketError::MissingMarketRevenue { .. }))));
}

#[test]
fn reports_the_first_perimeter_with_unknown_assets() {
    let known = new_id();
    let (first_unknown, second_unknown) = (new_id(), new_id());
    let assets = HashMap::from([(known, bess())]);
    let first = BrpDefinition::new(new_id(), vec![], vec![known, first_unknown, second_unknown], vec![]);
    let first_id = *first.id();
    let second = brp(vec![new_id()], vec![]);
    let problem = Problem::try_new(grid(), assets, vec![first, second], Vec::new(), RevenueStore::new());
    assert!(matches!(
        problem,
        Err(Error::Problem(ProblemError::UnknownAssetsInPerimeter { perimeter_id, asset_ids }))
            if perimeter_id == first_id && asset_ids == vec![first_unknown, second_unknown]
    ));
}

#[test]
fn rejects_unknown_asset_in_reserve_perimeter() {
    let asset_id = new_id();
    let unknown_id = new_id();
    let assets = HashMap::from([(asset_id, bess())]);
    let reserve = ReserveDefinition::new(new_id(), day_ahead_fr(), vec![unknown_id], vec![]);
    let reserve_id = *reserve.id();
    let problem =
        Problem::try_new(grid(), assets, vec![brp(vec![asset_id], vec![])], vec![reserve], RevenueStore::new());
    assert!(matches!(
        problem,
        Err(Error::Problem(ProblemError::UnknownAssetsInPerimeter { perimeter_id, asset_ids }))
            if perimeter_id == reserve_id && asset_ids == vec![unknown_id]
    ));
}

#[test]
fn repeated_asset_within_one_brp_is_one_membership() {
    let asset_id = new_id();
    let assets = HashMap::from([(asset_id, bess())]);
    let problem = Problem::try_new(
        grid(),
        assets,
        vec![brp(vec![asset_id, asset_id], vec![])],
        Vec::new(),
        RevenueStore::new(),
    );
    assert!(problem.is_ok());
}

#[test]
fn reports_each_shared_asset_once() {
    let (a, b, c) = (new_id(), new_id(), new_id());
    let assets = HashMap::from([(a, bess()), (b, bess()), (c, bess())]);
    let problem = Problem::try_new(
        grid(),
        assets,
        vec![brp(vec![a, b], vec![]), brp(vec![b, a], vec![]), brp(vec![a, c], vec![])],
        Vec::new(),
        RevenueStore::new(),
    );
    match problem {
        Err(Error::Problem(ProblemError::AssetInMultipleBrps { mut asset_ids })) => {
            asset_ids.sort();
            let mut expected = vec![a, b];
            expected.sort();
            assert_eq!(asset_ids, expected);
        },
        other => panic!("unexpected result: {:?}", other.map(|_| ())),
    }
}

#[test]
fn asset_in_a_brp_and_a_reserve_is_accepted() {
    let asset_id = new_id();
    let assets = HashMap::from([(asset_id, bess())]);
    let afrr_free = MarketSpec::try_new(
        MarketType::Ancillary(AncillaryMarketType::Energy(EnergyAncillaryMarketType::AfrrFree)),
        Countries::FR,
        ProductSpecifications::try_new(Span::from_minutes(15), 10).unwrap(),
    )
    .unwrap();
    let mut revenues = RevenueStore::new();
    revenues.insert(afrr_free.market, revenue_series());
    let reserve = ReserveDefinition::new(new_id(), afrr_free, vec![asset_id], vec![]);
    let problem =
        Problem::try_new(grid(), assets, vec![brp(vec![asset_id], vec![])], vec![reserve], revenues);
    assert!(problem.is_ok());
}

#[test]
fn reserve_market_without_revenue_is_rejected() {
    let asset_id = new_id();
    let assets = HashMap::from([(asset_id, bess())]);
    let reserve = ReserveDefinition::new(new_id(), day_ahead_fr(), vec![asset_id], vec![]);
    let problem = Problem::try_new(grid(), assets, Vec::new(), vec![reserve], RevenueStore::new());
    assert!(matches!(
        problem,
        Err(Error::Market(MarketError::MissingMarketRevenue {
            market: MarketType::WholeSale(WholesaleMarketType::SpotDayAhead),
            country: Countries::FR,
        }))
    ));
}

#[test]
fn built_problem_keeps_its_parts() {
    let asset_id = new_id();
    let assets = HashMap::from([(asset_id, bess())]);
    let spot = day_ahead_fr();
    let market = spot.market;
    let mut revenues = RevenueStore::new();
    revenues.insert(market, revenue_series());
    let perimeter = brp(vec![asset_id], vec![spot]);
    let perimeter_id = *perimeter.id();
    let problem = Problem::try_new(grid(), assets, vec![perimeter], Vec::new(), revenues).unwrap();
    assert_eq!(problem.grid().start, start());
    assert_eq!(problem.grid().length, 2);
    assert_eq!(problem.assets()[&asset_id].initial_soc_kwh, 20);
    assert_eq!(problem.brp_perimeters().len(), 1);
    assert_eq!(*problem.brp_perimeters()[0].id(), perimeter_id);
    assert_eq!(problem.brp_perimeters()[0].composition(), &[asset_id]);
    assert_eq!(*problem.brp_perimeters()[0].penalty(), -10);
    assert!(problem.reserve_perimeters().is_empty());
    assert!(problem.revenues().get(market, Countries::FR).is_ok());
}
