use golion::market::bid::{KiloWattIncrement, ProductSpecifications};
use golion::market::temporality::auction::{
    ContinuousAuctionTemporality, DynamicAuctionTemporality, StaticAuctionTemporality,
};
use golion::market::temporality::bid_time_bounds::{join_day_windows, ToBidTimeBounds};
use golion::market::temporality::interval::{DeltaDays, TimeDefinedInterval};
use golion::temporal::step::MinuteStep;
use golion::time::civil::CivilTime;
use golion::time::duration::SignedDuration;
use golion::time::span::Span;
use golion::time::timestamp::Timestamp;
use golion::Error;
use jiff::tz::TimeZone;

fn ts(text: &str) -> Timestamp {
    let parsed: jiff::Timestamp = text.parse().unwrap();
    Timestamp::from_nanosecond(parsed.as_nanosecond()).unwrap()
}

fn bid_specs(step_minutes: i64) -> ProductSpecifications {
    ProductSpecifications {
        step: MinuteStep::try_from_duration(SignedDuration::from_mins(step_minutes)).unwrap(),
        increment: KiloWattIncrement::from(100),
    }
}

fn time(hour: i8, minute: i8) -> CivilTime {
    CivilTime { hour, minute, second: 0, subsec_nanosecond: 0 }
}

fn same_day() -> DeltaDays {
    DeltaDays::try_from(Span::from_days(0)).unwrap()
}

#[test]
fn temporality_dynamic_window_less_than_bid_step() {
    let bidding_interval =
        TimeDefinedInterval { start_time: time(10, 0), end_time: time(10, 3), delta_start_end: same_day() };
    let timezone = TimeZone::get("CET").unwrap();
    let neutralization_delay = Span::from_minutes(0);
    let dynamic_auction = DynamicAuctionTemporality { bidding_interval, neutralization_delay, timezone };

    // 2024-01-15T09:00:00Z == 10:00 CET.
    let reference_time = ts("2024-01-15T09:00:00Z");
    let bounds = dynamic_auction.to_bid_time_bounds(&reference_time, &bid_specs(15)).unwrap();

    assert!(bounds.is_none());
}

#[test]
fn temporality_dynamic_single_available_bid() {
    // 9:50-10:20 CET is one full 15-minute step (10:00-10:15).
    let bidding_interval =
        TimeDefinedInterval { start_time: time(9, 50), end_time: time(10, 20), delta_start_end: same_day() };
    let timezone = TimeZone::get("CET").unwrap();
    let neutralization_delay = Span::from_minutes(0);
    let dynamic_auction = DynamicAuctionTemporality { bidding_interval, neutralization_delay, timezone };

    let reference_time = ts("2024-01-15T09:00:00Z");
    let bounds = dynamic_auction
        .to_bid_time_bounds(&reference_time, &bid_specs(15))
        .unwrap()
        .unwrap();

    // 10:00 CET is already on the step boundary == 09:00Z.
    assert_eq!(bounds.start, ts("2024-01-15T09:00:00Z"));
    // 10:20 CET truncates down to 10:15 CET == 09:15Z.
    assert_eq!(bounds.end, ts("2024-01-15T09:15:00Z"));
}

fn continuous_literal_test(reference_time: Timestamp, expected_start: Timestamp, expected_end: Timestamp) {
    let continuous_auction = ContinuousAuctionTemporality {
        neutralization_delay: Span::from_hours(2),
        next_day_gate_open_time: time(15, 0),
        timezone: TimeZone::get("CET").unwrap(),
    };
    let bounds = continuous_auction
        .to_bid_time_bounds(&reference_time, &bid_specs(15))
        .unwrap()
        .unwrap();
    assert_eq!(bounds.start, expected_start);
    assert_eq!(bounds.end, expected_end);
}

#[test]
fn temporality_continuous_same_day_only() {
    continuous_literal_test(
        ts("2024-01-15T09:00:00Z"),
        ts("2024-01-15T11:00:00Z"),
        ts("2024-01-16T22:45:00Z"),
    );
}

#[test]
fn temporality_continuous_next_only() {
    continuous_literal_test(
        ts("2024-01-15T22:55:00Z"),
        ts("2024-01-16T01:00:00Z"),
        ts("2024-01-16T22:45:00Z"),
    );
}

#[test]
fn temporality_continuous_both_days() {
    continuous_literal_test(
        ts("2024-01-15T16:00:00Z"),
        ts("2024-01-15T18:00:00Z"),
        ts("2024-01-16T22:45:00Z"),
    );
}

#[test]
fn bid_time_bounds_dynamic_window_less_than_bid_step() {
    let bidding_interval = TimeDefinedInterval::try_new(10, 0, 10, 3, Span::from_days(0)).unwrap();
    let neutralization_delay = Span::from_minutes(0);
    let dynamic_auction =
        DynamicAuctionTemporality::try_new(bidding_interval, neutralization_delay, "CET").unwrap();

    // 2024-01-15T09:00:00Z == 10:00 CET.
    let reference_time = ts("2024-01-15T09:00:00Z");
    let bounds = dynamic_auction.to_bid_time_bounds(&reference_time, &bid_specs(15)).unwrap();

    assert!(bounds.is_none());
}

#[test]
fn bid_time_bounds_dynamic_single_available_bid() {
    // 9:50-10:20 CET is one full 15-minute step (10:00-10:15).
    let bidding_interval = TimeDefinedInterval::try_new(9, 50, 10, 20, Span::from_days(0)).unwrap();
    let neutralization_delay = Span::from_minutes(0);
    let dynamic_auction =
        DynamicAuctionTemporality::try_new(bidding_interval, neutralization_delay, "CET").unwrap();

    let reference_time = ts("2024-01-15T09:00:00Z");
    let bounds = dynamic_auction
        .to_bid_time_bounds(&reference_time, &bid_specs(15))
        .unwrap()
        .unwrap();

    // 10:00 CET is already on the step boundary == 09:00Z.
    assert_eq!(bounds.start, ts("2024-01-15T09:00:00Z"));
    // 10:20 CET truncates down to 10:15 CET == 09:15Z.
    assert_eq!(bounds.end, ts("2024-01-15T09:15:00Z"));
}

fn continuous_test(reference_time: Timestamp, expected_start: Timestamp, expected_end: Timestamp) {
    let continuous_auction =
        ContinuousAuctionTemporality::try_new(15, 0, Span::from_hours(2), "CET").unwrap();
    let bounds = continuous_auction
        .to_bid_time_bounds(&reference_time, &bid_specs(15))
        .unwrap()
        .unwrap();
    assert_eq!(bounds.start, expected_start);
    assert_eq!(bounds.end, expected_end);
}

#[test]
fn bid_time_bounds_continuous_same_day_only() {
    continuous_test(
        ts("2024-01-15T09:00:00Z"),
        ts("2024-01-15T11:00:00Z"),
        ts("2024-01-16T22:45:00Z"),
    );
}

#[test]
fn bid_time_bounds_continuous_next_only() {
    continuous_test(
        ts("2024-01-15T22:55:00Z"),
        ts("2024-01-16T01:00:00Z"),
        ts("2024-01-16T22:45:00Z"),
    );
}

#[test]
fn bid_time_bounds_continuous_both_days() {
    continuous_test(
        ts("2024-01-15T16:00:00Z"),
        ts("2024-01-15T18:00:00Z"),
        ts("2024-01-16T22:45:00Z"),
    );
}

#[test]
fn bid_window_grid_counts_whole_steps() {
    let continuous_auction =
        ContinuousAuctionTemporality::try_new(15, 0, Span::from_hours(2), "CET").unwrap();
    let grid = continuous_auction
        .to_bid_time_bounds(&ts("2024-01-15T09:00:00Z"), &bid_specs(15))
        .unwrap()
        .unwrap();
    // 11:00Z to 22:45Z the next day: 35 hours 45 minutes of 15-minute steps.
    assert_eq!(grid.length, 143);
    assert_eq!(grid.step, bid_specs(15).step);
}

#[test]
fn hourly_bid_step_rounds_to_whole_hours() {
    let continuous_auction =
        ContinuousAuctionTemporality::try_new(15, 0, Span::from_hours(2), "CET").unwrap();
    let grid = continuous_auction
        .to_bid_time_bounds(&ts("2024-01-15T09:00:00Z"), &bid_specs(60))
        .unwrap()
        .unwrap();
    // 12:00 CET is already a whole hour; 23:59 CET the next day truncates to 23:00.
    assert_eq!(grid.start, ts("2024-01-15T11:00:00Z"));
    assert_eq!(grid.end, ts("2024-01-16T22:00:00Z"));
    assert_eq!(grid.length, 35);
}

#[test]
fn static_day_ahead_window_is_next_day() {
    let open_interval = TimeDefinedInterval::try_new(0, 0, 12, 0, Span::from_days(0)).unwrap();
    let bidding_interval = TimeDefinedInterval::try_new(0, 0, 23, 59, Span::from_days(0)).unwrap();
    let auction =
        StaticAuctionTemporality::try_new(open_interval, bidding_interval, Span::from_days(1), "CET")
            .unwrap();
    // 10:00 CET, before the noon closure: bidding covers the next CET day.
    let grid = auction
        .to_bid_time_bounds(&ts("2024-01-15T09:00:00Z"), &bid_specs(15))
        .unwrap()
        .unwrap();
    assert_eq!(grid.start, ts("2024-01-15T23:00:00Z"));
    assert_eq!(grid.end, ts("2024-01-16T22:45:00Z"));
}

#[test]
fn static_auction_rejects_delta_of_two_days() {
    let open_interval = TimeDefinedInterval::try_new(0, 0, 12, 0, Span::from_days(0)).unwrap();
    let bidding_interval = TimeDefinedInterval::try_new(0, 0, 23, 59, Span::from_days(0)).unwrap();
    let result =
        StaticAuctionTemporality::try_new(open_interval, bidding_interval, Span::from_days(2), "CET");
    assert!(matches!(
        result,
        Err(Error::Market(golion::market::error::MarketError::InvalidDeltaDayValue { .. }))
    ));
}

#[test]
fn interval_rejects_close_before_open_on_same_day() {
    let result = TimeDefinedInterval::try_new(12, 0, 11, 0, Span::from_days(0));
    assert!(matches!(
        result,
        Err(Error::Market(golion::market::error::MarketError::InvalidTimeDefinedBound { .. }))
    ));
    assert!(TimeDefinedInterval::try_new(12, 0, 11, 0, Span::from_days(1)).is_ok());
}

#[test]
fn interval_rejects_invalid_clock_time() {
    assert!(matches!(
        TimeDefinedInterval::try_new(25, 0, 11, 0, Span::from_days(0)),
        Err(Error::Jiff(_))
    ));
}

#[test]
fn continuous_auction_rejects_unknown_time_zone() {
    assert!(matches!(
        ContinuousAuctionTemporality::try_new(15, 0, Span::from_hours(2), "Not/AZone"),
        Err(Error::Jiff(_))
    ));
}

#[test]
fn joined_windows_take_same_day_start_and_next_day_end() {
    let same = Some((ts("2024-01-15T11:00:00Z"), ts("2024-01-15T22:45:00Z")));
    let next = Some((ts("2024-01-15T23:00:00Z"), ts("2024-01-16T22:45:00Z")));
    assert_eq!(
        join_day_windows(same, next),
        Some((ts("2024-01-15T11:00:00Z"), ts("2024-01-16T22:45:00Z")))
    );
    assert_eq!(join_day_windows(None, next), next);
    assert_eq!(join_day_windows(same, None), same);
    assert_eq!(join_day_windows(None, None), None);
}

#[test]
fn dynamic_bids_do_not_start_within_the_neutralization_delay() {
    let bidding_interval = TimeDefinedInterval::try_new(9, 0, 12, 0, Span::from_days(0)).unwrap();
    let dynamic_auction =
        DynamicAuctionTemporality::try_new(bidding_interval, Span::from_minutes(30), "CET").unwrap();
    // 10:00 CET plus the 30 minutes delay: bidding starts at 10:30 CET.
    let grid = dynamic_auction
        .to_bid_time_bounds(&ts("2024-01-15T09:00:00Z"), &bid_specs(15))
        .unwrap()
        .unwrap();
    assert_eq!(grid.start, ts("2024-01-15T09:30:00Z"));
    assert_eq!(grid.end, ts("2024-01-15T11:00:00Z"));
    assert_eq!(grid.length, 6);
    assert_eq!(grid.iter().len(), 6);
}
