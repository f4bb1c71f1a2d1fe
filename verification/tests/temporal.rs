use golion::contract::error::Error as ContractError;
use golion::contract::optimization::optimization_grid;
use golion::temporal::grid::{RegularTimeGrid, TimeGridError};
use golion::temporal::series::{TimeSeries, TimeSeriesError, TimeStampedUtc};
use golion::temporal::step::{MinuteStep, MinuteStepError};
use golion::time::duration::SignedDuration;
use golion::time::span::Span;
use golion::time::timestamp::Timestamp;
use golion::Error;

fn ts(text: &str) -> Timestamp {
    let parsed: jiff::Timestamp = text.parse().unwrap();
    Timestamp::from_nanosecond(parsed.as_nanosecond()).unwrap()
}

fn step(minutes: i64) -> MinuteStep {
    MinuteStep::try_from_duration(SignedDuration::from_mins(minutes)).unwrap()
}

#[derive(Debug, PartialEq)]
struct Row {
    start_at: Timestamp,
    value: u32,
}

impl TimeStampedUtc for Row {
    fn spec_start_at(&self) -> Timestamp {
        self.start_at
    }

    fn start_at(&self) -> &Timestamp {
        &self.start_at
    }
}

fn rows(instants: &[&str]) -> Vec<Row> {
    instants
        .iter()
        .enumerate()
        .map(|(i, text)| Row { start_at: ts(text), value: i as u32 })
        .collect()
}

#[test]
fn steps_are_fifteen_thirty_or_sixty_minutes() {
    for minutes in [15, 30, 60] {
        let s = MinuteStep::try_from_duration(SignedDuration::from_mins(minutes)).unwrap();
        assert_eq!(s.as_secs(), minutes * 60);
        assert_eq!(s.duration().as_mins(), minutes);
        assert_eq!(s.span(), Span::from_seconds(minutes * 60));
    }
    for minutes in [0, 5, 20, 45, 90, -15] {
        let duration = SignedDuration::from_mins(minutes);
        assert!(matches!(
            MinuteStep::try_from_duration(duration),
            Err(Error::Step(MinuteStepError::InvalidGranularity { step })) if step == duration
        ));
    }
}

#[test]
fn step_from_span_refuses_calendar_units() {
    assert_eq!(MinuteStep::try_from_span(&Span::from_minutes(30)).unwrap(), step(30));
    assert_eq!(MinuteStep::try_from_span(&Span::from_hours(1)).unwrap(), step(60));
    assert!(matches!(
        MinuteStep::try_from_span(&Span::from_days(1)),
        Err(Error::Step(MinuteStepError::JiffConversionError(_)))
    ));
    assert!(matches!(
        MinuteStep::try_from_span(&Span::from_minutes(10)),
        Err(Error::Step(MinuteStepError::InvalidGranularity { .. }))
    ));
}

#[test]
fn named_steps() {
    assert_eq!(MinuteStep::fifteen_minutes(), step(15));
    assert_eq!(MinuteStep::thirty_minutes(), step(30));
    assert_eq!(MinuteStep::one_hour(), step(60));
}

#[test]
fn instants_are_checked_against_the_step() {
    assert!(step(15).check_datetime_multiple_step(ts("2024-01-15T09:45:00Z")).is_ok());
    assert!(step(60).check_datetime_multiple_step(ts("2024-01-15T09:00:00Z")).is_ok());
    let off = ts("2024-01-15T09:10:00Z");
    assert!(matches!(
        step(15).check_datetime_multiple_step(off),
        Err(Error::Step(MinuteStepError::DatetimeNonMultipleOfStep { dt, .. })) if dt == off
    ));
    assert!(step(60).check_datetime_multiple_step(ts("2024-01-15T09:30:00Z")).is_err());
}

#[test]
fn grid_of_length_ends_after_length_minus_one_steps() {
    let grid = RegularTimeGrid::try_new(ts("2024-01-15T00:00:00Z"), step(15), 4).unwrap();
    assert_eq!(grid.end, ts("2024-01-15T00:45:00Z"));
    assert_eq!(grid.length, 4);
    let instants = grid.iter();
    assert_eq!(instants.len(), 4);
    assert_eq!(instants[3], ts("2024-01-15T00:45:00Z"));
}

#[test]
fn grid_instants_are_found_at_their_rank() {
    let grid = RegularTimeGrid::try_new(ts("2024-01-15T00:00:00Z"), step(30), 5).unwrap();
    for (k, instant) in grid.iter().iter().enumerate() {
        assert_eq!(grid.index_of(instant).unwrap(), k);
    }
}

#[test]
fn grid_start_must_be_on_the_step() {
    let start = ts("2024-01-15T00:10:00Z");
    assert!(matches!(
        RegularTimeGrid::try_new(start, step(15), 3),
        Err(Error::Step(MinuteStepError::DatetimeNonMultipleOfStep { dt, .. })) if dt == start
    ));
}

#[test]
fn grid_from_start_to_end_counts_steps() {
    let grid =
        RegularTimeGrid::try_new_start_end(ts("2024-01-15T00:00:00Z"), step(15), ts("2024-01-15T01:00:00Z"))
            .unwrap();
    assert_eq!(grid.length, 4);
    // The end closes the last step: it is no row of the grid.
    assert_eq!(grid.iter().len(), 4);
    assert_eq!(grid.index_of(&ts("2024-01-15T00:45:00Z")).unwrap(), 3);
    assert!(matches!(
        grid.index_of(&ts("2024-01-15T01:00:00Z")),
        Err(Error::Grid(TimeGridError::OutsideBounds { .. }))
    ));
}

#[test]
fn grid_length_must_fit_and_end_must_be_an_instant() {
    assert!(matches!(
        RegularTimeGrid::try_new(ts("2024-01-15T00:00:00Z"), step(15), usize::MAX),
        Err(Error::Grid(TimeGridError::LengthOverFlow(_)))
    ));
    assert!(matches!(
        RegularTimeGrid::try_new(ts("9999-12-30T00:00:00Z"), step(60), 100),
        Err(Error::Grid(TimeGridError::EndDateTimeOverFlow { length: 100, .. }))
    ));
}

#[test]
fn sub_second_instants_are_not_on_the_step() {
    let half_past = ts("2024-01-15T09:00:00.5Z");
    assert!(matches!(
        step(15).check_datetime_multiple_step(half_past),
        Err(Error::Step(MinuteStepError::DatetimeNonMultipleOfStep { .. }))
    ));
    let grid = RegularTimeGrid::try_new(ts("2024-01-15T09:00:00Z"), step(15), 4).unwrap();
    assert!(grid.index_of(&half_past).is_err());
}

#[test]
fn series_rows_must_all_sit_on_the_grid() {
    let result = TimeSeries::try_from(rows(&[
        "2024-01-15T00:00:00Z",
        "2024-01-15T00:15:00Z",
        "2024-01-15T00:40:00Z",
        "2024-01-15T00:45:00Z",
    ]));
    assert!(matches!(
        result,
        Err(Error::TimeSeries(TimeSeriesError::MisplacedRow { expected, actual }))
            if expected == ts("2024-01-15T00:30:00Z") && actual == ts("2024-01-15T00:40:00Z")
    ));
}

#[test]
fn grid_end_must_follow_start() {
    let start = ts("2024-01-15T01:00:00Z");
    let end = ts("2024-01-15T00:00:00Z");
    assert!(matches!(
        RegularTimeGrid::try_new_start_end(start, step(15), end),
        Err(Error::Grid(TimeGridError::EndBeforeStart { .. }))
    ));
    assert!(matches!(
        RegularTimeGrid::try_new_start_end(start, step(15), start),
        Err(Error::Grid(TimeGridError::EndBeforeStart { .. }))
    ));
}

#[test]
fn grid_end_must_be_on_the_step() {
    let end = ts("2024-01-15T01:05:00Z");
    assert!(matches!(
        RegularTimeGrid::try_new_start_end(ts("2024-01-15T00:00:00Z"), step(15), end),
        Err(Error::Step(MinuteStepError::DatetimeNonMultipleOfStep { dt, .. })) if dt == end
    ));
}

#[test]
fn index_of_refuses_instants_off_the_grid() {
    let grid = RegularTimeGrid::try_new(ts("2024-01-15T00:00:00Z"), step(15), 4).unwrap();
    assert!(matches!(
        grid.index_of(&ts("2024-01-15T01:00:00Z")),
        Err(Error::Grid(TimeGridError::OutsideBounds { .. }))
    ));
    assert!(matches!(
        grid.index_of(&ts("2024-01-14T23:45:00Z")),
        Err(Error::Grid(TimeGridError::OutsideBounds { .. }))
    ));
    assert!(matches!(
        grid.index_of(&ts("2024-01-15T00:20:00Z")),
        Err(Error::Step(MinuteStepError::DatetimeNonMultipleOfStep { .. }))
    ));
}

#[test]
fn series_rows_are_found_by_instant() {
    let series = TimeSeries::try_from(rows(&[
        "2024-01-15T00:00:00Z",
        "2024-01-15T00:15:00Z",
        "2024-01-15T00:30:00Z",
    ]))
    .unwrap();
    assert_eq!(series.grid.step, step(15));
    assert_eq!(series.grid.length, 3);
    for instant in series.grid.iter() {
        assert_eq!(series.at(&instant).unwrap().start_at, instant);
    }
    assert_eq!(series.at(&ts("2024-01-15T00:15:00Z")).unwrap().value, 1);
}

#[test]
fn series_needs_two_rows() {
    assert!(matches!(
        TimeSeries::try_from(rows(&["2024-01-15T00:00:00Z"])),
        Err(Error::TimeSeries(TimeSeriesError::TooShort { length: 1, minimal: 2 }))
    ));
    assert!(matches!(
        TimeSeries::<Row>::try_from(Vec::new()),
        Err(Error::TimeSeries(TimeSeriesError::TooShort { length: 0, minimal: 2 }))
    ));
}

#[test]
fn series_step_comes_from_the_first_gap() {
    assert!(matches!(
        TimeSeries::try_from(rows(&["2024-01-15T00:00:00Z", "2024-01-15T00:20:00Z"])),
        Err(Error::Step(MinuteStepError::InvalidGranularity { .. }))
    ));
}

#[test]
fn series_last_row_must_end_the_grid() {
    let result = TimeSeries::try_from(rows(&[
        "2024-01-15T00:00:00Z",
        "2024-01-15T00:15:00Z",
        "2024-01-15T01:00:00Z",
    ]));
    assert!(matches!(
        result,
        Err(Error::TimeSeries(TimeSeriesError::GridEndMismatch { expected, actual }))
            if expected == ts("2024-01-15T01:00:00Z") && actual == ts("2024-01-15T00:30:00Z")
    ));
}

#[test]
fn series_reports_instants_without_row() {
    let grid = RegularTimeGrid::try_new(ts("2024-01-15T00:00:00Z"), step(15), 3).unwrap();
    let series = TimeSeries { grid, data: rows(&["2024-01-15T00:00:00Z"]) };
    let missing = ts("2024-01-15T00:15:00Z");
    assert!(matches!(
        series.at(&missing),
        Err(Error::TimeSeries(TimeSeriesError::MissingValueAtTime { datetime })) if datetime == missing
    ));
    assert!(matches!(
        series.at(&ts("2024-01-15T02:00:00Z")),
        Err(Error::Grid(TimeGridError::OutsideBounds { .. }))
    ));
}

#[test]
fn optimization_grid_spans_the_run() {
    let grid = optimization_grid(
        ts("2024-01-15T00:00:00Z"),
        ts("2024-01-16T00:00:00Z"),
        SignedDuration::from_mins(30),
    )
    .unwrap();
    assert_eq!(grid.step, step(30));
    assert_eq!(grid.length, 48);
    assert_eq!(grid.end, ts("2024-01-16T00:00:00Z"));
}

#[test]
fn optimization_grid_refuses_bad_steps_and_bounds() {
    assert!(matches!(
        optimization_grid(ts("2024-01-15T00:00:00Z"), ts("2024-01-16T00:00:00Z"), SignedDuration::from_mins(10)),
        Err(ContractError::Domain(Error::Step(MinuteStepError::InvalidGranularity { .. })))
    ));
    assert!(matches!(
        optimization_grid(ts("2024-01-16T00:00:00Z"), ts("2024-01-15T00:00:00Z"), SignedDuration::from_mins(15)),
        Err(ContractError::Domain(Error::Grid(TimeGridError::EndBeforeStart { .. })))
    ));
}

#[test]
fn durations_and_instants() {
    let a = ts("2024-01-15T00:00:00Z");
    let b = ts("2024-01-15T01:30:00Z");
    assert_eq!(b.duration_since(&a).as_mins(), 90);
    assert_eq!(a.add(&SignedDuration::from_mins(90)), b);
    assert!(a.is_before(&b));
    assert_eq!(a.as_second(), 1_705_276_800);
    assert_eq!(Timestamp::from_second(1_705_276_800).unwrap(), a);
    assert!(Timestamp::from_second(i64::MAX).is_none());
    assert_eq!(SignedDuration::from_secs(60).mul(3).as_mins(), 3);
}

#[test]
fn spans_are_well_formed_with_one_sign_and_bounded_units() {
    assert!(Span::from_hours(2).is_well_formed());
    assert!(Span::new().is_well_formed());
    let mixed = Span { hours: 1, minutes: -30, ..Span::new() };
    assert!(!mixed.is_well_formed());
    let too_many_years = Span { years: 20_000, ..Span::new() };
    assert!(!too_many_years.is_well_formed());
    assert_eq!(Span::from_days(1).get_days(), 1);
}

#[test]
fn series_first_row_must_be_on_the_step() {
    // Regular rows that start off the step: the grid they imply is refused.
    let first = ts("2024-01-15T00:05:00Z");
    let result = TimeSeries::try_from(rows(&[
        "2024-01-15T00:05:00Z",
        "2024-01-15T00:20:00Z",
        "2024-01-15T00:35:00Z",
    ]));
    assert!(matches!(
        result,
        Err(Error::Step(MinuteStepError::DatetimeNonMultipleOfStep { dt, .. })) if dt == first
    ));
}
