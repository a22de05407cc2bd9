use carbon_covid::date::{Date, DateRange};
use carbon_covid::engine::{
    correlate, day_record, first_of, plan, plan_query, plan_text_query, CorrelatedRecord, CorrelationError,
    CorrelationResponse, DayOutcome, DayRequest,
};
use carbon_covid::request::UpstreamError;

fn ymd(year: i32, month: u32, day: u32) -> Date {
    Date { year, month, day }
}

fn good(carbon: u32, cases: u32) -> DayOutcome {
    DayOutcome { carbon: Ok(vec![carbon, 1]), covid: Ok(vec![cases, 2]) }
}

fn error_of(id: u32, from: &str, to: Option<&str>) -> CorrelationError {
    match plan_query(id, from, to) {
        Err(e) => e,
        Ok(_) => panic!("query was accepted"),
    }
}

#[test]
fn invalid_region_ids_are_refused() {
    for id in [0u32, 18, 1000] {
        let e = error_of(id, "2023-06-10", None);
        assert_eq!(e, CorrelationError::InvalidRegion);
        let resp = CorrelationResponse::refused(e);
        assert_eq!(resp.error.as_deref(), Some("Invalid region id"));
        assert!(resp.region.is_none());
        assert!(resp.data.is_none());
    }
    // The region is checked before the dates.
    assert_eq!(error_of(0, "garbage", None), CorrelationError::InvalidRegion);
}

#[test]
fn end_before_start_is_reported() {
    let e = error_of(1, "2023-06-15", Some("2023-06-10"));
    assert_eq!(e, CorrelationError::ToBeforeFrom);
    let resp = CorrelationResponse::refused(e);
    assert_eq!(resp.error.as_deref(), Some("to date is before from date"));
}

#[test]
fn unparsable_query_dates_are_reported() {
    let e = error_of(3, "June", None);
    assert_eq!(e, CorrelationError::UnparsableFrom);
    assert_eq!(e.message(), "Unable to parse `from` date");
    let e = error_of(3, "2023-06-10", Some("2023-06-31"));
    assert_eq!(e, CorrelationError::UnparsableTo);
    assert_eq!(e.message(), "Unable to parse `to` date");
}

#[test]
fn default_window_plans_from_and_next_day() {
    let p = plan_query(7, "2023-06-10", None).unwrap();
    assert_eq!(p.region_id, 7);
    assert_eq!(p.region.carbon_region_name, "South Wales");
    assert_eq!(p.range.from, ymd(2023, 6, 10));
    assert_eq!(p.range.to, ymd(2023, 6, 11));
    assert_eq!(p.days, vec![ymd(2023, 6, 10), ymd(2023, 6, 11)]);
}

#[test]
fn plan_lists_each_day_across_a_month_end() {
    let range = DateRange { from: ymd(2024, 2, 27), to: ymd(2024, 3, 2) };
    let p = plan(15, range).unwrap();
    assert_eq!(
        p.days,
        vec![ymd(2024, 2, 27), ymd(2024, 2, 28), ymd(2024, 2, 29), ymd(2024, 3, 1), ymd(2024, 3, 2)]
    );
}

#[test]
fn plan_checks_region_then_order() {
    let backwards = DateRange { from: ymd(2023, 6, 15), to: ymd(2023, 6, 10) };
    assert!(matches!(plan(0, backwards), Err(CorrelationError::InvalidRegion)));
    assert!(matches!(plan(2, backwards), Err(CorrelationError::ToBeforeFrom)));
}

#[test]
fn failed_middle_day_is_left_out() {
    let p = plan_query(13, "2023-06-10", Some("2023-06-12")).unwrap();
    assert_eq!(p.days.len(), 3);
    let outcomes = vec![
        good(120, 1000),
        DayOutcome { carbon: Err(UpstreamError::NoReading), covid: Ok(vec![1010]) },
        good(140, 1020),
    ];
    let resp = correlate(&p, &outcomes);
    assert_eq!(resp.region.as_deref(), Some("London"));
    assert!(resp.error.is_none());
    let data = resp.data.unwrap();
    assert_eq!(
        data,
        vec![
            CorrelatedRecord { date: ymd(2023, 6, 10), cumulative_covid_cases: 1000, carbon_intensity: 120 },
            CorrelatedRecord { date: ymd(2023, 6, 12), cumulative_covid_cases: 1020, carbon_intensity: 140 },
        ]
    );
}

#[test]
fn failed_health_fetch_or_empty_series_drops_the_day() {
    let p = plan_query(4, "2023-01-01", Some("2023-01-03")).unwrap();
    let outcomes = vec![
        DayOutcome { carbon: Ok(vec![90]), covid: Err(UpstreamError::Undecodable) },
        DayOutcome { carbon: Ok(vec![]), covid: Ok(vec![5]) },
        DayOutcome { carbon: Ok(vec![95]), covid: Ok(vec![]) },
    ];
    let resp = correlate(&p, &outcomes);
    assert_eq!(resp.region.as_deref(), Some("North East England"));
    assert_eq!(resp.data.unwrap(), Vec::<CorrelatedRecord>::new());
}

#[test]
fn correlating_twice_gives_the_same_answer() {
    let p = plan_query(9, "2022-12-30", Some("2023-01-02")).unwrap();
    let outcomes = || {
        vec![good(1, 10), DayOutcome { carbon: Err(UpstreamError::NoReading), covid: Ok(vec![11]) }, good(3, 12), good(4, 13)]
    };
    let a = correlate(&p, &outcomes());
    let b = correlate(&p, &outcomes());
    assert_eq!(a.region, b.region);
    assert_eq!(a.data, b.data);
    assert_eq!(a.error, b.error);
    assert_eq!(a.data.unwrap().len(), 3);
}

#[test]
fn day_record_takes_first_readings() {
    let rec = day_record(ymd(2023, 6, 10), &good(250, 777)).unwrap();
    assert_eq!(rec.carbon_intensity, 250);
    assert_eq!(rec.cumulative_covid_cases, 777);
    let out = DayOutcome { carbon: Ok(vec![1]), covid: Err(UpstreamError::UnknownRegion) };
    assert_eq!(day_record(ymd(2023, 6, 10), &out), Err(UpstreamError::UnknownRegion));
}

#[test]
fn first_of_guards_empty_series() {
    assert_eq!(first_of(&Ok(vec![])), Err(UpstreamError::NoReading));
    assert_eq!(first_of(&Ok(vec![8, 9])), Ok(8));
    assert_eq!(first_of(&Err(UpstreamError::Undecodable)), Err(UpstreamError::Undecodable));
}

#[test]
fn requests_cover_each_planned_day() {
    let p = plan_query(1, "2023-06-10", None).unwrap();
    let reqs = p.requests();
    assert_eq!(reqs.len(), 2);
    assert_eq!(reqs[1].day, ymd(2023, 6, 11));
    assert_eq!(
        reqs[0].carbon_path.as_deref(),
        Ok("/regional/intensity/2023-06-10T00:00:00Z/2023-06-11T00:00:00Z/regionid/1")
    );
    let single = DayRequest::new(1, ymd(2023, 6, 11));
    assert_eq!(single.covid_path, reqs[1].covid_path);
    assert!(single.covid_path.unwrap().contains("areaName=Scotland;areaType=nation;date=2023-06-11"));
}

#[test]
fn region_ids_given_as_text() {
    for text in ["abc", "", "1.5", "-1", "0", "18"] {
        assert!(matches!(
            plan_text_query(text, "2023-06-10", None),
            Err(CorrelationError::InvalidRegion)
        ));
    }
    let p = plan_text_query("12", "2023-06-10", None).unwrap();
    assert_eq!(p.region_id, 12);
    assert_eq!(p.region.carbon_region_name, "South England");
}
