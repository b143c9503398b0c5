use pollution_tracker::db::UserForm;
use pollution_tracker::http::{HttpResponse, LoginResponse, TimeRange, TimeRangeQuery};
use pollution_tracker::time::Timestamp;

const DAY: i64 = 86_400;

fn at(secs: i64, nanos: u32) -> Timestamp {
    Timestamp { secs, nanos }
}

#[test]
fn selectors_name_their_ranges() {
    assert_eq!(TimeRange::parse("24h"), Some(TimeRange::OneDay));
    assert_eq!(TimeRange::parse("7d"), Some(TimeRange::OneWeek));
    assert_eq!(TimeRange::parse("30d"), Some(TimeRange::OneMonth));
    assert_eq!(TimeRange::parse("90d"), Some(TimeRange::OneQuarter));
    assert_eq!(TimeRange::parse("all"), Some(TimeRange::All));
}

#[test]
fn unknown_selectors_name_nothing() {
    assert_eq!(TimeRange::parse(""), None);
    assert_eq!(TimeRange::parse("24H"), None);
    assert_eq!(TimeRange::parse("1d"), None);
    assert_eq!(TimeRange::parse("ALL"), None);
    assert_eq!(TimeRange::parse(" 7d"), None);
    assert_eq!(TimeRange::parse("oneday"), None);
}

#[test]
fn query_from_selector() {
    assert_eq!(TimeRangeQuery::from_selector(None), Some(TimeRangeQuery { range: None }));
    assert_eq!(
        TimeRangeQuery::from_selector(Some("90d")),
        Some(TimeRangeQuery { range: Some(TimeRange::OneQuarter) })
    );
    assert_eq!(TimeRangeQuery::from_selector(Some("yesterday")), None);
}

#[test]
fn span_of_each_range() {
    assert_eq!(TimeRange::OneDay.span_seconds(), DAY);
    assert_eq!(TimeRange::OneWeek.span_seconds(), 7 * DAY);
    assert_eq!(TimeRange::OneMonth.span_seconds(), 30 * DAY);
    assert_eq!(TimeRange::OneQuarter.span_seconds(), 90 * DAY);
    assert_eq!(TimeRange::All.span_seconds(), 180 * DAY);
}

#[test]
fn cutoff_of_24h_is_exactly_one_day_back() {
    let now = at(1_700_000_000, 123_456_789);
    let query = TimeRangeQuery::from_selector(Some("24h")).unwrap();
    assert_eq!(query.cutoff_at(now), at(1_700_000_000 - DAY, 123_456_789));
}

#[test]
fn absent_selector_behaves_like_24h() {
    let now = at(1_700_000_000, 5);
    let absent = TimeRangeQuery::from_selector(None).unwrap();
    let one_day = TimeRangeQuery::from_selector(Some("24h")).unwrap();
    assert_eq!(absent.cutoff_at(now), one_day.cutoff_at(now));
}

#[test]
fn cutoff_of_each_range() {
    let now = at(2_000_000_000, 0);
    let cutoff = |selector: &str| {
        TimeRangeQuery::from_selector(Some(selector)).unwrap().cutoff_at(now).secs
    };
    assert_eq!(cutoff("7d"), 2_000_000_000 - 604_800);
    assert_eq!(cutoff("30d"), 2_000_000_000 - 2_592_000);
    assert_eq!(cutoff("90d"), 2_000_000_000 - 7_776_000);
    assert_eq!(cutoff("all"), 2_000_000_000 - 15_552_000);
}

#[test]
fn all_reaches_back_180_days_and_no_further() {
    let now = at(1_700_000_000, 0);
    let query = TimeRangeQuery { range: Some(TimeRange::All) };
    let cutoff = query.cutoff_at(now);
    assert_eq!(now.secs - cutoff.secs, 180 * DAY);
}

#[test]
fn cutoff_before_the_epoch() {
    let query = TimeRangeQuery { range: Some(TimeRange::OneWeek) };
    assert_eq!(query.cutoff_at(at(0, 1)), at(-604_800, 1));
}

#[test]
fn cutoff_by_the_system_clock_is_one_day_back() {
    let before = chrono::Utc::now().timestamp();
    let cutoff = TimeRangeQuery { range: None }.to_cutoff_time();
    let after = chrono::Utc::now().timestamp();
    assert!(before - DAY <= cutoff.secs && cutoff.secs <= after - DAY);
    assert!(cutoff.nanos < 1_000_000_000);
}

#[test]
fn timestamp_new_checks_the_sub_second_part() {
    assert_eq!(Timestamp::new(5, 999_999_999), Some(at(5, 999_999_999)));
    assert_eq!(Timestamp::new(5, 1_000_000_000), None);
    assert_eq!(Timestamp::new(-5, 0), Some(at(-5, 0)));
}

#[test]
fn success_envelopes() {
    let plain: HttpResponse<()> = HttpResponse::success();
    assert_eq!(plain.status, 200);
    assert!(plain.error_msg.is_none());
    assert!(plain.body.is_none());
    let with_data = HttpResponse::success_data(vec![1, 2, 3]);
    assert_eq!(with_data.status, 200);
    assert!(with_data.error_msg.is_none());
    assert_eq!(with_data.body, Some(vec![1, 2, 3]));
}

#[test]
fn failure_envelopes() {
    let r: HttpResponse<()> = HttpResponse::bad_request("bad");
    assert_eq!((r.status, r.error_msg.as_deref(), r.body), (400, Some("bad"), None));
    let r: HttpResponse<()> = HttpResponse::unauthorized("who");
    assert_eq!((r.status, r.error_msg.as_deref(), r.body), (401, Some("who"), None));
    let r: HttpResponse<()> = HttpResponse::forbidden("no");
    assert_eq!((r.status, r.error_msg.as_deref(), r.body), (403, Some("no"), None));
    let r: HttpResponse<()> = HttpResponse::conflicts("taken");
    assert_eq!((r.status, r.error_msg.as_deref(), r.body), (409, Some("taken"), None));
    let r: HttpResponse<()> = HttpResponse::internal_error();
    assert_eq!((r.status, r.error_msg.as_deref(), r.body), (500, Some("Internal server error"), None));
}

#[test]
fn login_response_names_user_and_role() {
    let form = UserForm { username: "alice".to_string(), password: "pw1".to_string() };
    let r = LoginResponse::new("tok".to_string(), &form);
    assert_eq!(r.token, "tok");
    assert_eq!(r.username, "alice");
    assert_eq!(r.role, "user");
}
