use fitbit_rs::api::{absolute_url, body_log_range_route, body_log_route, BodyLog};
use fitbit_rs::util::{date_or_today, Date};

#[test]
fn date_segments() {
    assert_eq!(date_or_today(None), "today");
    assert_eq!(date_or_today(Some(Date { year: 2015, month: 3, day: 5 })), "2015-03-05");
    assert_eq!(date_or_today(Some(Date { year: 7, month: 12, day: 31 })), "0007-12-31");
}

#[test]
fn body_log_routes() {
    assert_eq!(
        body_log_route(BodyLog::Weight, None, "today"),
        "/1/user/-/body/log/weight/date/today.json"
    );
    assert_eq!(
        body_log_route(BodyLog::Fat, Some("ABC"), "2015-03-05"),
        "/1/user/ABC/body/log/fat/date/2015-03-05.json"
    );
    assert_eq!(
        body_log_range_route(BodyLog::Weight, None, "2015-03-01", "today"),
        "/1/user/-/body/log/weight/date/2015-03-01/today.json"
    );
    assert_eq!(
        body_log_range_route(BodyLog::Fat, Some("u"), "a", "b"),
        "/1/user/u/body/log/fat/date/a/b.json"
    );
}

#[test]
fn absolute_urls() {
    assert_eq!(
        absolute_url("/1/user/-/body/log/weight/date/today.json").unwrap(),
        "https://api.fitbit.com/1/user/-/body/log/weight/date/today.json"
    );
    assert_eq!(absolute_url("1/x").unwrap(), "https://api.fitbit.com/1/x");
    assert_eq!(absolute_url("http://[::1").unwrap_err(), fitbit_rs::error::Error::Url);
}
