use weathd::api::{
    settle_reading, Api, ApiRequestConfiguration, ApiResponseError, Category, Location, Replies,
    Reply, RequestTypes,
};
use weathd::document::readable;

fn config(current: bool, forecast: bool, alerts: bool) -> ApiRequestConfiguration {
    ApiRequestConfiguration {
        q: Location::Metar(String::from("KJFK")),
        days: Some(3),
        hour: Some(true),
        requests: RequestTypes {
            current,
            forecast,
            alerts,
        },
    }
}

fn body(text: &str, at: u128) -> Reply {
    Reply {
        outcome: Ok(String::from(text)),
        received_at: at,
    }
}

fn failure(details: &str, at: u128) -> Reply {
    Reply {
        outcome: Err(String::from(details)),
        received_at: at,
    }
}

fn pairs(request: &weathd::api::Request) -> Vec<(String, String)> {
    request
        .query
        .iter()
        .map(|p| (p.name.clone(), p.value.clone()))
        .collect()
}

fn pair(name: &str, value: &str) -> (String, String) {
    (String::from(name), String::from(value))
}

#[test]
fn new_client_has_nothing_cached() {
    let api = Api::new(String::from("k"));
    assert!(api.get_cached_current().is_none());
    assert!(api.get_cached_alerts().is_none());
    assert!(api.get_cached_forecast().is_none());
}

#[test]
fn current_request_carries_days_and_hour() {
    let api = Api::new(String::from("secret"));
    let request = api.make_current_request(&config(true, true, true));
    assert_eq!(request.url, "http://api.weatherapi.com/v1/current.json");
    assert_eq!(request.key, "secret");
    assert_eq!(
        pairs(&request),
        vec![pair("q", "metar:KJFK"), pair("days", "3"), pair("hour", "true")]
    );
}

#[test]
fn current_request_without_options() {
    let api = Api::new(String::from("secret"));
    let mut c = config(true, true, true);
    c.days = None;
    c.hour = Some(false);
    let request = api.make_current_request(&c);
    assert_eq!(pairs(&request), vec![pair("q", "metar:KJFK"), pair("hour", "false")]);
    c.hour = None;
    let request = api.make_current_request(&c);
    assert_eq!(pairs(&request), vec![pair("q", "metar:KJFK")]);
}

#[test]
fn forecast_request_carries_days_and_hourly() {
    let api = Api::new(String::from("secret"));
    let request = api.make_forecast_request(&config(true, true, true));
    assert_eq!(request.url, "http://api.weatherapi.com/v1/forecast.json");
    assert_eq!(request.key, "secret");
    assert_eq!(
        pairs(&request),
        vec![pair("q", "metar:KJFK"), pair("days", "3"), pair("hourly", "true")]
    );
}

#[test]
fn forecast_request_without_options() {
    let api = Api::new(String::from("secret"));
    let mut c = config(true, true, true);
    c.hour = Some(false);
    c.days = None;
    let request = api.make_forecast_request(&c);
    assert_eq!(pairs(&request), vec![pair("q", "metar:KJFK"), pair("hourly", "false")]);
    c.hour = None;
    c.days = Some(10);
    let request = api.make_forecast_request(&c);
    assert_eq!(pairs(&request), vec![pair("q", "metar:KJFK"), pair("days", "10")]);
    c.days = None;
    let request = api.make_forecast_request(&c);
    assert_eq!(pairs(&request), vec![pair("q", "metar:KJFK")]);
}

#[test]
fn alerts_request_carries_location_only() {
    let api = Api::new(String::from("secret"));
    let request = api.make_alerts_request(&config(true, true, true));
    assert_eq!(request.url, "http://api.weatherapi.com/v1/alerts.json");
    assert_eq!(request.key, "secret");
    assert_eq!(pairs(&request), vec![pair("q", "metar:KJFK")]);
}

#[test]
fn only_categories_asked_for_are_called() {
    let api = Api::new(String::from("secret"));
    let planned = api.requests(&config(true, false, true));
    assert!(planned.current.is_some());
    assert!(planned.alerts.is_some());
    assert!(planned.forecast.is_none());
    let calls = [&planned.current, &planned.alerts, &planned.forecast]
        .iter()
        .filter(|r| r.is_some())
        .count();
    assert_eq!(calls, 2);
    assert_eq!(
        planned.current.unwrap().url,
        "http://api.weatherapi.com/v1/current.json"
    );
    assert_eq!(
        planned.alerts.unwrap().url,
        "http://api.weatherapi.com/v1/alerts.json"
    );
}

#[test]
fn category_not_asked_for_has_no_result() {
    let mut api = Api::new(String::from("secret"));
    let response = api.make_request(
        &config(true, false, true),
        Replies {
            current: Some(body(r#"{"current":{"temp_c":1}}"#, 10)),
            alerts: Some(body(r#"{"alerts":{"alert":[]}}"#, 11)),
            forecast: Some(body(r#"{"forecast":{}}"#, 12)),
        },
    );
    assert!(matches!(response.current, Some(Ok(_))));
    assert!(matches!(response.alerts, Some(Ok(_))));
    assert!(response.forecast.is_none());
    assert!(api.get_cached_forecast().is_none());
    assert_eq!(api.get_cached_current().unwrap().1, 10);
    assert_eq!(api.get_cached_alerts().unwrap().1, 11);
}

#[test]
fn category_asked_for_without_reply_has_failed() {
    let mut api = Api::new(String::from("secret"));
    let response = api.make_request(
        &config(true, true, true),
        Replies {
            current: None,
            alerts: None,
            forecast: Some(body(r#"{"forecast":{}}"#, 12)),
        },
    );
    match response.current {
        Some(Err(ApiResponseError::RequestError(details))) => assert_eq!(details, "no reply"),
        other => panic!("{:?}", other),
    }
    match response.alerts {
        Some(Err(ApiResponseError::RequestError(details))) => assert_eq!(details, "no reply"),
        other => panic!("{:?}", other),
    }
    assert!(matches!(response.forecast, Some(Ok(_))));
    assert!(api.get_cached_current().is_none());
    assert!(api.get_cached_alerts().is_none());
}

#[test]
fn result_for_exactly_the_categories_asked_for() {
    for bits in 0..8u8 {
        let (current, forecast, alerts) = (bits & 1 != 0, bits & 2 != 0, bits & 4 != 0);
        for handed in 0..8u8 {
            let mut api = Api::new(String::from("secret"));
            let reply = |on: bool, at: u128| {
                if on {
                    Some(body("{}", at))
                } else {
                    None
                }
            };
            let response = api.make_request(
                &config(current, forecast, alerts),
                Replies {
                    current: reply(handed & 1 != 0, 1),
                    alerts: reply(handed & 4 != 0, 2),
                    forecast: reply(handed & 2 != 0, 3),
                },
            );
            assert_eq!(response.current.is_some(), current);
            assert_eq!(response.forecast.is_some(), forecast);
            assert_eq!(response.alerts.is_some(), alerts);
            assert_eq!(api.get_cached_current().is_some(), current && handed & 1 != 0);
            assert_eq!(api.get_cached_forecast().is_some(), forecast && handed & 2 != 0);
            assert_eq!(api.get_cached_alerts().is_some(), alerts && handed & 4 != 0);
        }
    }
}

#[test]
fn fresh_document_is_cached_and_returned() {
    let mut api = Api::new(String::from("secret"));
    let result = api.record(Category::Current, body(r#"{"current":{"temp_c":21.5}}"#, 77));
    let doc = result.unwrap();
    assert_eq!(doc, json::parse(r#"{"current":{"temp_c":21.5}}"#).unwrap());
    let cached = api.get_cached_current().unwrap();
    assert_eq!(cached.0, doc);
    assert_eq!(cached.1, 77);
    assert!(api.get_cached_alerts().is_none());
    assert!(api.get_cached_forecast().is_none());
}

#[test]
fn null_error_member_is_no_error() {
    let mut api = Api::new(String::from("secret"));
    let result = api.record(Category::Alerts, body(r#"{"error":null,"alerts":{}}"#, 5));
    assert!(result.is_ok());
    assert_eq!(api.get_cached_alerts().unwrap().1, 5);
}

#[test]
fn provider_error_leaves_the_other_categories() {
    let mut api = Api::new(String::from("secret"));
    let refusal = r#"{"error":{"code":2006,"message":"API key provided is invalid"}}"#;
    let response = api.make_request(
        &config(true, true, true),
        Replies {
            current: Some(body(r#"{"current":{"temp_c":1}}"#, 10)),
            alerts: Some(body(refusal, 11)),
            forecast: Some(body(r#"{"forecast":{"forecastday":[]}}"#, 12)),
        },
    );
    assert_eq!(
        response.current.unwrap().unwrap(),
        json::parse(r#"{"current":{"temp_c":1}}"#).unwrap()
    );
    assert_eq!(
        response.forecast.unwrap().unwrap(),
        json::parse(r#"{"forecast":{"forecastday":[]}}"#).unwrap()
    );
    match response.alerts {
        Some(Err(ApiResponseError::ApiError(doc))) => {
            assert_eq!(doc, json::parse(refusal).unwrap())
        }
        other => panic!("{:?}", other),
    }
    assert_eq!(api.get_cached_current().unwrap().1, 10);
    assert_eq!(api.get_cached_forecast().unwrap().1, 12);
    assert!(api.get_cached_alerts().is_none());
}

#[test]
fn transport_failure_keeps_the_slot() {
    let mut api = Api::new(String::from("secret"));
    api.record(Category::Forecast, body(r#"{"forecast":1}"#, 100))
        .unwrap();
    let result = api.record(Category::Forecast, failure("connection refused", 200));
    match result {
        Err(ApiResponseError::RequestError(details)) => assert_eq!(details, "connection refused"),
        other => panic!("{:?}", other),
    }
    let cached = api.get_cached_forecast().unwrap();
    assert_eq!(cached.0, json::parse(r#"{"forecast":1}"#).unwrap());
    assert_eq!(cached.1, 100);
}

#[test]
fn body_that_is_no_document_keeps_the_slot() {
    let mut api = Api::new(String::from("secret"));
    api.record(Category::Current, body(r#"{"current":1}"#, 100))
        .unwrap();
    let result = api.record(Category::Current, body("<html>bad gateway</html>", 200));
    let words = format!("{}", json::parse("<html>bad gateway</html>").unwrap_err());
    match result {
        Err(ApiResponseError::RequestError(details)) => assert_eq!(details, words),
        other => panic!("{:?}", other),
    }
    assert_eq!(api.get_cached_current().unwrap().1, 100);
}

#[test]
fn failure_then_success_moves_the_time_forward() {
    let mut api = Api::new(String::from("secret"));
    api.record(Category::Current, body(r#"{"current":{"temp_c":1}}"#, 100))
        .unwrap();
    let refused = api.record(
        Category::Current,
        body(r#"{"error":{"code":1006}}"#, 200),
    );
    assert!(matches!(refused, Err(ApiResponseError::ApiError(_))));
    assert_eq!(api.get_cached_current().unwrap().1, 100);
    assert_eq!(
        api.get_cached_current().unwrap().0,
        json::parse(r#"{"current":{"temp_c":1}}"#).unwrap()
    );
    api.record(Category::Current, body(r#"{"current":{"temp_c":2}}"#, 300))
        .unwrap();
    let cached = api.get_cached_current().unwrap();
    assert!(cached.1 > 100);
    assert_eq!(cached.1, 300);
    assert_eq!(cached.0, json::parse(r#"{"current":{"temp_c":2}}"#).unwrap());
}

#[test]
fn default_configuration_asks_for_nothing() {
    let c = ApiRequestConfiguration::default();
    assert_eq!(c.q, Location::Auto);
    assert_eq!(c.days, None);
    assert_eq!(c.hour, None);
    assert_eq!(c.requests, RequestTypes::default());
    assert!(!c.requests.current && !c.requests.forecast && !c.requests.alerts);
    let api = Api::new(String::from("secret"));
    let planned = api.requests(&c);
    assert!(planned.current.is_none() && planned.alerts.is_none() && planned.forecast.is_none());
}

#[test]
fn empty_error_member_is_no_error() {
    for (at, answer) in [
        r#"{"error":""}"#,
        r#"{"error":{}}"#,
        r#"{"error":[]}"#,
        r#"{"error":null}"#,
        r#"{"current":1}"#,
    ]
    .iter()
    .enumerate()
    {
        let mut api = Api::new(String::from("secret"));
        let at = at as u128 + 2;
        let doc = api.record(Category::Current, body(answer, at)).unwrap();
        assert_eq!(doc, json::parse(answer).unwrap());
        let cached = api.get_cached_current().unwrap();
        assert_eq!(cached.0, doc);
        assert_eq!(cached.1, at);
    }
}

#[test]
fn error_member_that_is_not_empty_is_an_error() {
    for refusal in [
        r#"{"error":"x"}"#,
        r#"{"error":" "}"#,
        r#"{"error":{"code":1006}}"#,
        r#"{"error":[null]}"#,
        r#"{"error":1}"#,
        r#"{"error":true}"#,
    ] {
        let mut api = Api::new(String::from("secret"));
        api.record(Category::Current, body(r#"{"current":1}"#, 1))
            .unwrap();
        match api.record(Category::Current, body(refusal, 2)) {
            Err(ApiResponseError::ApiError(doc)) => assert_eq!(doc, json::parse(refusal).unwrap()),
            other => panic!("{:?}", other),
        }
        assert_eq!(api.get_cached_current().unwrap().1, 1);
    }
}

#[test]
fn number_or_truth_value_as_error_is_an_error_whatever_its_value() {
    for refusal in [r#"{"error":0}"#, r#"{"error":false}"#, r#"{"error":0.0}"#] {
        let mut api = Api::new(String::from("secret"));
        match api.record(Category::Alerts, body(refusal, 2)) {
            Err(ApiResponseError::ApiError(doc)) => assert_eq!(doc, json::parse(refusal).unwrap()),
            other => panic!("{:?}", other),
        }
        assert!(api.get_cached_alerts().is_none());
    }
}

#[test]
fn error_member_below_the_top_is_no_error() {
    let mut api = Api::new(String::from("secret"));
    let result = api.record(Category::Current, body(r#"{"current":{"error":"x"}}"#, 2));
    assert!(result.is_ok());
    assert_eq!(api.get_cached_current().unwrap().1, 2);
}

fn zeros(n: usize) -> String {
    "0".repeat(n)
}

#[test]
fn text_with_short_fractions_is_readable() {
    assert!(readable(""));
    assert!(readable(r#"{"a":1.23,"b":"4.56"}"#));
    assert!(readable(&format!("0.{}", zeros(32767))));
    assert!(readable(&format!("[0.{}, 0.{}]", zeros(32767), zeros(32767))));
    assert!(readable(&format!("0.{}x{}", zeros(20000), zeros(20000))));
}

#[test]
fn digits_that_follow_no_point_are_not_counted() {
    assert!(readable(&zeros(40000)));
    assert!(readable(&format!("{{\"a\":\"{}\"}}", "7".repeat(40000))));
    assert!(readable(&format!("[1{}]", zeros(40000))));
    assert!(readable(&format!("0.5e{}", zeros(40000))));
}

#[test]
fn text_with_a_long_fraction_is_not_readable() {
    assert!(!readable(&format!("0.{}", zeros(32768))));
    assert!(!readable(&format!("[1, 0.{}]", zeros(32769))));
    assert!(!readable(&format!("{{\"a\":\".{}\"}}", "7".repeat(40000))));
}

#[test]
fn body_with_a_long_fraction_is_refused_unread() {
    let mut api = Api::new(String::from("secret"));
    api.record(Category::Current, body(r#"{"current":1}"#, 100))
        .unwrap();
    let long = format!(r#"{{"current":0.{}}}"#, zeros(32769));
    match api.record(Category::Current, body(&long, 200)) {
        Err(ApiResponseError::RequestError(details)) => {
            assert_eq!(details, "the answer holds a fraction of too many digits")
        }
        other => panic!("{:?}", other),
    }
    assert_eq!(api.get_cached_current().unwrap().1, 100);
}

#[test]
fn body_with_the_longest_fraction_is_read() {
    let mut api = Api::new(String::from("secret"));
    let long = format!(r#"{{"current":0.{}}}"#, zeros(32767));
    let doc = api.record(Category::Current, body(&long, 200)).unwrap();
    assert_eq!(doc, json::parse(&long).unwrap());
    assert_eq!(api.get_cached_current().unwrap().1, 200);
}

#[test]
fn body_with_long_digits_outside_a_fraction_is_read() {
    let mut api = Api::new(String::from("secret"));
    let long = format!(r#"{{"id":"{}","n":1{}}}"#, "7".repeat(40000), zeros(30000));
    let doc = api.record(Category::Forecast, body(&long, 5)).unwrap();
    assert_eq!(doc, json::parse(&long).unwrap());
    assert_eq!(api.get_cached_forecast().unwrap().1, 5);
}

#[test]
fn body_with_a_number_beyond_the_parser_fails_with_its_words() {
    let mut api = Api::new(String::from("secret"));
    let long = format!(r#"{{"n":1{}}}"#, zeros(40000));
    let words = format!("{}", json::parse(&long).unwrap_err());
    match api.record(Category::Forecast, body(&long, 5)) {
        Err(ApiResponseError::RequestError(details)) => assert_eq!(details, words),
        other => panic!("{:?}", other),
    }
    assert!(api.get_cached_forecast().is_none());
}

#[test]
fn reading_is_settled_by_what_was_read() {
    let mut slot = None;
    let fresh = settle_reading(&mut slot, json::parse(r#"{"alerts":{}}"#), 7).unwrap();
    assert_eq!(fresh, json::parse(r#"{"alerts":{}}"#).unwrap());
    assert_eq!(slot, Some((json::parse(r#"{"alerts":{}}"#).unwrap(), 7)));

    let refused = settle_reading(&mut slot, json::parse(r#"{"error":{"code":1}}"#), 8);
    match refused {
        Err(ApiResponseError::ApiError(doc)) => {
            assert_eq!(doc, json::parse(r#"{"error":{"code":1}}"#).unwrap())
        }
        other => panic!("{:?}", other),
    }
    assert_eq!(slot, Some((json::parse(r#"{"alerts":{}}"#).unwrap(), 7)));

    let unread = settle_reading(&mut slot, json::parse("{"), 9);
    match unread {
        Err(ApiResponseError::RequestError(details)) => {
            assert_eq!(details, "Unexpected end of JSON")
        }
        other => panic!("{:?}", other),
    }
    assert_eq!(slot, Some((json::parse(r#"{"alerts":{}}"#).unwrap(), 7)));

    let newer = settle_reading(&mut slot, json::parse(r#"{"alerts":1}"#), 10).unwrap();
    assert_eq!(newer, json::parse(r#"{"alerts":1}"#).unwrap());
    assert_eq!(slot, Some((json::parse(r#"{"alerts":1}"#).unwrap(), 10)));
}

#[test]
fn refetch_after_failure_replaces_document_and_time() {
    let mut api = Api::new(String::from("secret"));
    let all = config(true, true, true);
    let only_current = |reply: Reply| Replies {
        current: Some(reply),
        alerts: None,
        forecast: None,
    };
    let first = api.make_request(&all, only_current(body(r#"{"current":{"temp_c":1}}"#, 100)));
    assert!(matches!(first.current, Some(Ok(_))));
    let failed = api.make_request(&all, only_current(failure("timed out", 200)));
    assert!(matches!(
        failed.current,
        Some(Err(ApiResponseError::RequestError(_)))
    ));
    assert_eq!(api.get_cached_current().unwrap().1, 100);
    let again = api.make_request(&all, only_current(body(r#"{"current":{"temp_c":2}}"#, 300)));
    let fresh = json::parse(r#"{"current":{"temp_c":2}}"#).unwrap();
    assert_eq!(again.current.unwrap().unwrap(), fresh);
    let cached = api.get_cached_current().unwrap();
    assert_eq!(cached.0, fresh);
    assert_ne!(cached.0, json::parse(r#"{"current":{"temp_c":1}}"#).unwrap());
    assert!(cached.1 > 100);
    assert_eq!(cached.1, 300);
}
