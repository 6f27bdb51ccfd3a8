use weathd::report::{current_weather_report, forecast_report};

fn day(n: u32) -> String {
    format!(
        r#"{{"day":{{"avgtemp_f":{n}1.5,"avgtemp_c":{n}2,"maxtemp_f":{n}3,"maxtemp_c":{n}4,"mintemp_f":{n}5,"mintemp_c":{n}6,"maxwind_mph":{n}7,"maxwind_kph":{n}8,"avghumidity":{n}9,"daily_chance_of_rain":80,"daily_chance_of_snow":0,"totalprecip_in":0.1,"totalprecip_mm":2.5,"condition":{{"text":"Rain {n}"}}}}}}"#
    )
}

fn day_text(number: u32, n: u32) -> String {
    format!(
        "Weather in {number} day(s)\n\
Tempurature Average: {n}1.5°F, {n}2°C\n\
Tempurature High: {n}3°F, {n}4°C\n\
Tempurature Low: {n}5°F, {n}6°C\n\
Max Wind Speed: {n}7 mph, {n}8 kph\n\
Average Humidity: {n}9%\n\
Chance of Rain: 80%\n\
Chance of Snow: 0%\n\
Total Precipitation: 0.1 in, 2.5 mm\n\
Condition: Rain {n}\n\n"
    )
}

#[test]
fn forecast_report_of_two_days() {
    let doc = json::parse(&format!(
        r#"{{"forecast":{{"forecastday":[{},{},{}]}}}}"#,
        day(1),
        day(2),
        day(3)
    ))
    .unwrap();
    let expected = format!(
        "============Forecast============\n{}{}",
        day_text(1, 1),
        day_text(2, 2)
    );
    assert_eq!(forecast_report(&doc, 2), expected);
}

#[test]
fn forecast_report_of_no_days_is_the_banner() {
    let doc = json::parse(r#"{"forecast":{"forecastday":[]}}"#).unwrap();
    assert_eq!(forecast_report(&doc, 0), "============Forecast============\n");
}

#[test]
fn forecast_report_beyond_the_document() {
    let doc = json::parse(r#"{"forecast":{"forecastday":[]}}"#).unwrap();
    let report = forecast_report(&doc, 1);
    assert!(report.starts_with(
        "============Forecast============\nWeather in 1 day(s)\nTempurature Average: null°F, null°C\n"
    ));
    assert!(report.ends_with("Condition: null\n\n"));
}

#[test]
fn current_weather_report_has_banner_and_empty_line() {
    let doc = json::parse(r#"{"current":{"temp_f":1,"condition":{"text":"Sunny"}}}"#).unwrap();
    let report = current_weather_report(&doc);
    assert!(report.starts_with(
        "========Current Weather=========\nCurrent Tempurature (Imperial): 1°F, Feels like: null°F\n"
    ));
    assert!(report.ends_with("Condition: Sunny\n\n"));
    assert_eq!(report.lines().count(), 12);
    assert_eq!(format!("{:=^32}", "Current Weather"), report.lines().next().unwrap());
    assert_eq!(
        format!("{:=^32}\n", "Forecast"),
        forecast_report(&doc, 0)
    );
}
