//! What the program prints of the cache when it is run once: the current
//! weather and the forecast, each under its banner.

use crate::document::{document_element, document_member, document_text, element, member, text};
use crate::notification::{current_weather_notification, current_weather_text};
use crate::text::{decimal, decimal_text};
use json::JsonValue;
use vstd::prelude::*;
use vstd::string::StringExecFns;

verus! {

/// The report of the current weather: the banner, the readings, an empty
/// line.
pub open spec fn current_weather_report_text(doc: JsonValue) -> Seq<char> {
    "========Current Weather=========\n"@ + current_weather_text(doc) + "\n"@
}

/// Writes the report of the current weather.
pub fn current_weather_report(doc: &JsonValue) -> (r: String)
    ensures
        r@ == current_weather_report_text(*doc),
{
    let mut r = String::from_str("========Current Weather=========\n");
    let readings = current_weather_notification(doc);
    r.append(readings.body.as_str());
    r.append("\n");
    r
}

/// The forecast of one day in a document; the days count from 0.
pub open spec fn forecast_day(doc: JsonValue, day: usize) -> JsonValue {
    document_member(
        document_element(
            document_member(document_member(doc, "forecast"@), "forecastday"@),
            day,
        ),
        "day"@,
    )
}

/// A reading of a day's forecast, written out.
pub open spec fn day_reading(doc: JsonValue, day: usize, name: Seq<char>) -> Seq<char> {
    document_text(document_member(forecast_day(doc, day), name))
}

/// The condition of a day's forecast in words.
pub open spec fn day_condition(doc: JsonValue, day: usize) -> Seq<char> {
    document_text(document_member(document_member(forecast_day(doc, day), "condition"@), "text"@))
}

/// The report of one day's forecast, which ends with an empty line.
pub open spec fn forecast_day_text(doc: JsonValue, day: usize) -> Seq<char> {
    "Weather in "@ + decimal((day + 1) as nat) + " day(s)\n"@ + "Tempurature Average: "@
        + day_reading(doc, day, "avgtemp_f"@) + "°F, "@ + day_reading(doc, day, "avgtemp_c"@)
        + "°C\n"@ + "Tempurature High: "@ + day_reading(doc, day, "maxtemp_f"@) + "°F, "@
        + day_reading(doc, day, "maxtemp_c"@) + "°C\n"@ + "Tempurature Low: "@ + day_reading(
        doc,
        day,
        "mintemp_f"@,
    ) + "°F, "@ + day_reading(doc, day, "mintemp_c"@) + "°C\n"@ + "Max Wind Speed: "@
        + day_reading(doc, day, "maxwind_mph"@) + " mph, "@ + day_reading(
        doc,
        day,
        "maxwind_kph"@,
    ) + " kph\n"@ + "Average Humidity: "@ + day_reading(doc, day, "avghumidity"@) + "%\n"@
        + "Chance of Rain: "@ + day_reading(doc, day, "daily_chance_of_rain"@) + "%\n"@
        + "Chance of Snow: "@ + day_reading(doc, day, "daily_chance_of_snow"@) + "%\n"@
        + "Total Precipitation: "@ + day_reading(doc, day, "totalprecip_in"@) + " in, "@
        + day_reading(doc, day, "totalprecip_mm"@) + " mm\n"@ + "Condition: "@ + day_condition(
        doc,
        day,
    ) + "\n\n"@
}

/// The reports of the first `days` days, one after the other.
pub open spec fn forecast_days_text(doc: JsonValue, days: nat) -> Seq<char>
    decreases days,
{
    if days == 0 || days > usize::MAX {
        Seq::empty()
    } else {
        forecast_days_text(doc, (days - 1) as nat) + forecast_day_text(doc, (days - 1) as usize)
    }
}

/// The report of the forecast: the banner, then the days.
pub open spec fn forecast_report_text(doc: JsonValue, days: usize) -> Seq<char> {
    "============Forecast============\n"@ + forecast_days_text(doc, days as nat)
}

fn append_day_reading(out: &mut String, day: &JsonValue, name: &str)
    ensures
        final(out)@ == old(out)@ + document_text(document_member(*day, name@)),
{
    let value = text(member(day, name));
    out.append(value.as_str());
}

fn forecast_day_report(doc: &JsonValue, i: usize) -> (r: String)
    requires
        i < usize::MAX,
    ensures
        r@ == forecast_day_text(*doc, i),
{
    let day = member(element(member(member(doc, "forecast"), "forecastday"), i), "day");
    let number = decimal_text((i + 1) as u64);
    let mut r = String::from_str("Weather in ");
    r.append(number.as_str());
    r.append(" day(s)\n");
    r.append("Tempurature Average: ");
    append_day_reading(&mut r, day, "avgtemp_f");
    r.append("°F, ");
    append_day_reading(&mut r, day, "avgtemp_c");
    r.append("°C\n");
    r.append("Tempurature High: ");
    append_day_reading(&mut r, day, "maxtemp_f");
    r.append("°F, ");
    append_day_reading(&mut r, day, "maxtemp_c");
    r.append("°C\n");
    r.append("Tempurature Low: ");
    append_day_reading(&mut r, day, "mintemp_f");
    r.append("°F, ");
    append_day_reading(&mut r, day, "mintemp_c");
    r.append("°C\n");
    r.append("Max Wind Speed: ");
    append_day_reading(&mut r, day, "maxwind_mph");
    r.append(" mph, ");
    append_day_reading(&mut r, day, "maxwind_kph");
    r.append(" kph\n");
    r.append("Average Humidity: ");
    append_day_reading(&mut r, day, "avghumidity");
    r.append("%\n");
    r.append("Chance of Rain: ");
    append_day_reading(&mut r, day, "daily_chance_of_rain");
    r.append("%\n");
    r.append("Chance of Snow: ");
    append_day_reading(&mut r, day, "daily_chance_of_snow");
    r.append("%\n");
    r.append("Total Precipitation: ");
    append_day_reading(&mut r, day, "totalprecip_in");
    r.append(" in, ");
    append_day_reading(&mut r, day, "totalprecip_mm");
    r.append(" mm\n");
    r.append("Condition: ");
    let words = text(member(member(day, "condition"), "text"));
    r.append(words.as_str());
    r.append("\n\n");
    r
}

/// Writes the report of the forecast for the first `days` days.
pub fn forecast_report(doc: &JsonValue, days: usize) -> (r: String)
    ensures
        r@ == forecast_report_text(*doc, days),
{
    let mut r = String::from_str("============Forecast============\n");
    let mut i: usize = 0;
    while i < days
        invariant
            i <= days,
            r@ == "============Forecast============\n"@ + forecast_days_text(*doc, i as nat),
        decreases days - i,
    {
        let day = forecast_day_report(doc, i);
        r.append(day.as_str());
        assert(r@ =~= "============Forecast============\n"@ + forecast_days_text(
            *doc,
            (i + 1) as nat,
        ));
        i += 1;
    }
    r
}

} // verus!
