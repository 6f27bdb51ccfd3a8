//! What the daemon shows of the cache: one notification for the current
//! weather, and one for each alert.

use crate::api::{Api, Category};
use crate::document::{
    document_element, document_is_array, document_is_null, document_len, document_member,
    document_text, element, is_array, is_null, length, member, text,
};
use json::JsonValue;
use vstd::prelude::*;
use vstd::string::StringExecFns;

verus! {

/// A notification: a headline and the text below it.
#[derive(Clone, Debug, PartialEq, Eq)]
pub struct Notification {
    pub summary: String,
    pub body: String,
}

/// The list of alerts in a document is no list.
#[derive(Clone, Copy, Debug, PartialEq, Eq, Structural)]
pub struct DataContractViolation;

/// A reading of the current weather, written out.
pub open spec fn reading(doc: JsonValue, name: Seq<char>) -> Seq<char> {
    document_text(document_member(document_member(doc, "current"@), name))
}

/// The condition of the current weather in words.
pub open spec fn condition(doc: JsonValue) -> Seq<char> {
    document_text(
        document_member(
            document_member(document_member(doc, "current"@), "condition"@),
            "text"@,
        ),
    )
}

/// The text of the notification for the current weather.
pub open spec fn current_weather_text(doc: JsonValue) -> Seq<char> {
    "Current Tempurature (Imperial): "@ + reading(doc, "temp_f"@) + "°F, Feels like: "@ + reading(
        doc,
        "feelslike_f"@,
    ) + "°F\n"@ + "Current Tempurature (Metric): "@ + reading(doc, "temp_c"@)
        + "°C, Feels like: "@ + reading(doc, "feelslike_c"@) + "°C\n"@
        + "Wind Speed (Imperial): "@ + reading(doc, "wind_mph"@) + " mph, from "@ + reading(
        doc,
        "wind_dir"@,
    ) + "\n"@ + "Wind Speed (Metric): "@ + reading(doc, "wind_kph"@) + " kph, from "@ + reading(
        doc,
        "wind_dir"@,
    ) + "\n"@ + "Wind Chill (Imperial): "@ + reading(doc, "windchill_f"@) + "°F\n"@
        + "Wind Chill (Metric): "@ + reading(doc, "windchill_c"@) + "°C\n"@ + "Humidity: "@
        + reading(doc, "humidity"@) + "%\n"@ + "Pressure (Imperial): "@ + reading(
        doc,
        "pressure_in"@,
    ) + "in\n"@ + "Pressure (Metric): "@ + reading(doc, "pressure_mb"@) + "mb\n"@ + "Condition: "@
        + condition(doc) + "\n"@
}

fn append_reading(out: &mut String, doc: &JsonValue, name: &str)
    ensures
        final(out)@ == old(out)@ + reading(*doc, name@),
{
    let value = text(member(member(doc, "current"), name));
    out.append(value.as_str());
}

/// The notification for the current weather.
pub fn current_weather_notification(doc: &JsonValue) -> (r: Notification)
    ensures
        r.summary@ == "Current Weather"@,
        r.body@ == current_weather_text(*doc),
{
    let mut body = String::from_str("Current Tempurature (Imperial): ");
    append_reading(&mut body, doc, "temp_f");
    body.append("°F, Feels like: ");
    append_reading(&mut body, doc, "feelslike_f");
    body.append("°F\n");
    body.append("Current Tempurature (Metric): ");
    append_reading(&mut body, doc, "temp_c");
    body.append("°C, Feels like: ");
    append_reading(&mut body, doc, "feelslike_c");
    body.append("°C\n");
    body.append("Wind Speed (Imperial): ");
    append_reading(&mut body, doc, "wind_mph");
    body.append(" mph, from ");
    append_reading(&mut body, doc, "wind_dir");
    body.append("\n");
    body.append("Wind Speed (Metric): ");
    append_reading(&mut body, doc, "wind_kph");
    body.append(" kph, from ");
    append_reading(&mut body, doc, "wind_dir");
    body.append("\n");
    body.append("Wind Chill (Imperial): ");
    append_reading(&mut body, doc, "windchill_f");
    body.append("°F\n");
    body.append("Wind Chill (Metric): ");
    append_reading(&mut body, doc, "windchill_c");
    body.append("°C\n");
    body.append("Humidity: ");
    append_reading(&mut body, doc, "humidity");
    body.append("%\n");
    body.append("Pressure (Imperial): ");
    append_reading(&mut body, doc, "pressure_in");
    body.append("in\n");
    body.append("Pressure (Metric): ");
    append_reading(&mut body, doc, "pressure_mb");
    body.append("mb\n");
    body.append("Condition: ");
    let words = text(member(member(member(doc, "current"), "condition"), "text"));
    body.append(words.as_str());
    body.append("\n");
    Notification { summary: String::from_str("Current Weather"), body }
}

/// The list of alerts of a document.
pub open spec fn alert_list(doc: JsonValue) -> JsonValue {
    document_member(document_member(doc, "alerts"@), "alert"@)
}

/// Whether the first `n` elements of a list are the alerts to show: those
/// before the first element that is missing or `null`.
pub open spec fn shows_alerts(list: JsonValue, n: nat) -> bool {
    &&& n <= document_len(list)
    &&& forall|i: nat| i < n ==> !document_is_null(#[trigger] document_element(list, i as usize))
    &&& (n == document_len(list) || document_is_null(document_element(list, n as usize)))
}

/// Whether a notification is that of an alert: its headline above, its
/// instruction below.
pub open spec fn is_alert_notification(alert: JsonValue, shown: Notification) -> bool {
    &&& shown.summary@ == document_text(document_member(alert, "headline"@))
    &&& shown.body@ == document_text(document_member(alert, "instruction"@))
}

/// The notifications for the alerts of a document, one for each alert, in
/// the order of the list; an error where the document has no list of alerts.
pub fn alert_notifications(doc: &JsonValue) -> (r: Result<
    Vec<Notification>,
    DataContractViolation,
>)
    ensures
        r is Err == !document_is_array(alert_list(*doc)),
        r is Ok ==> shows_alerts(alert_list(*doc), r->Ok_0@.len()),
        r is Ok ==> forall|i: int|
            0 <= i < r->Ok_0@.len() ==> is_alert_notification(
                #[trigger] document_element(alert_list(*doc), i as usize),
                r->Ok_0@[i],
            ),
{
    let list = member(member(doc, "alerts"), "alert");
    if !is_array(list) {
        return Err(DataContractViolation);
    }
    let n: usize = length(list);
    let mut shown: Vec<Notification> = Vec::new();
    let mut i: usize = 0;
    while i < n
        invariant_except_break
            i <= n,
            shown@.len() == i,
        invariant
            *list == alert_list(*doc),
            n == document_len(*list),
            shown@.len() <= n,
            forall|j: nat|
                j < shown@.len() ==> !document_is_null(
                    #[trigger] document_element(*list, j as usize),
                ),
            forall|j: int|
                0 <= j < shown@.len() ==> is_alert_notification(
                    #[trigger] document_element(*list, j as usize),
                    shown@[j],
                ),
        ensures
            shows_alerts(*list, shown@.len()),
        decreases n - i,
    {
        let alert = element(list, i);
        if is_null(alert) {
            break ;
        }
        let summary = text(member(alert, "headline"));
        let body = text(member(alert, "instruction"));
        shown.push(Notification { summary, body });
        i += 1;
    }
    Ok(shown)
}

/// What is to be shown when the notifications are due.
#[derive(Debug)]
pub struct Bulletin {
    /// The current weather, where it is cached.
    pub current: Option<Notification>,
    /// The alerts, where they are cached.
    pub alerts: Option<Result<Vec<Notification>, DataContractViolation>>,
}

/// Reads the cache for the notifications: the current weather and the
/// alerts, not the forecast. A category that has no document yet is left
/// out.
pub fn due_notifications(api: &Api) -> (r: Bulletin)
    ensures
        r.current is Some == api.cached(Category::Current) is Some,
        r.current is Some ==> {
            &&& r.current->Some_0.summary@ == "Current Weather"@
            &&& r.current->Some_0.body@ == current_weather_text(
                api.cached(Category::Current)->Some_0.0,
            )
        },
        r.alerts is Some == api.cached(Category::Alerts) is Some,
        r.alerts is Some ==> {
            let list = alert_list(api.cached(Category::Alerts)->Some_0.0);
            let shown = r.alerts->Some_0;
            &&& shown is Err == !document_is_array(list)
            &&& shown is Ok ==> shows_alerts(list, shown->Ok_0@.len())
            &&& shown is Ok ==> forall|i: int|
                0 <= i < shown->Ok_0@.len() ==> is_alert_notification(
                    #[trigger] document_element(list, i as usize),
                    shown->Ok_0@[i],
                )
        },
{
    let current = match api.get_cached_current() {
        Some(entry) => Some(current_weather_notification(&entry.0)),
        None => None,
    };
    let alerts = match api.get_cached_alerts() {
        Some(entry) => Some(alert_notifications(&entry.0)),
        None => None,
    };
    Bulletin { current, alerts }
}

} // verus!
