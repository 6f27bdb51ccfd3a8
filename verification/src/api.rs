//! The weather client: what it asks the provider, what a reply means, and the
//! latest good document of each category.

use crate::document::{
    document_is_boolean, document_is_empty, document_is_number, document_member, duplicate,
    is_boolean, is_empty, is_number, is_readable, member, parse_error_text, parse_error_words,
    parse_json, parsed_document, readable,
};
pub use crate::location::Location;
use crate::text::{decimal, decimal_text};
use json::JsonValue;
use vstd::prelude::*;
use vstd::string::StringExecFns;

verus! {

/// Which categories to fetch.
#[derive(Clone, Copy, Debug, PartialEq, Eq, Structural)]
pub struct RequestTypes {
    pub current: bool,
    pub forecast: bool,
    pub alerts: bool,
}

impl Default for RequestTypes {
    fn default() -> (r: RequestTypes)
        ensures
            r == (RequestTypes { current: false, forecast: false, alerts: false }),
    {
        RequestTypes { current: false, forecast: false, alerts: false }
    }
}

/// What to ask the provider in one polling cycle.
#[derive(Clone, Debug)]
pub struct ApiRequestConfiguration {
    pub q: Location,
    pub days: Option<usize>,
    pub hour: Option<bool>,
    pub requests: RequestTypes,
}

impl Default for ApiRequestConfiguration {
    fn default() -> (r: ApiRequestConfiguration)
        ensures
            r.q == Location::Auto,
            r.days is None,
            r.hour is None,
            r.requests == (RequestTypes { current: false, forecast: false, alerts: false }),
    {
        ApiRequestConfiguration {
            q: Location::Auto,
            days: None,
            hour: None,
            requests: RequestTypes { current: false, forecast: false, alerts: false },
        }
    }
}

#[derive(Clone, Copy, Debug, PartialEq, Eq, Structural)]
pub enum ApiError {
    InvalidApiKey,
}

/// The three kinds of weather data.
#[derive(Clone, Copy, Debug, PartialEq, Eq, Structural)]
pub enum Category {
    Current,
    Alerts,
    Forecast,
}

/// One parameter of a query.
#[derive(Clone, Debug, PartialEq, Eq)]
pub struct QueryParameter {
    pub name: String,
    pub value: String,
}

/// One call of the provider: a POST to `url`, with the key in the header
/// `key` and the parameters in the query.
#[derive(Clone, Debug, PartialEq, Eq)]
pub struct Request {
    pub url: String,
    pub key: String,
    pub query: Vec<QueryParameter>,
}

impl Request {
    /// The query as pairs of name and value.
    pub open spec fn parameters(self) -> Seq<(Seq<char>, Seq<char>)> {
        self.query@.map_values(|p: QueryParameter| (p.name@, p.value@))
    }
}

/// The address of a category's endpoint.
pub open spec fn endpoint(category: Category) -> Seq<char> {
    match category {
        Category::Current => "http://api.weatherapi.com/v1/current.json"@,
        Category::Alerts => "http://api.weatherapi.com/v1/alerts.json"@,
        Category::Forecast => "http://api.weatherapi.com/v1/forecast.json"@,
    }
}

/// The name under which a category takes the hourly flag, if it takes it.
pub open spec fn hourly_parameter(category: Category) -> Option<Seq<char>> {
    match category {
        Category::Current => Some("hour"@),
        Category::Forecast => Some("hourly"@),
        Category::Alerts => None,
    }
}

/// The query of a category: the location; for current weather and forecast
/// also the days and the hourly flag, each where it is set.
pub open spec fn query_of(category: Category, config: ApiRequestConfiguration) -> Seq<
    (Seq<char>, Seq<char>),
> {
    let location = seq![("q"@, config.q.token())];
    let days = if category != Category::Alerts && config.days is Some {
        seq![("days"@, decimal(config.days->Some_0 as nat))]
    } else {
        seq![]
    };
    let hour = if hourly_parameter(category) is Some && config.hour is Some {
        seq![(hourly_parameter(category)->Some_0, if config.hour->Some_0 {
            "true"@
        } else {
            "false"@
        })]
    } else {
        seq![]
    };
    location + days + hour
}

/// What came back from one call: the body of the answer, or the details of
/// the failure to get one; and the time at which it came, in nanoseconds of
/// a clock that never runs backwards.
#[derive(Debug, PartialEq, Eq)]
pub struct Reply {
    pub outcome: Result<String, String>,
    pub received_at: u128,
}

/// The calls of one polling cycle, one for each category that is asked for.
#[derive(Debug, PartialEq, Eq)]
pub struct Requests {
    pub current: Option<Request>,
    pub alerts: Option<Request>,
    pub forecast: Option<Request>,
}

/// What came back from the calls of one polling cycle.
#[derive(Debug, PartialEq, Eq)]
pub struct Replies {
    pub current: Option<Reply>,
    pub alerts: Option<Reply>,
    pub forecast: Option<Reply>,
}

/// Why a category has no fresh document.
#[derive(Debug)]
pub enum ApiResponseError {
    /// No answer came, or none that is a document; with the details.
    RequestError(String),
    /// The provider answered with a document that reports an error.
    ApiError(JsonValue),
}

/// The outcome of one polling cycle: for each category that was fetched, its
/// fresh document or the reason why there is none.
#[derive(Debug)]
pub struct ApiResponse {
    pub current: Option<Result<JsonValue, ApiResponseError>>,
    pub alerts: Option<Result<JsonValue, ApiResponseError>>,
    pub forecast: Option<Result<JsonValue, ApiResponseError>>,
}

/// Whether a document reports an error of the provider: its member `error`
/// is not empty. A member that is missing or `null`, a text without
/// characters, a list without elements and an object without members are
/// empty. A number and a truth value are never empty here, whatever their
/// value: `0` and `false` report an error.
pub open spec fn reports_error(doc: JsonValue) -> bool {
    let error = document_member(doc, "error"@);
    !document_is_empty(error) || document_is_number(error) || document_is_boolean(error)
}

/// The document that a reading brings to the cache: the text was a
/// document, and the document reports no error.
pub open spec fn fresh_reading(parsed: Result<JsonValue, json::Error>) -> Option<JsonValue> {
    match parsed {
        Ok(doc) => if reports_error(doc) {
            None
        } else {
            Some(doc)
        },
        Err(_) => None,
    }
}

/// A cache slot after a reading that came at the time `received_at`: a
/// fresh document replaces what was there, anything else leaves the slot
/// as it was.
pub open spec fn slot_with(
    slot: Option<(JsonValue, u128)>,
    parsed: Result<JsonValue, json::Error>,
    received_at: u128,
) -> Option<(JsonValue, u128)> {
    match fresh_reading(parsed) {
        Some(doc) => Some((doc, received_at)),
        None => slot,
    }
}

/// Whether `result` is what a reading amounts to: for a text that is no
/// document, a failure with the parser's words; the document that reports
/// an error, as an error; a fresh document, as it is.
pub open spec fn reading_amounts_to(
    parsed: Result<JsonValue, json::Error>,
    result: Result<JsonValue, ApiResponseError>,
) -> bool {
    match parsed {
        Err(error) => {
            &&& result is Err
            &&& result->Err_0 is RequestError
            &&& result->Err_0->RequestError_0@ == parse_error_words(error)
        },
        Ok(doc) => if reports_error(doc) {
            result == Err::<JsonValue, ApiResponseError>(ApiResponseError::ApiError(doc))
        } else {
            result == Ok::<JsonValue, ApiResponseError>(doc)
        },
    }
}

/// The details of the failure for a body that is not safe to read.
pub open spec fn unreadable_details() -> Seq<char> {
    "the answer holds a fraction of too many digits"@
}

/// The document that a reply brings to the cache: the body is safe to read
/// and is a document, and the document reports no error.
pub open spec fn fresh_document(reply: Reply) -> Option<JsonValue> {
    match reply.outcome {
        Ok(body) => if is_readable(body@) {
            fresh_reading(parsed_document(body@))
        } else {
            None
        },
        Err(_) => None,
    }
}

/// A cache slot after a reply: a fresh document replaces what was there, with
/// the time of the reply; any other reply leaves the slot as it was.
pub open spec fn slot_after(slot: Option<(JsonValue, u128)>, reply: Reply) -> Option<
    (JsonValue, u128),
> {
    match fresh_document(reply) {
        Some(doc) => Some((doc, reply.received_at)),
        None => slot,
    }
}

/// Whether `result` is what a reply amounts to: the failure with its
/// details; for a body that is not safe to read, a failure that says so;
/// else what the reading of the body amounts to.
pub open spec fn amounts_to(reply: Reply, result: Result<JsonValue, ApiResponseError>) -> bool {
    match reply.outcome {
        Err(details) => result == Err::<JsonValue, ApiResponseError>(
            ApiResponseError::RequestError(details),
        ),
        Ok(body) => if is_readable(body@) {
            reading_amounts_to(parsed_document(body@), result)
        } else {
            &&& result is Err
            &&& result->Err_0 is RequestError
            &&& result->Err_0->RequestError_0@ == unreadable_details()
        },
    }
}

/// The details of the failure for a category that is asked for and has no
/// reply.
pub open spec fn missing_reply_details() -> Seq<char> {
    "no reply"@
}

/// What one category comes to in a polling cycle. A category that is not
/// asked for keeps its slot and has no result, whatever reply is at hand.
/// One that is asked for has a result: what its reply amounts to, or,
/// where no reply is at hand, a failure that says so.
pub open spec fn category_outcome(
    asked: bool,
    reply: Option<Reply>,
    before: Option<(JsonValue, u128)>,
    after: Option<(JsonValue, u128)>,
    result: Option<Result<JsonValue, ApiResponseError>>,
) -> bool {
    if !asked {
        &&& after == before
        &&& result is None
    } else if reply is Some {
        &&& after == slot_after(before, reply->Some_0)
        &&& result is Some
        &&& amounts_to(reply->Some_0, result->Some_0)
    } else {
        &&& after == before
        &&& result is Some
        &&& result->Some_0 is Err
        &&& result->Some_0->Err_0 is RequestError
        &&& result->Some_0->Err_0->RequestError_0@ == missing_reply_details()
    }
}

/// Takes the reading of a body, which came at the time `received_at`, into
/// a cache slot, and says what it amounts to.
pub fn settle_reading(
    slot: &mut Option<(JsonValue, u128)>,
    parsed: Result<JsonValue, json::Error>,
    received_at: u128,
) -> (result: Result<JsonValue, ApiResponseError>)
    ensures
        *final(slot) == slot_with(*old(slot), parsed, received_at),
        reading_amounts_to(parsed, result),
{
    match parsed {
        Err(error) => Err(ApiResponseError::RequestError(parse_error_text(&error))),
        Ok(doc) => {
            let error = member(&doc, "error");
            if !is_empty(error) || is_number(error) || is_boolean(error) {
                Err(ApiResponseError::ApiError(doc))
            } else {
                let copy = duplicate(&doc);
                *slot = Some((doc, received_at));
                Ok(copy)
            }
        },
    }
}

/// Takes a reply into a cache slot and says what it amounts to.
fn settle(slot: &mut Option<(JsonValue, u128)>, reply: Reply) -> (result: Result<
    JsonValue,
    ApiResponseError,
>)
    ensures
        *final(slot) == slot_after(*old(slot), reply),
        amounts_to(reply, result),
{
    let Reply { outcome, received_at } = reply;
    match outcome {
        Err(details) => Err(ApiResponseError::RequestError(details)),
        Ok(body) => if readable(body.as_str()) {
            settle_reading(slot, parse_json(body.as_str()), received_at)
        } else {
            Err(
                ApiResponseError::RequestError(
                    String::from_str("the answer holds a fraction of too many digits"),
                ),
            )
        },
    }
}

/// Takes what is at hand for one category in a polling cycle.
fn fetched(slot: &mut Option<(JsonValue, u128)>, asked: bool, reply: Option<Reply>) -> (result:
    Option<Result<JsonValue, ApiResponseError>>)
    ensures
        category_outcome(asked, reply, *old(slot), *final(slot), result),
{
    if !asked {
        None
    } else {
        match reply {
            Some(reply) => Some(settle(slot, reply)),
            None => Some(Err(ApiResponseError::RequestError(String::from_str("no reply")))),
        }
    }
}

/// The client: the key of the provider's interface and, for each category,
/// the latest fresh document with the time at which it came.
pub struct Api {
    key: String,
    cache_current: Option<(JsonValue, u128)>,
    cache_alerts: Option<(JsonValue, u128)>,
    cache_forecast: Option<(JsonValue, u128)>,
}

impl Api {
    pub closed spec fn key(self) -> Seq<char> {
        self.key@
    }

    /// The slot of a category: its document and the time at which it came.
    pub closed spec fn cached(self, category: Category) -> Option<(JsonValue, u128)> {
        match category {
            Category::Current => self.cache_current,
            Category::Alerts => self.cache_alerts,
            Category::Forecast => self.cache_forecast,
        }
    }

    /// A client with nothing cached.
    pub fn new(key: String) -> (api: Api)
        ensures
            api.key() == key@,
            forall|category: Category| api.cached(category) is None,
    {
        Api { key, cache_current: None, cache_alerts: None, cache_forecast: None }
    }

    pub fn get_cached_alerts(&self) -> (r: Option<&(JsonValue, u128)>)
        ensures
            r is Some == self.cached(Category::Alerts) is Some,
            r is Some ==> *r->Some_0 == self.cached(Category::Alerts)->Some_0,
    {
        self.cache_alerts.as_ref()
    }

    pub fn get_cached_current(&self) -> (r: Option<&(JsonValue, u128)>)
        ensures
            r is Some == self.cached(Category::Current) is Some,
            r is Some ==> *r->Some_0 == self.cached(Category::Current)->Some_0,
    {
        self.cache_current.as_ref()
    }

    pub fn get_cached_forecast(&self) -> (r: Option<&(JsonValue, u128)>)
        ensures
            r is Some == self.cached(Category::Forecast) is Some,
            r is Some ==> *r->Some_0 == self.cached(Category::Forecast)->Some_0,
    {
        self.cache_forecast.as_ref()
    }

    /// Takes the reply to one category's call: a fresh document goes to the
    /// category's slot, anything else leaves the cache as it is.
    pub fn record(&mut self, category: Category, reply: Reply) -> (result: Result<
        JsonValue,
        ApiResponseError,
    >)
        ensures
            final(self).key() == old(self).key(),
            final(self).cached(category) == slot_after(old(self).cached(category), reply),
            forall|other: Category|
                other != category ==> final(self).cached(other) == old(self).cached(other),
            amounts_to(reply, result),
    {
        match category {
            Category::Current => settle(&mut self.cache_current, reply),
            Category::Alerts => settle(&mut self.cache_alerts, reply),
            Category::Forecast => settle(&mut self.cache_forecast, reply),
        }
    }

    /// Takes the replies of one polling cycle, each category by itself. The
    /// response has a result for exactly the categories that are asked for.
    pub fn make_request(&mut self, config: &ApiRequestConfiguration, replies: Replies) -> (response:
        ApiResponse)
        ensures
            final(self).key() == old(self).key(),
            category_outcome(
                config.requests.current,
                replies.current,
                old(self).cached(Category::Current),
                final(self).cached(Category::Current),
                response.current,
            ),
            category_outcome(
                config.requests.alerts,
                replies.alerts,
                old(self).cached(Category::Alerts),
                final(self).cached(Category::Alerts),
                response.alerts,
            ),
            category_outcome(
                config.requests.forecast,
                replies.forecast,
                old(self).cached(Category::Forecast),
                final(self).cached(Category::Forecast),
                response.forecast,
            ),
    {
        let Replies { current, alerts, forecast } = replies;
        let current = fetched(&mut self.cache_current, config.requests.current, current);
        let alerts = fetched(&mut self.cache_alerts, config.requests.alerts, alerts);
        let forecast = fetched(&mut self.cache_forecast, config.requests.forecast, forecast);
        ApiResponse { current, alerts, forecast }
    }
}

/// Whether a request is the call of a category: the category's endpoint, the
/// client's key, the category's query.
pub open spec fn is_call(
    request: Request,
    category: Category,
    key: Seq<char>,
    config: ApiRequestConfiguration,
) -> bool {
    &&& request.url@ == endpoint(category)
    &&& request.key@ == key
    &&& request.parameters() == query_of(category, config)
}

/// Whether `planned` is what a category has to ask: its call where the
/// category is asked for, and nothing where it is not.
pub open spec fn is_plan(
    planned: Option<Request>,
    asked: bool,
    category: Category,
    key: Seq<char>,
    config: ApiRequestConfiguration,
) -> bool {
    if asked {
        planned is Some && is_call(planned->Some_0, category, key, config)
    } else {
        planned is None
    }
}

fn parameter(name: &str, value: String) -> (r: QueryParameter)
    ensures
        r.name@ == name@,
        r.value == value,
{
    QueryParameter { name: String::from_str(name), value }
}

fn truth_text(value: bool) -> (r: String)
    ensures
        r@ == if value {
            "true"@
        } else {
            "false"@
        },
{
    if value {
        String::from_str("true")
    } else {
        String::from_str("false")
    }
}

impl Api {
    /// The call for the weather alerts: the location alone.
    pub fn make_alerts_request(&self, config: &ApiRequestConfiguration) -> (request: Request)
        ensures
            is_call(request, Category::Alerts, self.key(), *config),
    {
        let mut query: Vec<QueryParameter> = Vec::new();
        query.push(parameter("q", config.q.render()));
        let request = Request {
            url: String::from_str("http://api.weatherapi.com/v1/alerts.json"),
            key: self.key.clone(),
            query,
        };
        assert(request.parameters() =~= query_of(Category::Alerts, *config));
        request
    }

    /// The call for the current weather: the location, the days and the
    /// hourly flag.
    pub fn make_current_request(&self, config: &ApiRequestConfiguration) -> (request: Request)
        ensures
            is_call(request, Category::Current, self.key(), *config),
    {
        let mut query: Vec<QueryParameter> = Vec::new();
        query.push(parameter("q", config.q.render()));
        if let Some(days) = config.days {
            query.push(parameter("days", decimal_text(days as u64)));
        }
        if let Some(hour) = config.hour {
            query.push(parameter("hour", truth_text(hour)));
        }
        let request = Request {
            url: String::from_str("http://api.weatherapi.com/v1/current.json"),
            key: self.key.clone(),
            query,
        };
        assert(request.parameters() =~= query_of(Category::Current, *config));
        request
    }

    /// The call for the forecast: the location, the days and the hourly
    /// flag.
    pub fn make_forecast_request(&self, config: &ApiRequestConfiguration) -> (request: Request)
        ensures
            is_call(request, Category::Forecast, self.key(), *config),
    {
        let mut query: Vec<QueryParameter> = Vec::new();
        query.push(parameter("q", config.q.render()));
        if let Some(days) = config.days {
            query.push(parameter("days", decimal_text(days as u64)));
        }
        if let Some(hour) = config.hour {
            query.push(parameter("hourly", truth_text(hour)));
        }
        let request = Request {
            url: String::from_str("http://api.weatherapi.com/v1/forecast.json"),
            key: self.key.clone(),
            query,
        };
        assert(request.parameters() =~= query_of(Category::Forecast, *config));
        request
    }

    /// The calls that one polling cycle has to make: one for each category
    /// that is asked for, none for the others.
    pub fn requests(&self, config: &ApiRequestConfiguration) -> (planned: Requests)
        ensures
            is_plan(planned.current, config.requests.current, Category::Current, self.key(), *config),
            is_plan(planned.alerts, config.requests.alerts, Category::Alerts, self.key(), *config),
            is_plan(
                planned.forecast,
                config.requests.forecast,
                Category::Forecast,
                self.key(),
                *config,
            ),
    {
        let current = if config.requests.current {
            Some(self.make_current_request(config))
        } else {
            None
        };
        let alerts = if config.requests.alerts {
            Some(self.make_alerts_request(config))
        } else {
            None
        };
        let forecast = if config.requests.forecast {
            Some(self.make_forecast_request(config))
        } else {
            None
        };
        Requests { current, alerts, forecast }
    }
}

/// A polling cycle has a call and a result for exactly the categories that
/// are asked for; one that is not asked for keeps its slot, whatever reply
/// is handed in for it.
pub proof fn lemma_result_where_asked(
    planned: Option<Request>,
    asked: bool,
    category: Category,
    key: Seq<char>,
    config: ApiRequestConfiguration,
    reply: Option<Reply>,
    before: Option<(JsonValue, u128)>,
    after: Option<(JsonValue, u128)>,
    result: Option<Result<JsonValue, ApiResponseError>>,
)
    requires
        is_plan(planned, asked, category, key, config),
        category_outcome(asked, reply, before, after, result),
    ensures
        planned is Some <==> asked,
        result is Some <==> asked,
        !asked ==> after == before,
{
}

/// An error of the provider in one category of a polling cycle leaves the
/// two others what they are without it: the slot of each is what its own
/// reply makes of it, a fresh document is handed out and cached with the
/// time of its reply, and the slot of the category with the error stays.
pub proof fn lemma_error_in_one_category(
    refusal: Reply,
    other: Reply,
    refused_before: Option<(JsonValue, u128)>,
    refused_after: Option<(JsonValue, u128)>,
    refused_result: Option<Result<JsonValue, ApiResponseError>>,
    other_before: Option<(JsonValue, u128)>,
    other_after: Option<(JsonValue, u128)>,
    other_result: Option<Result<JsonValue, ApiResponseError>>,
)
    requires
        refusal.outcome is Ok,
        is_readable(refusal.outcome->Ok_0@),
        parsed_document(refusal.outcome->Ok_0@) is Ok,
        reports_error(parsed_document(refusal.outcome->Ok_0@)->Ok_0),
        category_outcome(true, Some(refusal), refused_before, refused_after, refused_result),
        category_outcome(true, Some(other), other_before, other_after, other_result),
    ensures
        refused_after == refused_before,
        refused_result == Some(
            Err::<JsonValue, ApiResponseError>(
                ApiResponseError::ApiError(parsed_document(refusal.outcome->Ok_0@)->Ok_0),
            ),
        ),
        other_after == slot_after(other_before, other),
        fresh_document(other) is Some ==> {
            &&& other_result == Some(
                Ok::<JsonValue, ApiResponseError>(fresh_document(other)->Some_0),
            )
            &&& other_after == Some((fresh_document(other)->Some_0, other.received_at))
        },
{
}

/// What a category comes to in a polling cycle is fixed by its own flag,
/// reply and slot. Two cycles that differ only in the replies of the other
/// categories, one of which may be an error of the provider, leave it the
/// same slot and the same result. (Where the body is no document or is
/// not safe to read, the two results hold the same words.)
pub proof fn lemma_category_stands_alone(
    asked: bool,
    reply: Option<Reply>,
    before: Option<(JsonValue, u128)>,
    after_one: Option<(JsonValue, u128)>,
    result_one: Option<Result<JsonValue, ApiResponseError>>,
    after_other: Option<(JsonValue, u128)>,
    result_other: Option<Result<JsonValue, ApiResponseError>>,
)
    requires
        category_outcome(asked, reply, before, after_one, result_one),
        category_outcome(asked, reply, before, after_other, result_other),
    ensures
        after_one == after_other,
        result_one is Some == result_other is Some,
        result_one is Some ==> (result_one->Some_0 is Ok == result_other->Some_0 is Ok),
        (asked && reply is Some && (reply->Some_0.outcome is Err || (is_readable(
            reply->Some_0.outcome->Ok_0@,
        ) && parsed_document(reply->Some_0.outcome->Ok_0@) is Ok))) ==> result_one
            == result_other,
        (asked && reply is Some && reply->Some_0.outcome is Ok && !(is_readable(
            reply->Some_0.outcome->Ok_0@,
        ) && parsed_document(reply->Some_0.outcome->Ok_0@) is Ok))
            ==> result_one->Some_0->Err_0->RequestError_0@
            == result_other->Some_0->Err_0->RequestError_0@,
{
}

/// An error of the provider leaves the slot as it was, and the caller gets
/// the document that reports the error.
pub proof fn lemma_provider_error_keeps_slot(
    reply: Reply,
    before: Option<(JsonValue, u128)>,
    result: Result<JsonValue, ApiResponseError>,
)
    requires
        reply.outcome is Ok,
        is_readable(reply.outcome->Ok_0@),
        parsed_document(reply.outcome->Ok_0@) is Ok,
        reports_error(parsed_document(reply.outcome->Ok_0@)->Ok_0),
        amounts_to(reply, result),
    ensures
        slot_after(before, reply) == before,
        result == Err::<JsonValue, ApiResponseError>(
            ApiResponseError::ApiError(parsed_document(reply.outcome->Ok_0@)->Ok_0),
        ),
{
}

/// A fetch that fails never touches the slot; a later fetch that succeeds
/// replaces the document and moves the time forward.
pub proof fn lemma_failure_then_success(
    slot: Option<(JsonValue, u128)>,
    failure: Reply,
    success: Reply,
)
    requires
        fresh_document(failure) is None,
        fresh_document(success) is Some,
        slot is Some ==> slot->Some_0.1 < success.received_at,
    ensures
        slot_after(slot, failure) == slot,
        slot_after(slot_after(slot, failure), success) == Some(
            (fresh_document(success)->Some_0, success.received_at),
        ),
        slot is Some ==> slot_after(slot_after(slot, failure), success)->Some_0.1
            > slot->Some_0.1,
{
}

/// Two polling cycles for one category, the first with a reply that brings
/// no fresh document, the second with one that does and that came later
/// than what is cached: the first leaves the slot as it was, the second
/// puts the new document there with the later time, and hands it out.
pub proof fn lemma_refetch_after_failure(
    before: (JsonValue, u128),
    failure: Reply,
    success: Reply,
    between: Option<(JsonValue, u128)>,
    first: Option<Result<JsonValue, ApiResponseError>>,
    after: Option<(JsonValue, u128)>,
    second: Option<Result<JsonValue, ApiResponseError>>,
)
    requires
        fresh_document(failure) is None,
        fresh_document(success) is Some,
        before.1 < success.received_at,
        category_outcome(true, Some(failure), Some(before), between, first),
        category_outcome(true, Some(success), between, after, second),
    ensures
        between == Some(before),
        first is Some && first->Some_0 is Err,
        after == Some((fresh_document(success)->Some_0, success.received_at)),
        after->Some_0.1 > before.1,
        second == Some(
            Ok::<JsonValue, ApiResponseError>(fresh_document(success)->Some_0),
        ),
{
}

} // verus!
