use vstd::prelude::*;
use vstd::string::StringExecFns;

use crate::extract::{ExtractError, Fault, extract_temperature, temperature_spec};
use crate::page::{
    fetch_failure_page,
    fetch_failure_spec,
    format_failure_page,
    format_failure_spec,
    forecast_url,
    forecast_url_spec,
    fragment_spec,
    render,
};

verus! {

/// The two coordinates of a request, as the query gave them.
pub struct LatLong {
    pub latitude: String,
    pub longitude: String,
}

/// A query that cannot be served: the named parameter is absent.
#[derive(Debug)]
pub enum QueryError {
    MissingField(String),
}

impl QueryError {
    /// The description of the rejection.
    pub fn message(&self) -> (r: String)
        ensures
            match self {
                QueryError::MissingField(f) => r@ == "missing field `"@ + f@ + "`"@,
            },
    {
        match self {
            QueryError::MissingField(f) => {
                let mut m = String::from_str("missing field `");
                m.append(f.as_str());
                m.append("`");
                m
            },
        }
    }
}

/// What to do with an incoming query.
pub enum Plan {
    /// Refuse the request; the forecast service is not contacted.
    Reject(QueryError),
    /// Fetch the forecast at `url` for `coords`.
    Fetch { coords: LatLong, url: String },
}

/// Decides what to do with a query whose `latitude` and `longitude`
/// parameters are given or absent. Both are required; `latitude` is reported
/// first when both are missing.
pub fn plan_request(latitude: Option<String>, longitude: Option<String>) -> (r: Plan)
    ensures
        match r {
            Plan::Reject(QueryError::MissingField(f)) => {
                &&& (latitude is None || longitude is None)
                &&& f@ == (if latitude is None {
                    "latitude"@
                } else {
                    "longitude"@
                })
            },
            Plan::Fetch { coords, url } => {
                &&& latitude == Some(coords.latitude)
                &&& longitude == Some(coords.longitude)
                &&& url@ == forecast_url_spec(coords.latitude@, coords.longitude@)
            },
        },
{
    match (latitude, longitude) {
        (Some(lat), Some(lon)) => {
            let url = forecast_url(lat.as_str(), lon.as_str());
            Plan::Fetch { coords: LatLong { latitude: lat, longitude: lon }, url }
        },
        (None, _) => Plan::Reject(QueryError::MissingField(String::from_str("latitude"))),
        (Some(_), None) => Plan::Reject(QueryError::MissingField(String::from_str("longitude"))),
    }
}

/// What came back from the forecast service.
pub enum FetchOutcome {
    /// A response with its status code and body text.
    Received { status: u16, body: String },
    /// No response: the connection or the transfer failed, for this reason.
    Unreachable(String),
}

/// What of a fetch outcome decides the page.
pub enum FetchView {
    Received { status: u16, body: Seq<char> },
    Unreachable,
}

impl FetchOutcome {
    pub open spec fn view(&self) -> FetchView {
        match self {
            FetchOutcome::Received { status, body } => FetchView::Received {
                status: *status,
                body: body@,
            },
            FetchOutcome::Unreachable(_) => FetchView::Unreachable,
        }
    }
}

/// Whether a status code reports success.
pub open spec fn is_success_status(status: u16) -> bool {
    200 <= status < 300
}

/// Why a request was answered with a failure fragment.
pub enum Failure {
    /// The service answered with this non-success status.
    Status(u16),
    /// The service could not be reached, for this reason.
    Transport(String),
    /// The body held no temperature.
    Format(ExtractError),
}

/// The answer to a request: the fragment, and the failure behind it if any.
pub struct Reply {
    pub body: String,
    pub failure: Option<Failure>,
}

/// The fragment answered for a coordinate pair and what the forecast service
/// returned.
pub open spec fn page_spec(latitude: Seq<char>, longitude: Seq<char>, fetched: FetchView) -> Seq<
    char,
> {
    match fetched {
        FetchView::Received { status, body } => if is_success_status(status) {
            match temperature_spec(body) {
                Ok(t) => fragment_spec(latitude, longitude, t),
                Err(_) => format_failure_spec(),
            }
        } else {
            fetch_failure_spec()
        },
        FetchView::Unreachable => fetch_failure_spec(),
    }
}

/// Turns a forecast body into the success fragment, or the reason it could not.
pub fn format_response(latitude: String, longitude: String, json: &str) -> (r: Result<
    String,
    ExtractError,
>)
    ensures
        match r {
            Ok(html) => exists|t: Seq<char>|
                temperature_spec(json@) == Ok::<Seq<char>, Fault>(t) && html@
                    == fragment_spec(latitude@, longitude@, t),
            Err(e) => temperature_spec(json@) == Err::<Seq<char>, Fault>(
                e.fault(),
            ),
        },
{
    match extract_temperature(json) {
        Ok(t) => Ok(render(latitude.as_str(), longitude.as_str(), t.as_str())),
        Err(e) => Err(e),
    }
}

/// Answers a request for `latitude` and `longitude` once the forecast service
/// has been asked: the success fragment, or a fixed failure fragment together
/// with the failure for diagnostics.
pub fn respond(latitude: String, longitude: String, fetched: FetchOutcome) -> (r: Reply)
    ensures
        r.body@ == page_spec(latitude@, longitude@, fetched.view()),
        match r.failure {
            None => match fetched.view() {
                FetchView::Received { status, body } => is_success_status(status)
                    && temperature_spec(body) is Ok,
                FetchView::Unreachable => false,
            },
            Some(Failure::Transport(cause)) => fetched == FetchOutcome::Unreachable(cause),
            Some(Failure::Status(s)) => fetched is Received && fetched->status == s
                && !is_success_status(s),
            Some(Failure::Format(e)) => fetched is Received && is_success_status(fetched->status)
                && temperature_spec(fetched->body@) == Err::<Seq<char>, Fault>(e.fault()),
        },
{
    match fetched {
        FetchOutcome::Unreachable(cause) => Reply {
            body: fetch_failure_page(),
            failure: Some(Failure::Transport(cause)),
        },
        FetchOutcome::Received { status, body } => {
            if status < 200 || status >= 300 {
                Reply { body: fetch_failure_page(), failure: Some(Failure::Status(status)) }
            } else {
                match format_response(latitude, longitude, body.as_str()) {
                    Ok(html) => Reply { body: html, failure: None },
                    Err(e) => Reply { body: format_failure_page(), failure: Some(Failure::Format(e)) },
                }
            }
        },
    }
}

} // verus!

verus! {

/// A successful forecast that holds a temperature yields the success fragment,
/// in which both coordinates and the temperature text stand exactly as given,
/// at fixed places.
pub proof fn lemma_success_echoes_inputs(
    latitude: Seq<char>,
    longitude: Seq<char>,
    status: u16,
    body: Seq<char>,
)
    requires
        is_success_status(status),
        temperature_spec(body) is Ok,
    ensures
        ({
            let page = page_spec(latitude, longitude, FetchView::Received { status, body });
            let t = temperature_spec(body)->Ok_0;
            let lon_at = 35 + latitude.len() as int + 12;
            let t_at = lon_at + longitude.len() as int + 2;
            &&& page == fragment_spec(latitude, longitude, t)
            &&& page.subrange(35, 35 + latitude.len() as int) == latitude
            &&& page.subrange(lon_at, lon_at + longitude.len() as int) == longitude
            &&& page.subrange(t_at, t_at + t.len() as int) == t
        }),
{
    reveal_strlit("<p>Current temperature at latitude ");
    reveal_strlit(", longitude ");
    reveal_strlit(": ");
    let page = page_spec(latitude, longitude, FetchView::Received { status, body });
    let t = temperature_spec(body)->Ok_0;
    let lon_at = 35 + latitude.len() as int + 12;
    let t_at = lon_at + longitude.len() as int + 2;
    assert(page.subrange(35, 35 + latitude.len() as int) =~= latitude);
    assert(page.subrange(lon_at, lon_at + longitude.len() as int) =~= longitude);
    assert(page.subrange(t_at, t_at + t.len() as int) =~= t);
}

/// The same request against an unchanged forecast service is answered with
/// the same fragment: the page depends on the coordinates and on the status
/// and body received, and on nothing else.
pub proof fn lemma_same_request_same_page(
    latitude: Seq<char>,
    longitude: Seq<char>,
    first: FetchOutcome,
    second: FetchOutcome,
)
    requires
        first.view() == second.view(),
    ensures
        page_spec(latitude, longitude, first.view()) == page_spec(
            latitude,
            longitude,
            second.view(),
        ),
{
}

} // verus!
