use vstd::prelude::*;
use vstd::string::StringExecFns;

verus! {

/// The forecast request for one coordinate pair. Both coordinates are copied
/// into the query verbatim.
pub open spec fn forecast_url_spec(latitude: Seq<char>, longitude: Seq<char>) -> Seq<char> {
    "https://api.open-meteo.com/v1/forecast?latitude="@ + latitude + "&longitude="@ + longitude
        + "&current=temperature_2m&timezone=America/Chicago&forecast_days=1"@
}

/// The success fragment: coordinates and temperature text, echoed as given.
pub open spec fn fragment_spec(
    latitude: Seq<char>,
    longitude: Seq<char>,
    temperature: Seq<char>,
) -> Seq<char> {
    "<p>Current temperature at latitude "@ + latitude + ", longitude "@ + longitude + ": "@
        + temperature + " degrees Celsius.</p>"@
}

/// The fragment sent when the forecast could not be fetched.
pub open spec fn fetch_failure_spec() -> Seq<char> {
    "<p>Failed to fetch weather data</p>"@
}

/// The fragment sent when the forecast body could not be turned into a reading.
pub open spec fn format_failure_spec() -> Seq<char> {
    "<p>Failed to format response</p>"@
}

/// Builds the forecast URL for `latitude` and `longitude`.
pub fn forecast_url(latitude: &str, longitude: &str) -> (r: String)
    ensures
        r@ == forecast_url_spec(latitude@, longitude@),
{
    let mut url = String::from_str("https://api.open-meteo.com/v1/forecast?latitude=");
    url.append(latitude);
    url.append("&longitude=");
    url.append(longitude);
    url.append("&current=temperature_2m&timezone=America/Chicago&forecast_days=1");
    url
}

/// Renders the success fragment. `temperature` is the reading as its decimal
/// text; nothing is escaped or rounded.
pub fn render(latitude: &str, longitude: &str, temperature: &str) -> (r: String)
    ensures
        r@ == fragment_spec(latitude@, longitude@, temperature@),
{
    let mut html = String::from_str("<p>Current temperature at latitude ");
    html.append(latitude);
    html.append(", longitude ");
    html.append(longitude);
    html.append(": ");
    html.append(temperature);
    html.append(" degrees Celsius.</p>");
    html
}

/// The fragment sent when the forecast could not be fetched.
pub fn fetch_failure_page() -> (r: String)
    ensures
        r@ == fetch_failure_spec(),
{
    String::from_str("<p>Failed to fetch weather data</p>")
}

/// The fragment sent when the forecast body could not be turned into a reading.
pub fn format_failure_page() -> (r: String)
    ensures
        r@ == format_failure_spec(),
{
    String::from_str("<p>Failed to format response</p>")
}

} // verus!
