//! Weather: the request to the provider, and the `WeatherInfo` made from its
//! answer or from its failure.

use vstd::prelude::*;
use crate::config::Config;
use crate::state::WeatherInfo;
use crate::text::{join2, owned, str_eq};

verus! {

/// The percent-encoding of `s` that `urlencoding::encode` produces.
pub uninterp spec fn url_encoded(s: Seq<char>) -> Seq<char>;

/// Relies on `urlencoding::encode`: every byte but ASCII letters, digits and
/// `-_.~` is percent-encoded; the result depends on `s` alone, and the empty
/// string stays empty.
#[verifier::external_body]
fn url_encode(s: &str) -> (r: String)
    ensures
        r@ == url_encoded(s@),
        s@.len() == 0 ==> r@.len() == 0,
{
    urlencoding::encode(s).into_owned()
}

/// The provider's current-weather endpoint, for an already encoded location.
pub open spec fn weather_url(encoded_location: Seq<char>, api_key: Seq<char>) -> Seq<char> {
    "https://api.openweathermap.org/data/2.5/weather?q="@ + encoded_location + "&appid="@ + api_key
        + "&units=metric"@
}

/// The request URL for an already encoded location (see `weather_url`).
pub fn weather_url_for_encoded(encoded_location: &str, api_key: &str) -> (r: String)
    ensures
        r@ == weather_url(encoded_location@, api_key@),
{
    let mut r = join2("https://api.openweathermap.org/data/2.5/weather?q=", encoded_location);
    r.append("&appid=");
    r.append(api_key);
    r.append("&units=metric");
    r
}

/// The request URL for `location`, percent-encoded, and `api_key`.
pub fn weather_request_url(location: &str, api_key: &str) -> (r: String)
    ensures
        r@ == weather_url(url_encoded(location@), api_key@),
{
    let encoded = url_encode(location);
    weather_url_for_encoded(encoded.as_str(), api_key)
}

/// The front end's icon for a provider icon code without its day/night
/// letter.
pub open spec fn icon_for_code(code: Seq<char>) -> Option<Seq<char>> {
    if code == "01"@ {
        Some("clear"@)
    } else if code == "02"@ {
        Some("few-clouds"@)
    } else if code == "03"@ {
        Some("scattered-clouds"@)
    } else if code == "04"@ {
        Some("broken-clouds"@)
    } else if code == "09"@ {
        Some("shower-rain"@)
    } else if code == "10"@ {
        Some("rain"@)
    } else if code == "11"@ {
        Some("thunderstorm"@)
    } else if code == "13"@ {
        Some("snow"@)
    } else if code == "50"@ {
        Some("mist"@)
    } else {
        None
    }
}

/// The front end's icon for a provider icon: looked up without its last
/// (day/night) character, then whole, else `unknown`.
pub open spec fn weather_icon(icon: Seq<char>) -> Seq<char> {
    let base = if icon.len() > 0 {
        icon.drop_last()
    } else {
        icon
    };
    match icon_for_code(base) {
        Some(n) => n,
        None => match icon_for_code(icon) {
            Some(n) => n,
            None => "unknown"@,
        },
    }
}

/// Looks up a bare icon code (see `icon_for_code`).
pub fn icon_lookup(code: &str) -> (r: Option<String>)
    ensures
        match (r, icon_for_code(code@)) {
            (Some(a), Some(b)) => a@ == b,
            (None, None) => true,
            _ => false,
        },
{
    if str_eq(code, "01") {
        Some(owned("clear"))
    } else if str_eq(code, "02") {
        Some(owned("few-clouds"))
    } else if str_eq(code, "03") {
        Some(owned("scattered-clouds"))
    } else if str_eq(code, "04") {
        Some(owned("broken-clouds"))
    } else if str_eq(code, "09") {
        Some(owned("shower-rain"))
    } else if str_eq(code, "10") {
        Some(owned("rain"))
    } else if str_eq(code, "11") {
        Some(owned("thunderstorm"))
    } else if str_eq(code, "13") {
        Some(owned("snow"))
    } else if str_eq(code, "50") {
        Some(owned("mist"))
    } else {
        None
    }
}

/// Maps a provider icon to the front end's (see `weather_icon`).
pub fn map_weather_icon(icon: &str) -> (r: String)
    ensures
        r@ == weather_icon(icon@),
{
    let len = icon.unicode_len();
    let base = if len > 0 {
        icon.substring_char(0, len - 1)
    } else {
        icon
    };
    assert(base@ == if icon@.len() > 0 {
        icon@.drop_last()
    } else {
        icon@
    });
    match icon_lookup(base) {
        Some(n) => n,
        None => match icon_lookup(icon) {
            Some(n) => n,
            None => owned("unknown"),
        },
    }
}

/// Why the provider's answer is not used, for an HTTP status: `None` for a
/// success (2xx).
pub open spec fn status_reason(status: u16) -> Option<Seq<char>> {
    if 200 <= status <= 299 {
        None
    } else if status == 401 {
        Some("Invalid API key"@)
    } else if status == 403 {
        Some("API access forbidden"@)
    } else if status == 429 {
        Some("Rate limit exceeded"@)
    } else if status == 404 {
        Some("Location not found"@)
    } else if 500 <= status <= 599 {
        Some("Service unavailable"@)
    } else {
        Some("API error"@)
    }
}

/// Why the provider's answer is not used (see `status_reason`).
pub fn failure_reason(status: u16) -> (r: Option<String>)
    ensures
        match (r, status_reason(status)) {
            (Some(a), Some(b)) => a@ == b,
            (None, None) => true,
            _ => false,
        },
{
    if 200 <= status && status <= 299 {
        None
    } else if status == 401 {
        Some(owned("Invalid API key"))
    } else if status == 403 {
        Some(owned("API access forbidden"))
    } else if status == 429 {
        Some(owned("Rate limit exceeded"))
    } else if status == 404 {
        Some(owned("Location not found"))
    } else if 500 <= status && status <= 599 {
        Some(owned("Service unavailable"))
    } else {
        Some(owned("API error"))
    }
}

/// What went wrong while asking the provider.
#[derive(Debug, Clone, Copy, PartialEq, Eq, Structural)]
pub enum WeatherFailure {
    /// The request did not reach the provider.
    Network,
    /// The provider answered with a non-success HTTP status.
    Status(u16),
    /// The answer could not be decoded.
    InvalidResponse,
    /// The answer held no weather entry.
    NoWeatherData,
}

/// The reason shown for a failure.
pub open spec fn failure_text(f: WeatherFailure) -> Seq<char> {
    match f {
        WeatherFailure::Network => "Network error"@,
        WeatherFailure::Status(s) => match status_reason(s) {
            Some(t) => t,
            None => "API error"@,
        },
        WeatherFailure::InvalidResponse => "Invalid response"@,
        WeatherFailure::NoWeatherData => "No weather data"@,
    }
}

/// The placeholder weather at `location`: 20 degrees, the icon `unknown`,
/// and `condition` as its text.
pub open spec fn is_fallback(w: WeatherInfo, location: Seq<char>, condition: Seq<char>) -> bool {
    &&& w.location_display@ == location
    &&& w.temperature_c == 20
    &&& w.condition@ == condition
    &&& w.icon_name matches Some(i) && i@ == "unknown"@
}

/// A parsed answer of the provider. The temperature is already rounded to
/// whole degrees.
#[derive(Debug, Clone)]
pub struct WeatherReport {
    pub city: String,
    pub country: String,
    pub temperature_c: i32,
    pub description: String,
    pub icon: String,
}

/// The weather shown for a report: "city, country", the temperature, the
/// description, and the mapped icon.
pub fn weather_from_report(report: &WeatherReport) -> (r: WeatherInfo)
    ensures
        r.location_display@ == report.city@ + ", "@ + report.country@,
        r.temperature_c == report.temperature_c,
        r.condition@ == report.description@,
        r.icon_name matches Some(i) && i@ == weather_icon(report.icon@),
{
    let mut location_display = join2(report.city.as_str(), ", ");
    location_display.append(report.country.as_str());
    WeatherInfo {
        location_display,
        temperature_c: report.temperature_c,
        condition: report.description.clone(),
        icon_name: Some(map_weather_icon(report.icon.as_str())),
    }
}

/// What fetching the weather amounts to.
#[derive(Debug, Clone)]
pub enum WeatherFetch {
    /// No request is made: this is the weather.
    Ready(WeatherInfo),
    /// Ask the provider at this URL.
    Request(String),
}

/// The weather client's own state: the provider key, if any.
#[derive(Debug, Clone)]
pub struct WeatherClient {
    pub api_key: Option<String>,
}

impl WeatherClient {
    /// A client with the given provider key.
    pub fn new(api_key: Option<String>) -> (r: WeatherClient)
        ensures
            r.api_key == api_key,
    {
        WeatherClient { api_key }
    }

    /// Without a key the weather is the placeholder "Weather data
    /// unavailable"; with one, the provider is asked.
    pub fn fetch_plan(&self, config: &Config) -> (r: WeatherFetch)
        ensures
            match self.api_key {
                None => r matches WeatherFetch::Ready(w) && is_fallback(
                    w,
                    config.weather.location@,
                    "Weather data unavailable"@,
                ),
                Some(k) => r matches WeatherFetch::Request(u) && u@ == weather_url(
                    url_encoded(config.weather.location@),
                    k@,
                ),
            },
    {
        match &self.api_key {
            None => WeatherFetch::Ready(self.get_fallback_weather(config)),
            Some(k) => WeatherFetch::Request(
                weather_request_url(config.weather.location.as_str(), k.as_str()),
            ),
        }
    }

    /// The placeholder weather used when no provider key is configured.
    pub fn get_fallback_weather(&self, config: &Config) -> (r: WeatherInfo)
        ensures
            is_fallback(r, config.weather.location@, "Weather data unavailable"@),
    {
        WeatherInfo {
            location_display: config.weather.location.clone(),
            temperature_c: 20,
            condition: owned("Weather data unavailable"),
            icon_name: Some(owned("unknown")),
        }
    }

    /// The placeholder weather after a failed request, naming the reason.
    pub fn fallback_weather(&self, config: &Config, reason: &str) -> (r: WeatherInfo)
        ensures
            is_fallback(r, config.weather.location@, "Weather unavailable: "@ + reason@),
    {
        WeatherInfo {
            location_display: config.weather.location.clone(),
            temperature_c: 20,
            condition: join2("Weather unavailable: ", reason),
            icon_name: Some(owned("unknown")),
        }
    }

    /// The weather after a failure of the request (see `failure_text`).
    pub fn weather_after_failure(&self, config: &Config, failure: WeatherFailure) -> (r: WeatherInfo)
        ensures
            is_fallback(r, config.weather.location@, "Weather unavailable: "@ + failure_text(failure)),
    {
        let reason = match failure {
            WeatherFailure::Network => owned("Network error"),
            WeatherFailure::Status(s) => match failure_reason(s) {
                Some(t) => t,
                None => owned("API error"),
            },
            WeatherFailure::InvalidResponse => owned("Invalid response"),
            WeatherFailure::NoWeatherData => owned("No weather data"),
        };
        self.fallback_weather(config, reason.as_str())
    }

    /// Maps a provider icon to the front end's (see `weather_icon`).
    pub fn map_weather_icon(&self, icon: &str) -> (r: String)
        ensures
            r@ == weather_icon(icon@),
    {
        map_weather_icon(icon)
    }
}

} // verus!
