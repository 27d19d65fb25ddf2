use vacuum_launcher::config::Config;
use vacuum_launcher::weather::{
    failure_reason, map_weather_icon, weather_from_report, weather_request_url, WeatherClient,
    WeatherFailure, WeatherFetch, WeatherReport,
};

#[test]
fn test_fallback_weather() {
    let client = WeatherClient::new(None);
    let config = Config::default();

    let weather = match client.fetch_plan(&config) {
        WeatherFetch::Ready(w) => w,
        WeatherFetch::Request(_) => panic!("no key, no request"),
    };

    assert_eq!(weather.location_display, config.weather.location);
    assert_eq!(weather.temperature_c, 20);
    assert_eq!(weather.condition, "Weather data unavailable");
}

#[test]
fn test_icon_mapping() {
    let client = WeatherClient::new(None);

    assert_eq!(client.map_weather_icon("01d"), "clear");
    assert_eq!(client.map_weather_icon("01n"), "clear");
    assert_eq!(client.map_weather_icon("10d"), "rain");
    assert_eq!(client.map_weather_icon("11n"), "thunderstorm");
    assert_eq!(client.map_weather_icon("unknown"), "unknown");
}

#[test]
fn icon_mapping_covers_every_code() {
    let pairs = [
        ("02d", "few-clouds"),
        ("03n", "scattered-clouds"),
        ("04d", "broken-clouds"),
        ("09n", "shower-rain"),
        ("13d", "snow"),
        ("50n", "mist"),
    ];
    for (code, icon) in pairs {
        assert_eq!(map_weather_icon(code), icon);
    }
}

#[test]
fn icon_mapping_whole_code_and_edges() {
    // A bare code is found on the second lookup.
    assert_eq!(map_weather_icon("01"), "clear");
    assert_eq!(map_weather_icon(""), "unknown");
    assert_eq!(map_weather_icon("9"), "unknown");
}

#[test]
fn request_url_encodes_location() {
    let url = weather_request_url("Seattle, WA", "KEY");
    assert_eq!(
        url,
        "https://api.openweathermap.org/data/2.5/weather?q=Seattle%2C%20WA&appid=KEY&units=metric"
    );
}

#[test]
fn fetch_plan_with_key_requests() {
    let client = WeatherClient::new(Some("abc".to_string()));
    let config = Config::default();
    match client.fetch_plan(&config) {
        WeatherFetch::Request(u) => assert_eq!(
            u,
            "https://api.openweathermap.org/data/2.5/weather?q=Seattle%2C%20WA&appid=abc&units=metric"
        ),
        WeatherFetch::Ready(_) => panic!("a key asks the provider"),
    }
}

#[test]
fn status_reasons() {
    assert_eq!(failure_reason(200), None);
    assert_eq!(failure_reason(204), None);
    assert_eq!(failure_reason(401).unwrap(), "Invalid API key");
    assert_eq!(failure_reason(403).unwrap(), "API access forbidden");
    assert_eq!(failure_reason(429).unwrap(), "Rate limit exceeded");
    assert_eq!(failure_reason(404).unwrap(), "Location not found");
    assert_eq!(failure_reason(500).unwrap(), "Service unavailable");
    assert_eq!(failure_reason(599).unwrap(), "Service unavailable");
    assert_eq!(failure_reason(302).unwrap(), "API error");
    assert_eq!(failure_reason(600).unwrap(), "API error");
}

#[test]
fn weather_after_failures() {
    let client = WeatherClient::new(Some("k".to_string()));
    let config = Config::default();
    let w = client.weather_after_failure(&config, WeatherFailure::Network);
    assert_eq!(w.condition, "Weather unavailable: Network error");
    assert_eq!(w.temperature_c, 20);
    assert_eq!(w.icon_name.as_deref(), Some("unknown"));
    assert_eq!(w.location_display, "Seattle, WA");
    let w = client.weather_after_failure(&config, WeatherFailure::Status(429));
    assert_eq!(w.condition, "Weather unavailable: Rate limit exceeded");
    let w = client.weather_after_failure(&config, WeatherFailure::InvalidResponse);
    assert_eq!(w.condition, "Weather unavailable: Invalid response");
    let w = client.weather_after_failure(&config, WeatherFailure::NoWeatherData);
    assert_eq!(w.condition, "Weather unavailable: No weather data");
}

#[test]
fn weather_from_a_report() {
    let report = WeatherReport {
        city: "Seattle".to_string(),
        country: "US".to_string(),
        temperature_c: -3,
        description: "light rain".to_string(),
        icon: "10n".to_string(),
    };
    let w = weather_from_report(&report);
    assert_eq!(w.location_display, "Seattle, US");
    assert_eq!(w.temperature_c, -3);
    assert_eq!(w.condition, "light rain");
    assert_eq!(w.icon_name.as_deref(), Some("rain"));
}
