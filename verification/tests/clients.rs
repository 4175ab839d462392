use weather_services::models::Measurement;
use weather_services::time::api_client::{
    prefill_city, zone_for_key, Prefill, TimeLookup, WorldTimeApiClient, WorldTimeApiResponse,
    PREFILL_CITIES,
};
use weather_services::time::cache::TimeCache;
use weather_services::time::config::Config as TimeConfig;
use weather_services::weather::api_client::{
    find_city, latitude_of, longitude_of, CurrentWeather, KnownCity, OpenMeteoClient,
    OpenMeteoResponse, WeatherLookup,
};
use weather_services::weather::cache::WeatherCache;
use weather_services::weather::config::Config as WeatherConfig;
use weather_services::auth::config::Config as AuthConfig;

const FIELDS: &str = "&current=temperature_2m,relative_humidity_2m,wind_speed_10m,weather_code";

fn weather_client(ttl: u64, cap: u32) -> OpenMeteoClient {
    OpenMeteoClient::new(WeatherCache::with_ttl(ttl), "https://api.example/v1/forecast".to_string(), cap)
}

fn answer(temp: f64, code: Option<u32>) -> OpenMeteoResponse {
    OpenMeteoResponse {
        current: CurrentWeather {
            temperature_2m: Measurement { bits: temp.to_bits() },
            relative_humidity_2m: Some(Measurement { bits: 65.0f64.to_bits() }),
            wind_speed_10m: None,
            weather_code: code,
        },
    }
}

#[test]
fn weather_codes() {
    let c = weather_client(300, 60);
    let table: [(u32, &str); 30] = [
        (0, "Clear sky"),
        (1, "Partly cloudy"),
        (2, "Partly cloudy"),
        (3, "Partly cloudy"),
        (4, "Unknown"),
        (44, "Unknown"),
        (45, "Foggy"),
        (46, "Unknown"),
        (48, "Foggy"),
        (51, "Drizzle"),
        (52, "Unknown"),
        (53, "Drizzle"),
        (55, "Drizzle"),
        (61, "Rain"),
        (63, "Rain"),
        (65, "Rain"),
        (71, "Snow"),
        (73, "Snow"),
        (75, "Snow"),
        (80, "Rain showers"),
        (81, "Rain showers"),
        (82, "Rain showers"),
        (83, "Unknown"),
        (85, "Snow showers"),
        (86, "Snow showers"),
        (95, "Thunderstorm"),
        (96, "Thunderstorm with hail"),
        (97, "Unknown"),
        (99, "Thunderstorm with hail"),
        (u32::MAX, "Unknown"),
    ];
    for (code, text) in table {
        assert_eq!(c.weather_code_to_condition(code), text, "code {}", code);
    }
}

#[test]
fn coordinates_match_their_decimal_values() {
    let c = weather_client(300, 60);
    let table: [(&str, f64, f64); 12] = [
        ("London", 51.5074, -0.1278),
        ("tokyo", 35.6762, 139.6503),
        ("New York", 40.7128, -74.0060),
        ("new+york", 40.7128, -74.0060),
        ("PARIS", 48.8566, 2.3522),
        ("Berlin", 52.5200, 13.4050),
        ("Moscow", 55.7558, 37.6173),
        ("Beijing", 39.9042, 116.4074),
        ("Sydney", -33.8688, 151.2093),
        ("Rio de Janeiro", -22.9068, -43.1729),
        ("Cairo", 30.0444, 31.2357),
        ("Atlantis", 0.0, 0.0),
    ];
    for (city, lat, lon) in table {
        assert_eq!(c.get_latitude(city), format!("{}", lat), "latitude of {}", city);
        assert_eq!(c.get_longitude(city), format!("{}", lon), "longitude of {}", city);
    }
    assert_eq!(c.get_latitude(" London"), "0");
    assert_eq!(find_city("london"), Some(KnownCity::London));
    assert_eq!(find_city("London"), None);
    assert_eq!(find_city("rio+de+janeiro"), Some(KnownCity::RioDeJaneiro));
    assert_eq!(latitude_of(None), "0");
    assert_eq!(longitude_of(Some(KnownCity::Berlin)), "13.405");
}

#[test]
fn weather_url() {
    let c = weather_client(300, 60);
    assert_eq!(
        c.weather_url("London"),
        format!("https://api.example/v1/forecast?latitude=51.5074&longitude=-0.1278{}", FIELDS)
    );
    assert_eq!(
        c.weather_url("nowhere"),
        format!("https://api.example/v1/forecast?latitude=0&longitude=0{}", FIELDS)
    );
}

#[test]
fn second_lookup_is_answered_from_the_cache() {
    let mut c = weather_client(300, 60);
    let url = match c.get_weather("London", 1_000) {
        WeatherLookup::Fetch { url } => url,
        other => panic!("unexpected {:?}", other),
    };
    assert_eq!(url, c.weather_url("London"));
    let first = c.complete("London", &answer(15.0, Some(3)), 1_200);
    assert_eq!(first.condition, "Partly cloudy");
    assert_eq!(first.temperature.bits, 15.0f64.to_bits());
    assert_eq!(first.humidity, Some(Measurement { bits: 65.0f64.to_bits() }));
    assert_eq!(first.wind_speed, None);
    match c.get_weather("london", 1_300) {
        WeatherLookup::Cached(second) => {
            assert_eq!(second.condition, first.condition);
            assert_eq!(second.temperature, first.temperature);
            assert_eq!(second.humidity, first.humidity);
            assert_eq!(second.wind_speed, first.wind_speed);
        }
        other => panic!("unexpected {:?}", other),
    }
    assert!(matches!(c.get_weather("London", 301_200), WeatherLookup::Fetch { .. }));
}

#[test]
fn missing_weather_code_counts_as_clear_sky() {
    let c = weather_client(300, 60);
    assert_eq!(c.to_sample(&answer(1.0, None)).condition, "Clear sky");
    assert_eq!(c.to_sample(&answer(1.0, Some(95))).condition, "Thunderstorm");
}

#[test]
fn client_permits_and_pacing() {
    let mut c = weather_client(300, 2);
    assert_eq!(c.limiter.min_interval_ms(), 30_000);
    let first = c.begin_fetch("London", 100).unwrap();
    assert_eq!(first.wait_ms, 0);
    assert_eq!(first.url, c.weather_url("London"));
    let second = c.begin_fetch("Paris", 200).unwrap();
    assert_eq!(second.wait_ms, 29_900);
    assert_eq!(second.url, c.weather_url("Paris"));
    assert!(c.begin_fetch("Tokyo", 300).is_none());
    assert_eq!(c.limiter.available_permits(), 0);
    c.abandon();
    assert_eq!(c.limiter.available_permits(), 1);
    let third = c.begin_fetch("Tokyo", 30_100).unwrap();
    assert_eq!(third.wait_ms, 30_000);
    c.complete("Paris", &answer(2.0, Some(61)), 40_000);
    assert_eq!(c.limiter.available_permits(), 1);
    assert!(matches!(c.get_weather("paris", 40_001), WeatherLookup::Cached(_)));
    assert!(matches!(c.get_weather("Tokyo", 40_001), WeatherLookup::Fetch { .. }));
    let zero = weather_client(300, 0);
    assert_eq!(zero.limiter.available_permits(), 1);
    assert_eq!(zero.limiter.min_interval_ms(), 60_000);
    assert_eq!(zero.http_client.max_retries, 2);
}

#[test]
fn time_zones() {
    let c = WorldTimeApiClient::new(TimeCache::new(), "http://wt/api/timezone".to_string());
    let table: [(&str, &str); 27] = [
        ("London", "Europe/London"),
        ("TOKYO", "Asia/Tokyo"),
        ("New York", "America/New_York"),
        ("new+york", "America/New_York"),
        ("Paris", "Europe/Paris"),
        ("Berlin", "Europe/Berlin"),
        ("Moscow", "Europe/Moscow"),
        ("Beijing", "Asia/Shanghai"),
        ("Sydney", "Australia/Sydney"),
        ("Rio de Janeiro", "America/Sao_Paulo"),
        ("rio+de+janeiro", "America/Sao_Paulo"),
        ("Cairo", "Africa/Cairo"),
        ("Los Angeles", "America/Los_Angeles"),
        ("los+angeles", "America/Los_Angeles"),
        ("Chicago", "America/Chicago"),
        ("Toronto", "America/Toronto"),
        ("Mexico City", "America/Mexico_City"),
        ("mexico+city", "America/Mexico_City"),
        ("sao+paulo", "America/Sao_Paulo"),
        ("Buenos Aires", "America/Argentina/Buenos_Aires"),
        ("buenos+aires", "America/Argentina/Buenos_Aires"),
        ("Dubai", "Asia/Dubai"),
        ("Mumbai", "Asia/Kolkata"),
        ("Singapore", "Asia/Singapore"),
        ("Hong Kong", "Asia/Hong_Kong"),
        ("hong+kong", "Asia/Hong_Kong"),
        ("Atlantis", "UTC"),
    ];
    for (city, zone) in table {
        assert_eq!(c.city_to_timezone(city), zone, "zone of {}", city);
    }
    assert_eq!(zone_for_key("London"), "UTC");
    assert_eq!(zone_for_key("s\u{c3}\u{a3}o paulo"), "America/Sao_Paulo");
}

#[test]
fn time_url_encodes_the_zone() {
    let c = WorldTimeApiClient::new(TimeCache::new(), "http://wt/api/timezone".to_string());
    assert_eq!(c.time_url("London"), "http://wt/api/timezone/Europe%2FLondon");
    assert_eq!(c.time_url("new york"), "http://wt/api/timezone/America%2FNew_York");
    assert_eq!(
        c.time_url("Buenos Aires"),
        "http://wt/api/timezone/America%2FArgentina%2FBuenos_Aires"
    );
    assert_eq!(c.time_url("nowhere"), "http://wt/api/timezone/UTC");
}

#[test]
fn time_lookup_then_cache() {
    let mut c = WorldTimeApiClient::new(TimeCache::new(), "http://wt".to_string());
    match c.get_time("London") {
        TimeLookup::Fetch { url } => assert_eq!(url, "http://wt/Europe%2FLondon"),
        other => panic!("unexpected {:?}", other),
    }
    let data = c.complete(
        "London",
        WorldTimeApiResponse {
            datetime: "2024-01-01T12:00:00+00:00".to_string(),
            timezone: "Europe/London".to_string(),
            unixtime: 1704110400,
        },
    );
    assert_eq!(data.unix_time, 1704110400);
    assert_eq!(data.timezone, "Europe/London");
    assert_eq!(data.datetime, "2024-01-01T12:00:00+00:00");
    match c.get_time(" LONDON ") {
        TimeLookup::Cached(hit) => {
            assert_eq!(hit.unix_time, 1704110400);
            assert_eq!(hit.timezone, "Europe/London");
        }
        other => panic!("unexpected {:?}", other),
    }
    assert!(matches!(c.get_time("Tokyo"), TimeLookup::Fetch { .. }));
}

#[test]
fn prefill_walks_the_ten_cities() {
    let expected = [
        "London", "Tokyo", "New York", "Paris", "Berlin", "Sydney", "Los Angeles", "Chicago",
        "Toronto", "Singapore",
    ];
    assert_eq!(PREFILL_CITIES, 10);
    let mut p = Prefill::new();
    let mut seen: Vec<&str> = Vec::new();
    while let Some(city) = p.next_city() {
        seen.push(city);
        p.record(seen.len() % 4 != 0);
    }
    assert_eq!(seen, expected);
    assert!(p.finished());
    assert_eq!(p.cached, 8);
    assert_eq!(p.errors, 2);
    p.record(true);
    assert_eq!(p, Prefill { cached: 8, errors: 2 });
    assert_eq!(prefill_city(9), Some("Singapore"));
    assert_eq!(prefill_city(10), None);
}

fn some(s: &str) -> Option<String> {
    Some(s.to_string())
}

#[test]
fn weather_settings() {
    let d = WeatherConfig::from_env(None, None, None, None, None);
    assert_eq!(d.port, 3002);
    assert_eq!(d.open_meteo_url, "https://api.open-meteo.com/v1/forecast");
    assert_eq!(d.cache_ttl_seconds, 300);
    assert_eq!(d.rate_limit_per_minute, 60);
    assert_eq!(d.time_service_url, "http://localhost:3003");
    let c = WeatherConfig::from_env(some("8080"), some("http://m"), some("0"), some("5"), some("http://t"));
    assert_eq!(c.port, 8080);
    assert_eq!(c.open_meteo_url, "http://m");
    assert_eq!(c.cache_ttl_seconds, 0);
    assert_eq!(c.rate_limit_per_minute, 5);
    assert_eq!(c.time_service_url, "http://t");
    let bad = WeatherConfig::from_env(some("70000"), some(""), some("-3"), some("4294967296"), None);
    assert_eq!(bad.port, 3002);
    assert_eq!(bad.open_meteo_url, "");
    assert_eq!(bad.cache_ttl_seconds, 300);
    assert_eq!(bad.rate_limit_per_minute, 60);
}

#[test]
fn time_and_auth_settings() {
    let d = TimeConfig::from_env(None, None);
    assert_eq!(d.port, 3003);
    assert_eq!(d.world_time_api_url, "http://worldtimeapi.org/api/timezone");
    let c = TimeConfig::from_env(some("x"), some("http://w"));
    assert_eq!(c.port, 3003);
    assert_eq!(c.world_time_api_url, "http://w");
    let a = AuthConfig::from_env("postgres://db".to_string(), None, some("+9000"));
    assert_eq!(a.database_url, "postgres://db");
    assert_eq!(a.jwt_secret, "jwt-secret");
    assert_eq!(a.port, 9000);
    let b = AuthConfig::from_env("postgres://db".to_string(), some("s3"), None);
    assert_eq!(b.jwt_secret, "s3");
    assert_eq!(b.port, 3001);
}
