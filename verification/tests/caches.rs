use weather_services::models::{Measurement, TimeData, WeatherData};
use weather_services::text::{normalize_key, parse_unsigned};
use weather_services::time::cache::TimeCache;
use weather_services::weather::cache::WeatherCache;

fn weather(temp: f64, condition: &str) -> WeatherData {
    WeatherData {
        temperature: Measurement { bits: temp.to_bits() },
        condition: condition.to_string(),
        humidity: None,
        wind_speed: Some(Measurement { bits: 3.5f64.to_bits() }),
    }
}

fn time(unix_time: i64) -> TimeData {
    TimeData {
        datetime: "2024-01-01T12:00:00+00:00".to_string(),
        timezone: "Europe/London".to_string(),
        unix_time,
    }
}

#[test]
fn weather_read_after_write_within_ttl() {
    let mut cache = WeatherCache::with_ttl(300);
    assert!(cache.get("London", 0).is_none());
    cache.set("London".to_string(), weather(15.0, "Clear sky"), 1_000);
    let hit = cache.get("London", 1_000).unwrap();
    assert_eq!(hit.temperature.bits, 15.0f64.to_bits());
    assert_eq!(hit.condition, "Clear sky");
    assert_eq!(hit.humidity, None);
    assert_eq!(hit.wind_speed, Some(Measurement { bits: 3.5f64.to_bits() }));
    assert!(cache.get("London", 300_999).is_some());
}

#[test]
fn weather_entry_expires_at_its_deadline() {
    let mut cache = WeatherCache::with_ttl(300);
    cache.set("London".to_string(), weather(15.0, "Clear sky"), 1_000);
    assert!(cache.get("London", 301_000).is_none());
    assert!(cache.get("London", 400_000).is_none());
    cache.set("London".to_string(), weather(16.0, "Rain"), 400_000);
    assert_eq!(cache.get("London", 400_001).unwrap().condition, "Rain");
}

#[test]
fn weather_zero_ttl_never_hits() {
    let mut cache = WeatherCache::with_ttl(0);
    cache.set("London".to_string(), weather(15.0, "Clear sky"), 50);
    assert!(cache.get("London", 50).is_none());
    assert!(cache.get("London", 51).is_none());
    assert!(cache.get("London", u64::MAX).is_none());
}

#[test]
fn weather_keys_ignore_case_and_surrounding_blanks() {
    let mut cache = WeatherCache::with_ttl(60);
    cache.set("  LoNdOn ".to_string(), weather(1.0, "Snow"), 0);
    assert_eq!(cache.get("london", 1).unwrap().condition, "Snow");
    assert_eq!(cache.get("LONDON", 1).unwrap().condition, "Snow");
    assert_eq!(cache.get("\tLondon\n", 1).unwrap().condition, "Snow");
    assert!(cache.get("lon don", 1).is_none());
    assert!(cache.get("Paris", 1).is_none());
}

#[test]
fn weather_write_replaces_and_keeps_others() {
    let mut cache = WeatherCache::with_ttl(60);
    cache.set("London".to_string(), weather(1.0, "Snow"), 0);
    cache.set("Paris".to_string(), weather(2.0, "Rain"), 0);
    cache.set("LONDON".to_string(), weather(3.0, "Foggy"), 10);
    assert_eq!(cache.get("London", 20).unwrap().condition, "Foggy");
    assert_eq!(cache.get("London", 20).unwrap().temperature.bits, 3.0f64.to_bits());
    assert_eq!(cache.get("Paris", 20).unwrap().condition, "Rain");
    assert!(cache.get("Paris", 60_000).is_none());
    assert!(cache.get("London", 60_000).is_some());
    assert!(cache.get("London", 60_010).is_none());
}

#[test]
fn weather_huge_ttl_does_not_overflow() {
    let mut cache = WeatherCache::with_ttl(u64::MAX);
    cache.set("London".to_string(), weather(1.0, "Snow"), u64::MAX);
    assert!(cache.get("London", u64::MAX).is_some());
}

#[test]
fn time_read_after_write_at_any_time() {
    let mut cache = TimeCache::new();
    assert!(cache.get("London").is_none());
    cache.set("London".to_string(), time(1704110400));
    let hit = cache.get("London").unwrap();
    assert_eq!(hit.unix_time, 1704110400);
    assert_eq!(hit.timezone, "Europe/London");
    assert_eq!(hit.datetime, "2024-01-01T12:00:00+00:00");
    assert_eq!(cache.get("london").unwrap().unix_time, 1704110400);
    assert_eq!(cache.get(" LONDON ").unwrap().unix_time, 1704110400);
    assert!(cache.get("Tokyo").is_none());
}

#[test]
fn time_write_replaces() {
    let mut cache = TimeCache::default();
    cache.set("Tokyo".to_string(), time(1));
    cache.set("tokyo".to_string(), time(2));
    cache.set("Lima".to_string(), time(3));
    assert_eq!(cache.get("Tokyo").unwrap().unix_time, 2);
    assert_eq!(cache.get("Lima").unwrap().unix_time, 3);
}

#[test]
fn keys_are_trimmed_and_lowercased() {
    assert_eq!(normalize_key("  New York "), "new york");
    assert_eq!(normalize_key("LONDON"), "london");
    assert_eq!(normalize_key("São Paulo"), "são paulo");
    assert_eq!(normalize_key(""), "");
}

#[test]
fn numerals() {
    assert_eq!(parse_unsigned("3002", 65535), Some(3002));
    assert_eq!(parse_unsigned("+80", 65535), Some(80));
    assert_eq!(parse_unsigned("0", 65535), Some(0));
    assert_eq!(parse_unsigned("000000000000000000000000012", 65535), Some(12));
    assert_eq!(parse_unsigned("65535", 65535), Some(65535));
    assert_eq!(parse_unsigned("65536", 65535), None);
    assert_eq!(parse_unsigned("", 65535), None);
    assert_eq!(parse_unsigned("+", 65535), None);
    assert_eq!(parse_unsigned("-1", 65535), None);
    assert_eq!(parse_unsigned("++1", 65535), None);
    assert_eq!(parse_unsigned(" 1", 65535), None);
    assert_eq!(parse_unsigned("1 ", 65535), None);
    assert_eq!(parse_unsigned("12a", 65535), None);
    assert_eq!(parse_unsigned("1.5", 65535), None);
    assert_eq!(parse_unsigned("٣", 65535), None);
    assert_eq!(parse_unsigned("18446744073709551615", u64::MAX), Some(u64::MAX));
    assert_eq!(parse_unsigned("18446744073709551616", u64::MAX), None);
    assert_eq!(parse_unsigned("99999999999999999999999", u64::MAX), None);
    assert_eq!("3002".parse::<u16>().ok().map(u64::from), parse_unsigned("3002", 65535));
    assert_eq!("+7".parse::<u16>().ok().map(u64::from), parse_unsigned("+7", 65535));
    assert_eq!("-7".parse::<u16>().ok().map(u64::from), parse_unsigned("-7", 65535));
    assert_eq!("".parse::<u16>().ok().map(u64::from), parse_unsigned("", 65535));
    assert_eq!("+".parse::<u16>().ok().map(u64::from), parse_unsigned("+", 65535));
    assert_eq!("70000".parse::<u16>().ok().map(u64::from), parse_unsigned("70000", 65535));
}
