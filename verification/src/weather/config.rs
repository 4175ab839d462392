//! Settings of the weather service.
use vstd::prelude::*;
use crate::text::{number_or, number_setting, text_or, text_setting};

verus! {

pub const DEFAULT_PORT: u16 = 3002;

pub const DEFAULT_CACHE_TTL_SECONDS: u64 = 300;

pub const DEFAULT_RATE_LIMIT_PER_MINUTE: u32 = 60;

/// Settings of the weather service.
#[derive(Debug)]
pub struct Config {
    pub port: u16,
    pub open_meteo_url: String,
    pub cache_ttl_seconds: u64,
    pub rate_limit_per_minute: u32,
    pub time_service_url: String,
}

impl Config {
    /// The settings that the environment asks for. Each argument is the value
    /// of one variable, `None` where the variable is not set: `PORT`,
    /// `OPEN_METEO_URL`, `CACHE_TTL_SECONDS`, `RATE_LIMIT_PER_MINUTE` and
    /// `TIME_SERVICE_URL`. A variable that is unset, or that does not write a
    /// number where one is expected, leaves its setting at the default.
    pub fn from_env(
        port: Option<String>,
        open_meteo_url: Option<String>,
        cache_ttl_seconds: Option<String>,
        rate_limit_per_minute: Option<String>,
        time_service_url: Option<String>,
    ) -> (c: Config)
        ensures
            c.port == number_setting(port, u16::MAX as nat, DEFAULT_PORT as nat),
            c.open_meteo_url@ == text_setting(
                open_meteo_url,
                "https://api.open-meteo.com/v1/forecast"@,
            ),
            c.cache_ttl_seconds == number_setting(
                cache_ttl_seconds,
                u64::MAX as nat,
                DEFAULT_CACHE_TTL_SECONDS as nat,
            ),
            c.rate_limit_per_minute == number_setting(
                rate_limit_per_minute,
                u32::MAX as nat,
                DEFAULT_RATE_LIMIT_PER_MINUTE as nat,
            ),
            c.time_service_url@ == text_setting(time_service_url, "http://localhost:3003"@),
    {
        Config {
            port: number_or(&port, u16::MAX as u64, DEFAULT_PORT as u64) as u16,
            open_meteo_url: text_or(open_meteo_url, "https://api.open-meteo.com/v1/forecast"),
            cache_ttl_seconds: number_or(&cache_ttl_seconds, u64::MAX, DEFAULT_CACHE_TTL_SECONDS),
            rate_limit_per_minute: number_or(
                &rate_limit_per_minute,
                u32::MAX as u64,
                DEFAULT_RATE_LIMIT_PER_MINUTE as u64,
            ) as u32,
            time_service_url: text_or(time_service_url, "http://localhost:3003"),
        }
    }
}

} // verus!
