//! Settings of the time service.
use vstd::prelude::*;
use crate::text::{number_or, number_setting, text_or, text_setting};

verus! {

pub const DEFAULT_PORT: u16 = 3003;

/// Settings of the time service.
#[derive(Debug)]
pub struct Config {
    pub port: u16,
    pub world_time_api_url: String,
}

impl Config {
    /// The settings that the environment asks for. Each argument is the value
    /// of one variable, `None` where the variable is not set: `PORT` and
    /// `WORLD_TIME_API_URL`. A variable that is unset, or that does not write
    /// a number where one is expected, leaves its setting at the default.
    pub fn from_env(port: Option<String>, world_time_api_url: Option<String>) -> (c: Config)
        ensures
            c.port == number_setting(port, u16::MAX as nat, DEFAULT_PORT as nat),
            c.world_time_api_url@ == text_setting(
                world_time_api_url,
                "http://worldtimeapi.org/api/timezone"@,
            ),
    {
        Config {
            port: number_or(&port, u16::MAX as u64, DEFAULT_PORT as u64) as u16,
            world_time_api_url: text_or(
                world_time_api_url,
                "http://worldtimeapi.org/api/timezone",
            ),
        }
    }
}

} // verus!
