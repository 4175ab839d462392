//! Settings of the auth service.
use vstd::prelude::*;
use crate::text::{number_or, number_setting, text_or, text_setting};

verus! {

pub const DEFAULT_PORT: u16 = 3001;

/// Settings of the auth service.
#[derive(Debug)]
pub struct Config {
    pub database_url: String,
    pub jwt_secret: String,
    pub port: u16,
}

impl Config {
    /// The settings that the environment asks for. `database_url` is the
    /// value of `DATABASE_URL`, which has to be set. The other arguments are
    /// the values of `JWT_SECRET` and `PORT`, `None` where the variable is not
    /// set; an unset variable, or a port that is no number, leaves its setting
    /// at the default.
    pub fn from_env(database_url: String, jwt_secret: Option<String>, port: Option<String>) -> (c:
        Config)
        ensures
            c.database_url@ == database_url@,
            c.jwt_secret@ == text_setting(jwt_secret, "jwt-secret"@),
            c.port == number_setting(port, u16::MAX as nat, DEFAULT_PORT as nat),
    {
        Config {
            database_url,
            jwt_secret: text_or(jwt_secret, "jwt-secret"),
            port: number_or(&port, u16::MAX as u64, DEFAULT_PORT as u64) as u16,
        }
    }
}

} // verus!
