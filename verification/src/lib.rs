//! Verified core of a small family of city-information services: the error
//! taxonomy, the retry and rate-limit rules of the upstream fetchers, the two
//! caches, and the bounded fan-out that joins weather and time per city.
pub mod auth;
pub mod errors;
pub mod http_client;
pub mod models;
pub mod text;
pub mod time;
pub mod weather;
