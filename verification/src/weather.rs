//! The weather service: its cache, its upstream client and the aggregation of
//! weather and time over a batch of cities.
pub mod aggregator;
pub mod api_client;
pub mod cache;
pub mod config;
pub mod fan_out;
pub mod handlers;
pub mod rate_limit;
