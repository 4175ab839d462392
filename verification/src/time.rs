//! The time service: its cache and its upstream client.
pub mod api_client;
pub mod cache;
pub mod config;
