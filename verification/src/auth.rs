//! The auth service, as far as the other services depend on it: its settings,
//! the rules by which a bearer token admits a request, and what its endpoints
//! decide once storage and hashing have answered.
pub mod config;
pub mod handlers;
pub mod jwt;
pub mod middleware;
