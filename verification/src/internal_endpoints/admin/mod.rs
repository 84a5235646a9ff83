//! Handlers of the admin API: endpoints, endpoint tests and configuration.
pub mod config;
pub mod endpoints;
pub mod exchange;
