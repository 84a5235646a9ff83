//! The endpoints that Silence serves for its own administration.
pub mod admin;
pub mod mysql_proxy;
