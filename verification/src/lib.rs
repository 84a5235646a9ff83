//! Request handling of the Silence admin endpoints.
pub mod endpoint;
pub mod internal_endpoints;
pub mod pipeline;
pub mod simple_endpoint;
pub mod text;

pub use internal_endpoints::admin::config::ConfigManager;
pub use internal_endpoints::admin::endpoint_tests::EndpointTestsManager;
pub use internal_endpoints::admin::endpoints::EndpointsManager;
pub use internal_endpoints::mysql_proxy::MySQLExecutorProxy;
pub use simple_endpoint::SimpleEndpoint;
