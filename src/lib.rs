//! A blocking HTTP client over an event-driven host transport.
pub mod bridge;
pub mod client;
pub mod driver;
pub mod model;
