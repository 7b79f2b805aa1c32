//! A verified model of a minimal web-service bootstrap: configuration
//! loading, bounded database-pool setup, a one-route HTTP surface, and
//! the fail-fast startup plan that ties them together.
pub mod config;
pub mod health;
pub mod routing;
pub mod bootstrap;
pub mod pool;
