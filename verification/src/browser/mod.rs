//! The WebDriver browser backend: configuration, capabilities, errors and
//! connection statistics.
pub mod behavior;
pub mod builder;
pub mod browser_type;
pub mod config;
pub mod connection;
pub mod error;
pub mod json;
pub mod manager;
pub mod pool;
pub mod stats;
pub mod visit;
