//! The decisions that drive the crawler: deferred tags and the client's settings.
pub mod client;
pub mod defer;
pub mod run;
