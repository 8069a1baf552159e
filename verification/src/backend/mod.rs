//! Backends that fetch responses and workers that process them.
pub mod noop;
