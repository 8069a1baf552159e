//! Verified core of a crawler and scraper framework.
use vstd::prelude::*;

pub mod backend;
pub mod browser;
pub mod context;
pub mod dataset;
pub mod error;
pub mod keyed;
pub mod process;
pub mod text;
pub mod time;

verus! {

} // verus!
