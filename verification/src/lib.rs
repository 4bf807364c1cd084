use vstd::prelude::*;

pub mod types;
pub mod address_set;
pub mod tiers;
pub mod pairs;
pub mod risk;
pub mod model;
pub mod engine;
pub mod laws;
pub mod snapshot;
