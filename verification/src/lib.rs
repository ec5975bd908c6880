//! Verified core of the Pullpiri workload tooling.
use vstd::prelude::*;

pub mod binary;
pub mod error;
pub mod laws;
pub mod lifecycle;
pub mod reading_laws;
pub mod resource_manager;
pub mod settings;
pub mod text;
pub mod workload;
pub mod yaml;

verus! {

} // verus!
