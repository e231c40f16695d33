//! File storage with safe path resolution, random upload names and scheduled expiry.
use vstd::prelude::*;

pub mod config;
pub mod duration;
pub mod files;
pub mod paths;
pub mod uploads;
pub mod workflow;

verus! {

/// The answer of the health check.
pub fn health() -> (r: &'static str)
    ensures
        r@ == "OK"@,
{
    "OK"
}

} // verus!
