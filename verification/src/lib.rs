//! Capacity-probing orchestration: an adaptive cliff search over load targets,
//! a single-probe run driver with guaranteed cleanup, classification of client
//! output into overload signals, and an exploration loop over experiment
//! parameter tuples.

pub mod classify;
pub mod driver;
pub mod explore;
pub mod params;
pub mod search;

use vstd::prelude::*;

verus! {

} // verus!
