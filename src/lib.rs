//! Position evaluation for two-player zero-sum games, and the ownership
//! discipline of the accelerator resources a neural evaluator runs on.
use vstd::prelude::*;

pub mod device;
pub mod handle;
pub mod position;
pub mod heuristic;
pub mod solver;
pub mod material;

verus! {

} // verus!
