//! Evaluation and atomic submission of round-trip swap opportunities.
use vstd::prelude::*;

pub mod dex;
pub mod error;
pub mod fraction;
pub mod quote;
pub mod profit;
pub mod plan;
pub mod confirm;
pub mod chain;
pub mod compile;
pub mod rpc;

verus! {

} // verus!
