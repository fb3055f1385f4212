//! Commitment goals held in escrow: a user locks an amount against a goal
//! with a deadline, a panel of three verifiers votes on whether it was met,
//! and the outcome releases the amount to the user or sends it to the goal's
//! failure destination.
//!
//! `lifecycle` creates and submits goals, `consensus` records votes and
//! fixes the outcome, `settlement` pays out and closes the goal, and `laws`
//! states the properties that hold across these operations.

use vstd::prelude::*;

pub mod consensus;
pub mod errors;
pub mod laws;
pub mod lifecycle;
pub mod settlement;
pub mod state;

verus! {

} // verus!
