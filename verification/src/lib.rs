//! Paycheck economics for a single employee: gross pay from hourly or salaried
//! work (including weekly overtime) at several pay cadences, and an estimated
//! federal tax withholding per pay period under a bracket-based percentage
//! method.
//!
//! Every money amount in this crate is an integer number of cents, and every
//! duration of work is an integer number of hundredths of an hour, so that all
//! arithmetic is exact integer arithmetic and every rounding step is explicit.

use vstd::prelude::*;

pub mod income;
pub mod interaction;
pub mod scenario;
pub mod utils;
pub mod withholdings;

verus! {

/// The ways a calculation can be refused. Every failure is deterministic:
/// the same inputs always produce the same error.
#[derive(Clone, Copy, Debug, PartialEq, Eq, Structural)]
pub enum PaycheckError {
    /// A required field is missing (hourly pay without hours), or a numeric
    /// value lies outside the domain the engine accepts.
    InvalidInput,
    /// The filing status has no fully populated bracket table; it is refused
    /// rather than silently served with another status's table.
    UnsupportedFilingStatus,
}

} // verus!
