//! Statuses by which the engine reports its own failures.

use vstd::prelude::*;

verus! {

/// Status of a run that the engine could not carry out: the process could not
/// be duplicated, the confinement could not be set up, or the target image
/// could not be loaded. It lies outside the range of a program's exit codes.
pub const UNKNOWN: i32 = 50000;

} // verus!
