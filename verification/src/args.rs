//! The two ways to run a reconciliation.

use vstd::prelude::*;

verus! {

/// What a run does with the drift it finds.
#[derive(Debug, Clone, Copy, PartialEq, Eq, Structural)]
pub enum Action {
    /// Report every correction, change nothing.
    Plan,
    /// Report every correction and carry it out.
    Apply,
}

} // verus!
