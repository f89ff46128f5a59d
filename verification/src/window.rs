//! What the window procedures have in common.

use vstd::prelude::*;

verus! {

/// What a window procedure answers.
#[derive(Debug, Clone, Copy, PartialEq, Eq, Structural)]
pub enum Reply {
    Value(isize),
    /// What the system's own procedure answers.
    System,
}

} // verus!
