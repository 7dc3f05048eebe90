//! The narrow error taxonomy of the console core. Every operation is
//! either a pure computation that always succeeds given valid invariants,
//! or fails with one of these conditions at the call that detects it.

use vstd::prelude::*;

verus! {

/// The error conditions of the console core.
#[derive(Clone, Copy, Debug, PartialEq, Eq, Structural)]
pub enum ConsoleError {
    /// A star map was constructed with zero locations.
    InvalidConfiguration,
    /// A constraint set requested more fixed space than the region offers.
    InvalidLayout,
}

impl ConsoleError {
    /// A short description of the condition.
    pub fn message(self) -> (r: &'static str)
        ensures
            self is InvalidConfiguration ==> r@ == "star map needs at least one location"@,
            self is InvalidLayout ==> r@ == "fixed constraints exceed the region"@,
    {
        match self {
            ConsoleError::InvalidConfiguration => "star map needs at least one location",
            ConsoleError::InvalidLayout => "fixed constraints exceed the region",
        }
    }
}

} // verus!
