//! The key presses the console reacts to, as plain values. The binary
//! around the library translates terminal events into these; every key
//! not listed here arrives as `Other` and is ignored.

use vstd::prelude::*;

verus! {

/// One key press, reduced to the codes the console recognizes.
#[derive(Clone, Copy, Debug, PartialEq, Eq, Structural)]
pub enum Key {
    /// A printable character; only `'q'` is bound (to quit).
    Char(char),
    Up,
    Down,
    Left,
    Right,
    Enter,
    /// Any other key; always ignored.
    Other,
}

} // verus!
