//! The closed set of colors the console paints with. The rendering
//! backend maps each variant to its own color type; the library only
//! carries the choice through.

use vstd::prelude::*;

verus! {

/// A terminal color used by the console's components.
#[derive(Clone, Copy, Debug, PartialEq, Eq, Structural)]
pub enum Color {
    Black,
    White,
    Green,
    LightGreen,
    Blue,
    Yellow,
    Red,
    Magenta,
    DarkGray,
}

} // verus!
