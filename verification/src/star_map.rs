//! The star map model: a fixed, non-empty, ordered sequence of locations
//! and two index pointers into it. `current_index` is where the ship is;
//! `selected_index` is the cursor. The cursor moves cyclically over the
//! whole location set, and travel commits `current_index := selected_index`
//! on confirmation. Links drawn between locations are purely visual and
//! constrain neither movement nor travel.

use vstd::prelude::*;
use vstd::arithmetic::div_mod::lemma_mod_bound;
use crate::color::Color;
use crate::cyclic::{next_index, next_of, previous_index, previous_of};
use crate::error::ConsoleError;
use crate::input::Key;

verus! {

/// Upper bound of both map-space coordinates.
pub const MAP_EXTENT: u16 = 100;

/// A fixed node of the star map, in map-space `[0, MAP_EXTENT]` on both
/// axes, with a strictly positive radius. Immutable after construction.
#[derive(Clone, Copy, Debug, PartialEq, Eq, Structural)]
pub struct Location {
    pub x: u16,
    pub y: u16,
    pub radius: u16,
    pub color: Color,
}

impl Location {
    /// The coordinates lie in map-space and the radius is strictly
    /// positive.
    pub open spec fn wf(self) -> bool {
        &&& self.x <= MAP_EXTENT
        &&& self.y <= MAP_EXTENT
        &&& self.radius >= 1
    }

    /// A location at `(x, y)` with the given radius and color.
    pub fn new(x: u16, y: u16, radius: u16, color: Color) -> (r: Location)
        requires
            x <= MAP_EXTENT,
            y <= MAP_EXTENT,
            radius >= 1,
        ensures
            r == (Location { x, y, radius, color }),
            r.wf(),
    {
        Location { x, y, radius, color }
    }
}

/// Direction of one cyclic cursor step over the locations.
#[derive(Clone, Copy, Debug, PartialEq, Eq, Structural)]
pub enum CursorDirection {
    Left,
    Right,
}

/// What a confirmation did: surfaced the location under the cursor
/// (cursor already on the current location), or committed travel.
#[derive(Clone, Copy, Debug, PartialEq, Eq, Structural)]
pub enum ConfirmOutcome {
    Inspected,
    Traveled,
}

/// The decorations the node at one index renders with. The "you are
/// here" marker and the highlight ring compose when the cursor rests on
/// the current location.
#[derive(Clone, Copy, Debug, PartialEq, Eq, Structural)]
pub struct NodeMarking {
    pub here: bool,
    pub highlighted: bool,
}

/// The cursor index after a sequence of cyclic steps from `k` over `n`
/// locations.
pub open spec fn cursor_after(k: int, n: int, moves: Seq<CursorDirection>) -> int
    decreases moves.len(),
{
    if moves.len() == 0 {
        k
    } else {
        let before = cursor_after(k, n, moves.drop_last());
        match moves.last() {
            CursorDirection::Left => previous_index(before, n),
            CursorDirection::Right => next_index(before, n),
        }
    }
}

/// The cursor is closed over the location count: from a valid index,
/// any sequence of Left and Right steps leaves it in `[0, n)`. Each step
/// is exactly what `move_cursor` ensures of `selected_index`.
pub proof fn lemma_cursor_in_range(k: int, n: int, moves: Seq<CursorDirection>)
    requires
        0 < n,
        0 <= k < n,
    ensures
        0 <= cursor_after(k, n, moves) < n,
    decreases moves.len(),
{
    if moves.len() > 0 {
        lemma_cursor_in_range(k, n, moves.drop_last());
        let before = cursor_after(k, n, moves.drop_last());
        match moves.last() {
            CursorDirection::Left => lemma_mod_bound(before + n - 1, n),
            CursorDirection::Right => lemma_mod_bound(before + 1, n),
        }
    }
}

/// The locations the session starts with.
pub open spec fn default_locations() -> Seq<Location> {
    seq![
        Location { x: 50, y: 80, radius: 5, color: Color::Magenta },
        Location { x: 30, y: 20, radius: 8, color: Color::Red },
        Location { x: 80, y: 30, radius: 3, color: Color::LightGreen },
    ]
}

/// The star map: a non-empty ordered sequence of locations, the cursor
/// (`selected_index`) and the ship's position (`current_index`).
/// `current_index` changes only through an explicit confirmation, never
/// as a side effect of cursor movement.
#[derive(Debug)]
pub struct StarMap {
    pub locations: Vec<Location>,
    pub selected_index: usize,
    pub current_index: usize,
}

impl StarMap {
    /// The location sequence is non-empty, both indices point into it,
    /// and every location is well formed.
    pub open spec fn wf(self) -> bool {
        &&& self.locations@.len() > 0
        &&& self.selected_index < self.locations@.len()
        &&& self.current_index < self.locations@.len()
        &&& forall|i: int|
            0 <= i < self.locations@.len() ==> (#[trigger] self.locations@[i]).wf()
    }

    /// The session's default map: three fixed locations, cursor and ship
    /// both at the first.
    pub fn new() -> (m: StarMap)
        ensures
            m.wf(),
            m.locations@ == default_locations(),
            m.locations@.len() == 3,
            m.selected_index == 0,
            m.current_index == 0,
    {
        let mut locations: Vec<Location> = Vec::new();
        locations.push(Location::new(50, 80, 5, Color::Magenta));
        locations.push(Location::new(30, 20, 8, Color::Red));
        locations.push(Location::new(80, 30, 3, Color::LightGreen));
        proof {
            assert(locations@ =~= default_locations());
        }
        StarMap { locations, selected_index: 0, current_index: 0 }
    }

    /// A map over an arbitrary ordered location sequence. Fails with
    /// `InvalidConfiguration` exactly when the sequence is empty, since a
    /// cursor over zero locations has no valid index; otherwise both
    /// indices start at the first location.
    pub fn from_locations(locations: Vec<Location>) -> (r: Result<StarMap, ConsoleError>)
        requires
            forall|i: int| 0 <= i < locations@.len() ==> (#[trigger] locations@[i]).wf(),
        ensures
            r is Ok <==> locations@.len() > 0,
            r matches Ok(m) ==> {
                &&& m.wf()
                &&& m.locations@ == locations@
                &&& m.selected_index == 0
                &&& m.current_index == 0
            },
            r is Err ==> r == Err::<StarMap, ConsoleError>(ConsoleError::InvalidConfiguration),
    {
        if locations.len() == 0 {
            Err(ConsoleError::InvalidConfiguration)
        } else {
            Ok(StarMap { locations, selected_index: 0, current_index: 0 })
        }
    }

    /// Moves the cursor one location left or right, cyclically over the
    /// whole location set: `(selected_index + len - 1) % len` for Left,
    /// `(selected_index + 1) % len` for Right. The ship's position and
    /// the locations are untouched.
    pub fn move_cursor(&mut self, direction: CursorDirection)
        requires
            old(self).wf(),
        ensures
            final(self).wf(),
            final(self).selected_index as int == match direction {
                CursorDirection::Left => previous_index(
                    old(self).selected_index as int,
                    old(self).locations@.len() as int,
                ),
                CursorDirection::Right => next_index(
                    old(self).selected_index as int,
                    old(self).locations@.len() as int,
                ),
            },
            final(self).current_index == old(self).current_index,
            final(self).locations@ == old(self).locations@,
    {
        let n = self.locations.len();
        match direction {
            CursorDirection::Left => {
                self.selected_index = previous_of(self.selected_index, n);
            },
            CursorDirection::Right => {
                self.selected_index = next_of(self.selected_index, n);
            },
        }
    }

    /// Confirms the cursor position. With the cursor away from the ship,
    /// commits travel: `current_index := selected_index`. With the cursor
    /// on the ship's location, travel is a no-op and the outcome reports
    /// an inspection instead. Either way `current_index` ends equal to
    /// `selected_index`, and cursor and locations are untouched.
    pub fn confirm(&mut self) -> (outcome: ConfirmOutcome)
        requires
            old(self).wf(),
        ensures
            final(self).wf(),
            final(self).current_index == old(self).selected_index,
            final(self).selected_index == old(self).selected_index,
            final(self).locations@ == old(self).locations@,
            outcome is Inspected <==> old(self).selected_index == old(self).current_index,
            outcome is Traveled <==> old(self).selected_index != old(self).current_index,
    {
        if self.selected_index == self.current_index {
            ConfirmOutcome::Inspected
        } else {
            self.current_index = self.selected_index;
            ConfirmOutcome::Traveled
        }
    }

    /// Routes one key press: Left and Right move the cursor, Enter
    /// confirms, every other key is ignored.
    pub fn handle_press_event(&mut self, key: Key)
        requires
            old(self).wf(),
        ensures
            final(self).wf(),
            final(self).locations@ == old(self).locations@,
            key is Left ==> {
                &&& final(self).selected_index as int == previous_index(
                    old(self).selected_index as int,
                    old(self).locations@.len() as int,
                )
                &&& final(self).current_index == old(self).current_index
            },
            key is Right ==> {
                &&& final(self).selected_index as int == next_index(
                    old(self).selected_index as int,
                    old(self).locations@.len() as int,
                )
                &&& final(self).current_index == old(self).current_index
            },
            key is Enter ==> {
                &&& final(self).current_index == old(self).selected_index
                &&& final(self).selected_index == old(self).selected_index
            },
            !(key is Left || key is Right || key is Enter) ==> *final(self) == *old(self),
    {
        match key {
            Key::Left => {
                self.move_cursor(CursorDirection::Left);
            },
            Key::Right => {
                self.move_cursor(CursorDirection::Right);
            },
            Key::Enter => {
                let _ = self.confirm();
            },
            _ => {},
        }
    }

    /// The decorations of the node at `index`: the "you are here" marker
    /// follows the ship, the highlight ring follows the cursor, and both
    /// compose when the two indices coincide.
    pub fn node_marking(&self, index: usize) -> (r: NodeMarking)
        ensures
            r.here <==> index == self.current_index,
            r.highlighted <==> index == self.selected_index,
    {
        NodeMarking {
            here: index == self.current_index,
            highlighted: index == self.selected_index,
        }
    }
}

} // verus!
