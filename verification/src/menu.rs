//! The main-menu selector: a cyclic selection over the closed list of
//! menu items. Stepping past the last item wraps to the first and stepping
//! before the first wraps to the last, by the same index arithmetic in both
//! directions.

use vstd::prelude::*;
use crate::cyclic::{next_index, next_of, previous_index, previous_of};

verus! {

/// Number of menu items.
pub const MENU_LEN: usize = 3;

/// The items of the main menu: a closed enumeration with a stable ordinal
/// `0..MENU_LEN` in declaration order and a display label.
#[derive(Clone, Copy, Debug, PartialEq, Eq, Structural)]
pub enum MenuItem {
    MapView,
    Crew,
    Info,
}

/// Direction of one cyclic step through the menu.
#[derive(Clone, Copy, Debug, PartialEq, Eq, Structural)]
pub enum MenuDirection {
    Next,
    Previous,
}

impl MenuItem {
    /// Ordinal of the item in the closed list.
    pub open spec fn ordinal_spec(self) -> int {
        match self {
            MenuItem::MapView => 0,
            MenuItem::Crew => 1,
            MenuItem::Info => 2,
        }
    }

    /// The item with the given ordinal.
    pub open spec fn from_ordinal_spec(k: int) -> MenuItem {
        if k == 0 {
            MenuItem::MapView
        } else if k == 1 {
            MenuItem::Crew
        } else {
            MenuItem::Info
        }
    }

    /// Ordinal of the item in the closed list.
    pub fn ordinal(self) -> (r: usize)
        ensures
            r as int == self.ordinal_spec(),
            r < MENU_LEN,
    {
        match self {
            MenuItem::MapView => 0,
            MenuItem::Crew => 1,
            MenuItem::Info => 2,
        }
    }

    /// The item with the given ordinal.
    pub fn from_ordinal(k: usize) -> (r: MenuItem)
        requires
            k < MENU_LEN,
        ensures
            r == MenuItem::from_ordinal_spec(k as int),
            r.ordinal_spec() == k as int,
    {
        if k == 0 {
            MenuItem::MapView
        } else if k == 1 {
            MenuItem::Crew
        } else {
            MenuItem::Info
        }
    }

    /// Display label of the item.
    pub fn label(self) -> (r: &'static str)
        ensures
            self is MapView ==> r@ == "Map"@,
            self is Crew ==> r@ == "Crew"@,
            self is Info ==> r@ == "Info"@,
    {
        match self {
            MenuItem::MapView => "Map",
            MenuItem::Crew => "Crew",
            MenuItem::Info => "Info",
        }
    }
}

/// The menu item one cyclic step from `item` in direction `direction`,
/// as the explicit closed list of successors and predecessors. The lemma
/// below states the same step as ordinal arithmetic.
pub open spec fn menu_step(item: MenuItem, direction: MenuDirection) -> MenuItem {
    match direction {
        MenuDirection::Next => match item {
            MenuItem::MapView => MenuItem::Crew,
            MenuItem::Crew => MenuItem::Info,
            MenuItem::Info => MenuItem::MapView,
        },
        MenuDirection::Previous => match item {
            MenuItem::MapView => MenuItem::Info,
            MenuItem::Crew => MenuItem::MapView,
            MenuItem::Info => MenuItem::Crew,
        },
    }
}

/// The explicit step table follows the single cyclic-ordinal formula
/// `(k + d + MENU_LEN) % MENU_LEN` with `d` either `+1` or `-1`, so both
/// directions wrap by the same arithmetic.
pub proof fn lemma_menu_step_ordinal(item: MenuItem, direction: MenuDirection)
    ensures
        menu_step(item, direction).ordinal_spec() == match direction {
            MenuDirection::Next => next_index(item.ordinal_spec(), MENU_LEN as int),
            MenuDirection::Previous => previous_index(item.ordinal_spec(), MENU_LEN as int),
        },
{
}

/// The selection state of the main menu. `selected` is always a member of
/// the closed enumeration, so there is no out-of-range state to guard.
#[derive(Clone, Copy, Debug, PartialEq, Eq, Structural)]
pub struct MenuState {
    pub selected: MenuItem,
}

impl MenuState {
    /// A fresh session starts with the first menu item selected.
    pub fn new() -> (s: MenuState)
        ensures
            s.selected == MenuItem::MapView,
    {
        MenuState { selected: MenuItem::MapView }
    }

    /// The currently highlighted item.
    pub fn current(&self) -> (r: MenuItem)
        ensures
            r == self.selected,
    {
        self.selected
    }

    /// Moves the selection to the adjacent enumeration member, cyclically:
    /// `Next` past the last item wraps to the first, `Previous` before the
    /// first wraps to the last.
    pub fn advance(&mut self, direction: MenuDirection)
        ensures
            final(self).selected == menu_step(old(self).selected, direction),
            final(self).selected.ordinal_spec() == match direction {
                MenuDirection::Next => next_index(
                    old(self).selected.ordinal_spec(),
                    MENU_LEN as int,
                ),
                MenuDirection::Previous => previous_index(
                    old(self).selected.ordinal_spec(),
                    MENU_LEN as int,
                ),
            },
    {
        let k = self.selected.ordinal();
        let stepped = match direction {
            MenuDirection::Next => next_of(k, MENU_LEN),
            MenuDirection::Previous => previous_of(k, MENU_LEN),
        };
        self.selected = MenuItem::from_ordinal(stepped);
    }
}

/// Cyclic closure of the menu: from any item, advancing `Next` once per
/// member of the enumeration returns to that item, and likewise advancing
/// `Previous` once per member.
pub proof fn lemma_menu_cycle(item: MenuItem)
    ensures
        menu_step(menu_step(menu_step(item, MenuDirection::Next), MenuDirection::Next),
            MenuDirection::Next) == item,
        menu_step(menu_step(menu_step(item, MenuDirection::Previous), MenuDirection::Previous),
            MenuDirection::Previous) == item,
{
}

/// Inverse pair: from any selection, `Previous` followed by `Next` returns
/// to the original item, and symmetrically `Next` followed by `Previous`.
/// Wrap-around is symmetric in the two directions.
pub proof fn lemma_menu_step_inverse(item: MenuItem)
    ensures
        menu_step(menu_step(item, MenuDirection::Previous), MenuDirection::Next) == item,
        menu_step(menu_step(item, MenuDirection::Next), MenuDirection::Previous) == item,
{
}

} // verus!
