//! The frame composer: the single top-level session state and its input
//! routing, plus the layout derivation of one frame.
//!
//! The menu and the star map are simultaneously active panels, as the
//! console renders them, so routing is fixed rather than modal and each
//! key press maps to exactly one handler: `q` requests exit, Up and Down
//! drive the menu selection, Left and Right move the star-map cursor,
//! Enter confirms the cursor position, and every other key is ignored.

use vstd::prelude::*;
use crate::cyclic::{next_index, previous_index};
use crate::error::ConsoleError;
use crate::input::Key;
use crate::layout::{
    split, split_regions, Axis, Constraint, Region,
};
use crate::layout::{extent_of, fixed_sum, fixed_sum_first, has_percentage, region_within};
use crate::layout::lemma_split_within_parent;
use crate::menu::{menu_step, MenuDirection, MenuItem, MenuState};
use crate::star_map::{default_locations, CursorDirection, StarMap};

verus! {

/// The whole session state: the menu selection, the star map, and the
/// quit flag checked once per loop iteration.
#[derive(Debug)]
pub struct App {
    pub menu: MenuState,
    pub star_map: StarMap,
    pub exit: bool,
}

impl App {
    /// The session's one invariant is the star map's.
    pub open spec fn wf(self) -> bool {
        self.star_map.wf()
    }

    /// A fresh session: first menu item selected, the default star map
    /// with cursor and ship at the first location, exit not requested.
    pub fn new() -> (app: App)
        ensures
            app.wf(),
            app.menu.selected == MenuItem::MapView,
            app.star_map.locations@ == default_locations(),
            app.star_map.selected_index == 0,
            app.star_map.current_index == 0,
            !app.exit,
    {
        App { menu: MenuState::new(), star_map: StarMap::new(), exit: false }
    }

    /// Routes one key press to exactly one handler: `q` sets the exit
    /// flag, Up and Down step the menu selection backward and forward,
    /// Left and Right move the star-map cursor, Enter confirms the
    /// cursor position (committing travel when the cursor is away from
    /// the ship), and any other key changes nothing.
    pub fn handle_press_event(&mut self, key: Key)
        requires
            old(self).wf(),
        ensures
            final(self).wf(),
            final(self).exit == (match key {
                Key::Char(c) => c == 'q' || old(self).exit,
                _ => old(self).exit,
            }),
            final(self).menu.selected == (match key {
                Key::Up => menu_step(old(self).menu.selected, MenuDirection::Previous),
                Key::Down => menu_step(old(self).menu.selected, MenuDirection::Next),
                _ => old(self).menu.selected,
            }),
            final(self).star_map.locations@ == old(self).star_map.locations@,
            final(self).star_map.selected_index as int == (match key {
                Key::Left => previous_index(
                    old(self).star_map.selected_index as int,
                    old(self).star_map.locations@.len() as int,
                ),
                Key::Right => next_index(
                    old(self).star_map.selected_index as int,
                    old(self).star_map.locations@.len() as int,
                ),
                _ => old(self).star_map.selected_index as int,
            }),
            final(self).star_map.current_index == (match key {
                Key::Enter => old(self).star_map.selected_index,
                _ => old(self).star_map.current_index,
            }),
    {
        match key {
            Key::Char(c) => {
                if c == 'q' {
                    self.exit = true;
                }
            },
            Key::Up => {
                self.menu.advance(MenuDirection::Previous);
            },
            Key::Down => {
                self.menu.advance(MenuDirection::Next);
            },
            Key::Left => {
                self.star_map.move_cursor(CursorDirection::Left);
            },
            Key::Right => {
                self.star_map.move_cursor(CursorDirection::Right);
            },
            Key::Enter => {
                let _ = self.star_map.confirm();
            },
            Key::Other => {},
        }
    }
}

/// The two columns of the frame: the left command column and the main
/// panel.
pub open spec fn root_columns_spec() -> Seq<Constraint> {
    seq![Constraint::Percentage(35), Constraint::Percentage(65)]
}

/// The three bands of the left column: title banner, menu, ship status.
pub open spec fn left_rows_spec() -> Seq<Constraint> {
    seq![Constraint::Percentage(35), Constraint::Percentage(25), Constraint::Percentage(40)]
}

/// The vertical padding around the menu list inside the menu band.
pub open spec fn menu_band_spec() -> Seq<Constraint> {
    seq![Constraint::Percentage(25), Constraint::Percentage(50), Constraint::Percentage(25)]
}

/// One three-row band per gauge of the ship-status panel.
pub open spec fn gauge_rows_spec() -> Seq<Constraint> {
    seq![Constraint::Fixed(3), Constraint::Fixed(3), Constraint::Fixed(3)]
}

/// The constraint list of `gauge_rows_spec`, for splitting the
/// ship-status panel into its gauge rows.
pub fn gauge_row_constraints() -> (v: Vec<Constraint>)
    ensures
        v@ == gauge_rows_spec(),
{
    let mut v: Vec<Constraint> = Vec::new();
    v.push(Constraint::Fixed(3));
    v.push(Constraint::Fixed(3));
    v.push(Constraint::Fixed(3));
    proof {
        assert(v@ =~= gauge_rows_spec());
    }
    v
}

/// The named regions of one frame, all lying within the screen region
/// they were derived from.
#[derive(Clone, Copy, Debug, PartialEq, Eq, Structural)]
pub struct FrameLayout {
    /// Top of the left column: the banner block.
    pub title: Region,
    /// Middle of the left column: the menu block.
    pub menu_block: Region,
    /// Center band of the menu block, holding the item list.
    pub menu_list: Region,
    /// Bottom of the left column: the ship-status block.
    pub ship_status: Region,
    /// The right column: the panel of the selected screen.
    pub main_panel: Region,
}

/// A percentage-only constraint list demands no fixed cells, so it splits
/// any region.
proof fn lemma_percentage_lists_split(cs: Seq<Constraint>)
    requires
        cs == root_columns_spec() || cs == left_rows_spec() || cs == menu_band_spec(),
    ensures
        fixed_sum(cs) == 0,
        has_percentage(cs),
{
    reveal_with_fuel(fixed_sum_first, 5);
    assert(cs[0] is Percentage);
}

/// Derives the region tree of one frame from the screen region: the
/// screen splits 35/65 into the left column and the main panel, the left
/// column splits 35/25/40 into title, menu and ship status, and the menu
/// band keeps its middle half for the item list. Every region lies
/// within the screen.
pub fn compute_frame_layout(screen: Region) -> (r: FrameLayout)
    requires
        screen.wf(),
    ensures
        ({
            let cols = split_regions(screen, Axis::Horizontal, root_columns_spec());
            let rows = split_regions(cols[0], Axis::Vertical, left_rows_spec());
            let band = split_regions(rows[1], Axis::Vertical, menu_band_spec());
            &&& r.title == rows[0]
            &&& r.menu_block == rows[1]
            &&& r.menu_list == band[1]
            &&& r.ship_status == rows[2]
            &&& r.main_panel == cols[1]
        }),
        region_within(r.title, screen),
        region_within(r.menu_block, screen),
        region_within(r.menu_list, screen),
        region_within(r.ship_status, screen),
        region_within(r.main_panel, screen),
{
    let mut root_columns: Vec<Constraint> = Vec::new();
    root_columns.push(Constraint::Percentage(35));
    root_columns.push(Constraint::Percentage(65));
    let mut left_rows: Vec<Constraint> = Vec::new();
    left_rows.push(Constraint::Percentage(35));
    left_rows.push(Constraint::Percentage(25));
    left_rows.push(Constraint::Percentage(40));
    let mut menu_band: Vec<Constraint> = Vec::new();
    menu_band.push(Constraint::Percentage(25));
    menu_band.push(Constraint::Percentage(50));
    menu_band.push(Constraint::Percentage(25));
    proof {
        assert(root_columns@ =~= root_columns_spec());
        assert(left_rows@ =~= left_rows_spec());
        assert(menu_band@ =~= menu_band_spec());
        lemma_percentage_lists_split(root_columns@);
        lemma_percentage_lists_split(left_rows@);
        lemma_percentage_lists_split(menu_band@);
        lemma_split_within_parent(screen, Axis::Horizontal, root_columns@);
    }
    let cols = match split(screen, Axis::Horizontal, &root_columns) {
        Ok(parts) => parts,
        Err(_) => vstd::pervasive::unreached(),
    };
    let left = cols[0];
    let main_panel = cols[1];
    proof {
        assert(region_within(left, screen) && region_within(main_panel, screen));
        lemma_split_within_parent(left, Axis::Vertical, left_rows@);
    }
    let rows = match split(left, Axis::Vertical, &left_rows) {
        Ok(parts) => parts,
        Err(_) => vstd::pervasive::unreached(),
    };
    let title = rows[0];
    let menu_block = rows[1];
    let ship_status = rows[2];
    proof {
        assert(region_within(menu_block, left));
        lemma_split_within_parent(menu_block, Axis::Vertical, menu_band@);
    }
    let band = match split(menu_block, Axis::Vertical, &menu_band) {
        Ok(parts) => parts,
        Err(_) => vstd::pervasive::unreached(),
    };
    let menu_list = band[1];
    FrameLayout { title, menu_block, menu_list, ship_status, main_panel }
}

/// Splits the inner area of the ship-status block into its three gauge
/// rows. Fails with `InvalidLayout` exactly when the area is under nine
/// rows tall.
pub fn ship_status_rows(inner: Region) -> (r: Result<Vec<Region>, ConsoleError>)
    requires
        inner.wf(),
    ensures
        r is Ok <==> inner.height >= 9,
        r matches Ok(parts) ==> parts@ == split_regions(inner, Axis::Vertical, gauge_rows_spec()),
        r is Err ==> r == Err::<Vec<Region>, ConsoleError>(ConsoleError::InvalidLayout),
{
    proof {
        reveal_with_fuel(fixed_sum_first, 5);
        assert(fixed_sum(gauge_rows_spec()) == 9);
        assert(extent_of(inner, Axis::Vertical) == inner.height as int);
    }
    let rows = gauge_row_constraints();
    split(inner, Axis::Vertical, &rows)
}

} // verus!
