use ship_console::input::Key;
use ship_console::menu::{MenuDirection, MenuItem, MenuState};
use ship_console::star_map::{ConfirmOutcome, CursorDirection, StarMap};

#[test]
fn menu_next_cycles_through_all_items() {
    let mut m = MenuState::new();
    assert_eq!(m.current(), MenuItem::MapView);
    m.advance(MenuDirection::Next);
    assert_eq!(m.current(), MenuItem::Crew);
    m.advance(MenuDirection::Next);
    assert_eq!(m.current(), MenuItem::Info);
    m.advance(MenuDirection::Next);
    assert_eq!(m.current(), MenuItem::MapView);
}

#[test]
fn menu_previous_cycles_through_all_items() {
    let mut m = MenuState::new();
    m.advance(MenuDirection::Previous);
    assert_eq!(m.current(), MenuItem::Info);
    m.advance(MenuDirection::Previous);
    assert_eq!(m.current(), MenuItem::Crew);
    m.advance(MenuDirection::Previous);
    assert_eq!(m.current(), MenuItem::MapView);
}

#[test]
fn menu_previous_then_next_is_identity_from_every_item() {
    for start in [MenuItem::MapView, MenuItem::Crew, MenuItem::Info] {
        let mut m = MenuState { selected: start };
        m.advance(MenuDirection::Previous);
        m.advance(MenuDirection::Next);
        assert_eq!(m.current(), start);
        m.advance(MenuDirection::Next);
        m.advance(MenuDirection::Previous);
        assert_eq!(m.current(), start);
    }
}

#[test]
fn menu_labels() {
    assert_eq!(MenuItem::MapView.label(), "Map");
    assert_eq!(MenuItem::Crew.label(), "Crew");
    assert_eq!(MenuItem::Info.label(), "Info");
}

#[test]
fn star_map_travel_scenario() {
    let mut sm = StarMap::new();
    assert_eq!(sm.current_index, 0);
    sm.move_cursor(CursorDirection::Right);
    sm.move_cursor(CursorDirection::Right);
    assert_eq!(sm.selected_index, 2);
    assert_eq!(sm.current_index, 0);
    let outcome = sm.confirm();
    assert_eq!(outcome, ConfirmOutcome::Traveled);
    assert_eq!(sm.current_index, 2);
    assert_eq!(sm.selected_index, 2);
    let outcome = sm.confirm();
    assert_eq!(outcome, ConfirmOutcome::Inspected);
    assert_eq!(sm.current_index, 2);
}

#[test]
fn star_map_cursor_wraps_both_ways() {
    let mut sm = StarMap::new();
    sm.move_cursor(CursorDirection::Left);
    assert_eq!(sm.selected_index, 2);
    sm.move_cursor(CursorDirection::Right);
    assert_eq!(sm.selected_index, 0);
}

#[test]
fn star_map_cursor_stays_in_range_over_any_walk() {
    let mut sm = StarMap::new();
    let walk = [
        CursorDirection::Left,
        CursorDirection::Left,
        CursorDirection::Right,
        CursorDirection::Left,
        CursorDirection::Right,
        CursorDirection::Right,
        CursorDirection::Right,
        CursorDirection::Left,
    ];
    for step in walk {
        sm.move_cursor(step);
        assert!(sm.selected_index < sm.locations.len());
    }
}

#[test]
fn star_map_cursor_movement_never_travels() {
    let mut sm = StarMap::new();
    for _ in 0..7 {
        sm.move_cursor(CursorDirection::Right);
        assert_eq!(sm.current_index, 0);
    }
}

#[test]
fn star_map_key_routing() {
    let mut sm = StarMap::new();
    sm.handle_press_event(Key::Right);
    assert_eq!(sm.selected_index, 1);
    sm.handle_press_event(Key::Left);
    assert_eq!(sm.selected_index, 0);
    sm.handle_press_event(Key::Right);
    sm.handle_press_event(Key::Enter);
    assert_eq!(sm.current_index, 1);
    sm.handle_press_event(Key::Up);
    sm.handle_press_event(Key::Char('x'));
    sm.handle_press_event(Key::Other);
    assert_eq!(sm.selected_index, 1);
    assert_eq!(sm.current_index, 1);
}

#[test]
fn star_map_node_markings_compose() {
    let mut sm = StarMap::new();
    let at_both = sm.node_marking(0);
    assert!(at_both.here && at_both.highlighted);
    sm.move_cursor(CursorDirection::Right);
    let at_ship = sm.node_marking(0);
    assert!(at_ship.here && !at_ship.highlighted);
    let at_cursor = sm.node_marking(1);
    assert!(!at_cursor.here && at_cursor.highlighted);
    let elsewhere = sm.node_marking(2);
    assert!(!elsewhere.here && !elsewhere.highlighted);
}
