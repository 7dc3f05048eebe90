use ship_console::app::App;
use ship_console::color::Color;
use ship_console::error::ConsoleError;
use ship_console::input::Key;
use ship_console::menu::MenuItem;
use ship_console::star_map::{Location, StarMap};

#[test]
fn fresh_session_state() {
    let app = App::new();
    assert!(!app.exit);
    assert_eq!(app.menu.selected, MenuItem::MapView);
    assert_eq!(app.star_map.selected_index, 0);
    assert_eq!(app.star_map.current_index, 0);
    assert_eq!(app.star_map.locations.len(), 3);
}

#[test]
fn menu_walk_wraps_forward_and_backward() {
    let mut app = App::new();
    assert_eq!(app.menu.selected, MenuItem::MapView);
    app.handle_press_event(Key::Down);
    assert_eq!(app.menu.selected, MenuItem::Crew);
    app.handle_press_event(Key::Down);
    assert_eq!(app.menu.selected, MenuItem::Info);
    app.handle_press_event(Key::Down);
    assert_eq!(app.menu.selected, MenuItem::MapView);
    app.handle_press_event(Key::Up);
    assert_eq!(app.menu.selected, MenuItem::Info);
}

#[test]
fn quit_key_requests_exit_and_changes_nothing_else() {
    let mut app = App::new();
    app.handle_press_event(Key::Char('q'));
    assert!(app.exit);
    assert_eq!(app.menu.selected, MenuItem::MapView);
    assert_eq!(app.star_map.selected_index, 0);
    assert_eq!(app.star_map.current_index, 0);
}

#[test]
fn unbound_keys_are_ignored() {
    let mut app = App::new();
    app.handle_press_event(Key::Char('z'));
    app.handle_press_event(Key::Other);
    assert!(!app.exit);
    assert_eq!(app.menu.selected, MenuItem::MapView);
    assert_eq!(app.star_map.selected_index, 0);
    assert_eq!(app.star_map.current_index, 0);
}

#[test]
fn map_keys_route_to_the_star_map_only() {
    let mut app = App::new();
    app.handle_press_event(Key::Right);
    app.handle_press_event(Key::Enter);
    assert_eq!(app.star_map.selected_index, 1);
    assert_eq!(app.star_map.current_index, 1);
    assert_eq!(app.menu.selected, MenuItem::MapView);
    assert!(!app.exit);
    app.handle_press_event(Key::Left);
    assert_eq!(app.star_map.selected_index, 0);
    assert_eq!(app.star_map.current_index, 1);
}

#[test]
fn star_map_rejects_zero_locations() {
    let result = StarMap::from_locations(Vec::new());
    assert_eq!(result.err(), Some(ConsoleError::InvalidConfiguration));
}

#[test]
fn star_map_accepts_any_non_empty_location_list() {
    let locations = vec![
        Location::new(10, 10, 2, Color::White),
        Location::new(90, 90, 4, Color::Green),
    ];
    let sm = StarMap::from_locations(locations).unwrap();
    assert_eq!(sm.locations.len(), 2);
    assert_eq!(sm.selected_index, 0);
    assert_eq!(sm.current_index, 0);
}

#[test]
fn error_messages_name_their_condition() {
    assert_eq!(
        ConsoleError::InvalidConfiguration.message(),
        "star map needs at least one location"
    );
    assert_eq!(ConsoleError::InvalidLayout.message(), "fixed constraints exceed the region");
}

#[test]
fn default_locations_match_the_chart() {
    let sm = StarMap::new();
    let expected = [
        (50, 80, 5, Color::Magenta),
        (30, 20, 8, Color::Red),
        (80, 30, 3, Color::LightGreen),
    ];
    for (loc, (x, y, radius, color)) in sm.locations.iter().zip(expected) {
        assert_eq!(loc.x, x);
        assert_eq!(loc.y, y);
        assert_eq!(loc.radius, radius);
        assert_eq!(loc.color, color);
    }
}
