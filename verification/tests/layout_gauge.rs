use ship_console::app::{compute_frame_layout, gauge_row_constraints, ship_status_rows};
use ship_console::color::Color;
use ship_console::error::ConsoleError;
use ship_console::gauge::{clamp_ratio, MyGauge, ShipStatus, RATIO_SCALE};
use ship_console::layout::{split, Axis, Constraint, Region};

fn region(x: u16, y: u16, width: u16, height: u16) -> Region {
    Region { x, y, width, height }
}

#[test]
fn split_three_fixed_rows_of_ten() {
    let parent = region(0, 0, 4, 10);
    let constraints = vec![Constraint::Fixed(3), Constraint::Fixed(3), Constraint::Fixed(3)];
    let parts = split(parent, Axis::Vertical, &constraints).unwrap();
    assert_eq!(parts.len(), 3);
    assert_eq!(parts[0], region(0, 0, 4, 3));
    assert_eq!(parts[1], region(0, 3, 4, 3));
    assert_eq!(parts[2], region(0, 6, 4, 3));
    let mut consumed = 0;
    for part in &parts {
        assert!(part.y >= parent.y);
        assert!(part.y + part.height <= parent.y + parent.height);
        assert_eq!(part.x, parent.x);
        assert_eq!(part.width, parent.width);
        consumed += part.height;
    }
    assert_eq!(consumed, 9);
}

#[test]
fn split_fails_when_fixed_sizes_exceed_extent() {
    let parent = region(0, 0, 4, 10);
    let constraints = vec![Constraint::Fixed(6), Constraint::Fixed(6)];
    let result = split(parent, Axis::Vertical, &constraints);
    assert_eq!(result, Err(ConsoleError::InvalidLayout));
}

#[test]
fn split_percentages_tile_the_whole_extent() {
    let parent = region(2, 1, 10, 8);
    let constraints = vec![
        Constraint::Percentage(25),
        Constraint::Percentage(50),
        Constraint::Percentage(25),
    ];
    let parts = split(parent, Axis::Horizontal, &constraints).unwrap();
    assert_eq!(parts[0], region(2, 1, 2, 8));
    assert_eq!(parts[1], region(4, 1, 5, 8));
    assert_eq!(parts[2], region(9, 1, 3, 8));
}

#[test]
fn split_mixed_constraints() {
    let parent = region(0, 0, 1, 10);
    let constraints = vec![Constraint::Fixed(3), Constraint::Percentage(50), Constraint::Percentage(50)];
    let parts = split(parent, Axis::Vertical, &constraints).unwrap();
    assert_eq!(parts[0].height, 3);
    assert_eq!(parts[1].height, 3);
    assert_eq!(parts[2].height, 4);
}

#[test]
fn split_empty_constraint_list_gives_no_regions() {
    let parent = region(0, 0, 5, 5);
    let parts = split(parent, Axis::Horizontal, &Vec::new()).unwrap();
    assert!(parts.is_empty());
}

#[test]
fn frame_layout_regions_stay_on_screen() {
    let screen = region(0, 0, 100, 50);
    let frame = compute_frame_layout(screen);
    assert_eq!(frame.title, region(0, 0, 35, 17));
    assert_eq!(frame.menu_block, region(0, 17, 35, 12));
    assert_eq!(frame.menu_list, region(0, 20, 35, 6));
    assert_eq!(frame.ship_status, region(0, 29, 35, 21));
    assert_eq!(frame.main_panel, region(35, 0, 65, 50));
}

#[test]
fn ship_status_rows_need_nine_lines() {
    let ok = ship_status_rows(region(0, 0, 20, 9)).unwrap();
    assert_eq!(ok.len(), 3);
    assert_eq!(ok[0].height, 3);
    assert_eq!(ok[1].y, 3);
    assert_eq!(ok[2].y, 6);
    assert_eq!(ship_status_rows(region(0, 0, 20, 8)), Err(ConsoleError::InvalidLayout));
}

#[test]
fn gauge_row_constraints_are_three_fixed_threes() {
    let rows = gauge_row_constraints();
    assert_eq!(rows, vec![Constraint::Fixed(3), Constraint::Fixed(3), Constraint::Fixed(3)]);
}

#[test]
fn ratio_clamping_saturates_and_is_idempotent() {
    assert_eq!(clamp_ratio(1500), clamp_ratio(1000));
    assert_eq!(clamp_ratio(-200), clamp_ratio(0));
    assert_eq!(clamp_ratio(1500), RATIO_SCALE);
    assert_eq!(clamp_ratio(-200), 0);
    assert_eq!(clamp_ratio(637), 637);
    assert_eq!(clamp_ratio(clamp_ratio(i64::MAX) as i64), clamp_ratio(i64::MAX));
}

#[test]
fn out_of_range_gauges_render_as_their_clamped_twins() {
    let over = MyGauge::new("Power", 1500, Color::Yellow);
    let full = MyGauge::new("Power", 1000, Color::Yellow);
    assert_eq!(over.value, full.value);
    assert_eq!(over.name, full.name);
    assert_eq!(over.color, full.color);
    let under = MyGauge::new("Fuel", -200, Color::Red);
    let empty = MyGauge::new("Fuel", 0, Color::Red);
    assert_eq!(under.value, empty.value);
}

#[test]
fn ship_status_holds_the_console_gauges() {
    let status = ShipStatus::new();
    assert_eq!(status.shields.name, "Shields");
    assert_eq!(status.shields.value, 900);
    assert_eq!(status.shields.color, Color::Blue);
    assert_eq!(status.power.name, "Power");
    assert_eq!(status.power.value, 500);
    assert_eq!(status.power.color, Color::Yellow);
    assert_eq!(status.fuel.name, "Fuel");
    assert_eq!(status.fuel.value, 300);
    assert_eq!(status.fuel.color, Color::Red);
}
