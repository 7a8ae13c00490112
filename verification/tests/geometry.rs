use window_commands::edge::Edge;
use window_commands::geometry::{Placement, Position, Size, STRIP_THICKNESS};

fn frame(width: i32, height: i32, x: i32, y: i32) -> Placement {
    Placement { size: Size { width, height }, position: Position { x, y } }
}

#[test]
fn strip_is_fifty_pixels_thick() {
    assert_eq!(STRIP_THICKNESS, 50);
}

#[test]
fn left_strip_on_full_hd() {
    assert_eq!(Placement::along(Edge::Left, 1920, 1080), frame(50, 1080, 0, 0));
}

#[test]
fn right_strip_on_full_hd() {
    assert_eq!(Placement::along(Edge::Right, 1920, 1080), frame(50, 1080, 1870, 0));
}

#[test]
fn top_strip_on_full_hd() {
    assert_eq!(Placement::along(Edge::Top, 1920, 1080), frame(1920, 50, 0, 0));
}

#[test]
fn bottom_strip_on_full_hd() {
    assert_eq!(Placement::along(Edge::Bottom, 1920, 1080), frame(1920, 50, 0, 1030));
}

#[test]
fn strips_on_a_screen_as_thick_as_a_strip() {
    assert_eq!(Placement::along(Edge::Left, 50, 50), frame(50, 50, 0, 0));
    assert_eq!(Placement::along(Edge::Right, 50, 50), frame(50, 50, 0, 0));
    assert_eq!(Placement::along(Edge::Top, 50, 50), frame(50, 50, 0, 0));
    assert_eq!(Placement::along(Edge::Bottom, 50, 50), frame(50, 50, 0, 0));
}

#[test]
fn strips_on_a_screen_thinner_than_a_strip() {
    assert_eq!(Placement::along(Edge::Left, 40, 30), frame(50, 30, 0, 0));
    assert_eq!(Placement::along(Edge::Right, 40, 30), frame(50, 30, -10, 0));
    assert_eq!(Placement::along(Edge::Top, 40, 30), frame(40, 50, 0, 0));
    assert_eq!(Placement::along(Edge::Bottom, 40, 30), frame(40, 50, 0, -20));
}

#[test]
fn strips_on_the_smallest_screen() {
    assert_eq!(Placement::along(Edge::Right, 1, 1), frame(50, 1, -49, 0));
    assert_eq!(Placement::along(Edge::Bottom, 1, 1), frame(1, 50, 0, -49));
}

#[test]
fn strips_on_the_largest_screen() {
    let max = i32::MAX;
    assert_eq!(Placement::along(Edge::Left, max, max), frame(50, max, 0, 0));
    assert_eq!(Placement::along(Edge::Right, max, max), frame(50, max, max - 50, 0));
    assert_eq!(Placement::along(Edge::Top, max, max), frame(max, 50, 0, 0));
    assert_eq!(Placement::along(Edge::Bottom, max, max), frame(max, 50, 0, max - 50));
}

#[test]
fn width_and_height_are_not_mixed_up() {
    assert_eq!(Placement::along(Edge::Right, 800, 600), frame(50, 600, 750, 0));
    assert_eq!(Placement::along(Edge::Bottom, 800, 600), frame(800, 50, 0, 550));
}
