use picipaint::numeric::floor_div;
use picipaint::numeric::isqrt;
use picipaint::numeric::saturate_wide;
use picipaint::numeric::saturating_difference;
use picipaint::numeric::saturating_sum;
use picipaint::primitives::solve_line;
use picipaint::primitives::squared_distance;
use picipaint::primitives::Camera;
use picipaint::primitives::Color;
use picipaint::primitives::Number;
use picipaint::primitives::Rectangle;
use picipaint::primitives::RectangleVertex;
use picipaint::primitives::ScreenSpace;
use picipaint::primitives::Stroke;
use picipaint::primitives::Vector2;
use picipaint::primitives::WorldSpace;
use picipaint::primitives::ZOOM_MIN;
use picipaint::primitives::ZOOM_UNIT;

fn world(x: i32, y: i32) -> Vector2<WorldSpace> {
    Vector2::new(x, y)
}

fn screen(x: i32, y: i32) -> Vector2<ScreenSpace> {
    Vector2::new(x, y)
}

fn rect(x1: i32, y1: i32, x2: i32, y2: i32) -> Rectangle<WorldSpace> {
    Rectangle { p1: world(x1, y1), p2: world(x2, y2) }
}

#[test]
fn saturation_holds_values_at_the_ends_of_the_range() {
    assert_eq!(saturate_wide(0), 0);
    assert_eq!(saturate_wide(-7), -7);
    assert_eq!(saturate_wide(2147483647), i32::MAX);
    assert_eq!(saturate_wide(2147483648), i32::MAX);
    assert_eq!(saturate_wide(-2147483648), i32::MIN);
    assert_eq!(saturate_wide(-2147483649), i32::MIN);
    assert_eq!(saturating_sum(i32::MAX, 1), i32::MAX);
    assert_eq!(saturating_sum(i32::MIN, -1), i32::MIN);
    assert_eq!(saturating_sum(3, 4), 7);
    assert_eq!(saturating_difference(i32::MIN, 1), i32::MIN);
    assert_eq!(saturating_difference(0, i32::MIN), i32::MAX);
    assert_eq!(saturating_difference(3, 4), -1);
}

#[test]
fn floor_division_rounds_towards_minus_infinity() {
    assert_eq!(floor_div(7, 2), 3);
    assert_eq!(floor_div(6, 2), 3);
    assert_eq!(floor_div(0, 5), 0);
    assert_eq!(floor_div(-1, 2), -1);
    assert_eq!(floor_div(-2, 2), -1);
    assert_eq!(floor_div(-3, 2), -2);
    assert_eq!(floor_div(-7, 3), -3);
    assert_eq!(floor_div(i128::MIN, 1), i128::MIN);
}

#[test]
fn integer_square_root_is_exact_on_squares_and_rounds_down() {
    assert_eq!(isqrt(0), 0);
    assert_eq!(isqrt(1), 1);
    assert_eq!(isqrt(2), 1);
    assert_eq!(isqrt(3), 1);
    assert_eq!(isqrt(4), 2);
    assert_eq!(isqrt(24), 4);
    assert_eq!(isqrt(25), 5);
    assert_eq!(isqrt(26), 5);
    assert_eq!(isqrt(1_000_000), 1000);
    assert_eq!(isqrt(999_999), 999);
    assert_eq!(isqrt(u128::MAX), u64::MAX);
}

#[test]
fn vector_arithmetic() {
    assert_eq!(world(1, 2).plus(world(10, 20)), world(11, 22));
    assert_eq!(world(1, 2).minus(world(10, 20)), world(-9, -18));
    assert_eq!(world(i32::MAX, 0).plus(world(1, 1)), world(i32::MAX, 1));
    assert_eq!(Vector2::<WorldSpace>::zero(), world(0, 0));
    assert_eq!(world(3, 4).length_squared(), 25);
    assert_eq!(world(3, 4).length(), 5);
    assert_eq!(world(1, 1).length(), 1);
    assert_eq!(world(i32::MIN, i32::MIN).length_squared(), 1u64 << 63);
    assert_eq!(world(0, 0).distance_squared(world(3, 4)), 25);
    assert_eq!(world(-1, -1).distance(world(2, 3)), 5);
    assert_eq!(squared_distance(i32::MIN, i32::MIN, i32::MAX, i32::MAX), 2 * (4294967295u128 * 4294967295u128));
    assert!(world(1, 2).same_point(world(1, 2)));
    assert!(!world(1, 2).same_point(world(1, 3)));
    assert_eq!(Number::<WorldSpace>::new(3).plus(Number::new(4)), Number::new(7));
    assert_eq!(Number::<WorldSpace>::new(3).minus(Number::new(4)), Number::new(-1));
}

#[test]
fn rectangle_constructors() {
    assert_eq!(
        Rectangle::from_point_and_size(world(1, 2), Number::new(10), Number::new(20)),
        rect(1, 2, 11, 22)
    );
    assert_eq!(Rectangle::from_points_well_ordered(world(5, 1), world(2, 7)), rect(2, 1, 5, 7));
    assert_eq!(Rectangle::from_points_well_ordered(world(2, 7), world(5, 1)), rect(2, 1, 5, 7));
    assert_eq!(Rectangle::from_points_well_ordered(world(2, 1), world(5, 7)), rect(2, 1, 5, 7));
    assert_eq!(rect(0, 0, 10, 10).shifted_with(world(3, -4)), rect(3, -4, 13, 6));
    assert_eq!(rect(1, 2, 11, 22).width(), Number::new(10));
    assert_eq!(rect(1, 2, 11, 22).height(), Number::new(20));
}

#[test]
fn rectangle_contains_its_border() {
    let r = rect(0, 0, 10, 10);
    assert!(r.contains_point(world(0, 0)));
    assert!(r.contains_point(world(10, 10)));
    assert!(r.contains_point(world(5, 10)));
    assert!(r.contains_point(world(5, 5)));
    assert!(!r.contains_point(world(11, 5)));
    assert!(!r.contains_point(world(5, -1)));
    assert!(!r.contains_point(world(-1, 5)));
    assert!(!r.contains_point(world(5, 11)));
}

#[test]
fn rectangle_vertices_come_in_a_fixed_order() {
    let r = rect(1, 2, 3, 4);
    assert_eq!(r.vertices(), [world(1, 2), world(3, 2), world(3, 4), world(1, 4)]);
    assert_eq!(r.vertex(RectangleVertex::TopLeft), world(1, 2));
    assert_eq!(r.vertex(RectangleVertex::TopRight), world(3, 2));
    assert_eq!(r.vertex(RectangleVertex::BottomRight), world(3, 4));
    assert_eq!(r.vertex(RectangleVertex::BottomLeft), world(1, 4));
}

#[test]
fn vertex_under_point_takes_the_first_match() {
    let r = rect(0, 0, 4, 4);
    let radius = Number::new(3);
    // Within the radius of one corner only.
    assert_eq!(r.vertex_under_point(world(0, 0), Number::new(1)), Some(RectangleVertex::TopLeft));
    assert_eq!(r.vertex_under_point(world(4, 0), Number::new(1)), Some(RectangleVertex::TopRight));
    assert_eq!(r.vertex_under_point(world(4, 4), Number::new(1)), Some(RectangleVertex::BottomRight));
    assert_eq!(r.vertex_under_point(world(0, 4), Number::new(1)), Some(RectangleVertex::BottomLeft));
    // Within the radius of two corners: the earlier one in the order
    // top-left, top-right, bottom-right, bottom-left.
    assert_eq!(r.vertex_under_point(world(2, 0), radius), Some(RectangleVertex::TopLeft));
    assert_eq!(r.vertex_under_point(world(4, 2), radius), Some(RectangleVertex::TopRight));
    assert_eq!(r.vertex_under_point(world(2, 4), radius), Some(RectangleVertex::BottomRight));
    assert_eq!(r.vertex_under_point(world(0, 2), radius), Some(RectangleVertex::TopLeft));
    // Within the radius of all four.
    assert_eq!(r.vertex_under_point(world(2, 2), radius), Some(RectangleVertex::TopLeft));
    // The radius itself is outside.
    assert_eq!(r.vertex_under_point(world(3, 0), Number::new(1)), None);
    assert_eq!(r.vertex_under_point(world(7, 0), Number::new(3)), None);
    assert_eq!(r.vertex_under_point(world(6, 0), Number::new(3)), Some(RectangleVertex::TopRight));
    assert_eq!(r.vertex_under_point(world(20, 20), radius), None);
    assert_eq!(r.vertex_under_point(world(0, 0), Number::new(0)), None);
}

#[test]
fn resizing_moves_only_the_dragged_corner() {
    let r = rect(0, 0, 10, 10);
    let d = world(3, 4);
    assert_eq!(r.resize_by_dragging_vertex(RectangleVertex::TopLeft, d), rect(3, 4, 10, 10));
    assert_eq!(r.resize_by_dragging_vertex(RectangleVertex::TopRight, d), rect(0, 4, 13, 10));
    assert_eq!(r.resize_by_dragging_vertex(RectangleVertex::BottomLeft, d), rect(3, 0, 10, 14));
    assert_eq!(r.resize_by_dragging_vertex(RectangleVertex::BottomRight, d), rect(0, 0, 13, 14));
}

#[test]
fn line_meets_the_sides_of_a_rectangle() {
    let r = rect(0, 0, 10, 20);
    // A diagonal: y = 2x.
    assert_eq!(
        r.intersection_with_line(world(-5, -10), world(15, 30)),
        [Some(world(0, 0)), Some(world(10, 20)), Some(world(10, 20)), Some(world(0, 0))]
    );
    // A horizontal line never meets the top and the bottom.
    assert_eq!(
        r.intersection_with_line(world(-5, 7), world(15, 7)),
        [None, Some(world(10, 7)), None, Some(world(0, 7))]
    );
    // A vertical line never meets the left and the right.
    assert_eq!(
        r.intersection_with_line(world(3, -5), world(3, 50)),
        [Some(world(3, 0)), None, Some(world(3, 20)), None]
    );
    // A single point meets nothing.
    assert_eq!(r.intersection_with_line(world(3, 3), world(3, 3)), [None, None, None, None]);
    // Crossings are rounded down: the line from (0, 1) to (3, 2) is at
    // y = 1 + 10/3 for x = 10, and at x = 3 * 19 for y = 20.
    assert_eq!(
        r.intersection_with_line(world(0, 1), world(3, 2)),
        [Some(world(-3, 0)), Some(world(10, 4)), Some(world(57, 20)), Some(world(0, 1))]
    );
    // The direction of the line does not matter.
    assert_eq!(
        r.intersection_with_line(world(3, 2), world(0, 1)),
        [Some(world(-3, 0)), Some(world(10, 4)), Some(world(57, 20)), Some(world(0, 1))]
    );
}

#[test]
fn solve_line_follows_the_line() {
    assert_eq!(solve_line(0, 0, 10, 20, 5), 10);
    assert_eq!(solve_line(0, 0, 10, 20, -5), -10);
    assert_eq!(solve_line(0, 0, 3, 1, 1), 0);
    assert_eq!(solve_line(0, 0, 3, 1, -1), -1);
    assert_eq!(solve_line(10, 20, 0, 0, 5), 10);
    assert_eq!(solve_line(0, 0, 1, i32::MAX, 2), i32::MAX);
}

#[test]
fn camera_converts_points_both_ways() {
    let camera = Camera { position: world(100, 50), offset: screen(500, 500), zoom: 2000 };
    assert_eq!(camera.convert_to_screen_coordinates(world(110, 40)), screen(520, 480));
    assert_eq!(camera.convert_to_world_coordinates(screen(520, 480)), world(110, 40));
    assert_eq!(camera.convert_to_world_coordinates(screen(521, 479)), world(110, 39));
    assert_eq!(camera.convert_to_screen_coordinates(world(100, 50)), screen(500, 500));

    let camera = Camera { position: world(100, 50), offset: screen(500, 500), zoom: 500 };
    assert_eq!(camera.convert_to_screen_coordinates(world(110, 40)), screen(505, 495));
    assert_eq!(camera.convert_to_screen_coordinates(world(105, 45)), screen(502, 497));
    assert_eq!(camera.convert_to_world_coordinates(screen(505, 495)), world(110, 40));

    let camera = Camera::default();
    assert_eq!(camera, Camera { position: world(0, 0), offset: screen(0, 0), zoom: ZOOM_UNIT });
    assert_eq!(camera.convert_to_screen_coordinates(world(7, -3)), screen(7, -3));
    assert_eq!(camera.convert_to_world_coordinates(screen(7, -3)), world(7, -3));
}

#[test]
fn screen_and_back_loses_less_than_a_unit() {
    // At a whole-number zoom the way back is exact.
    let camera = Camera { position: world(100, 50), offset: screen(500, 500), zoom: 3000 };
    for x in -20..20 {
        let p = world(100 + x, 50 - x);
        assert_eq!(camera.convert_to_world_coordinates(camera.convert_to_screen_coordinates(p)), p);
    }
    // At zoom one and a half, every other point comes back one unit lower.
    let camera = Camera { position: world(0, 0), offset: screen(0, 0), zoom: 1500 };
    let there = |x: i32| camera.convert_to_screen_coordinates(world(x, x));
    let back = |x: i32| camera.convert_to_world_coordinates(there(x));
    assert_eq!(there(1), screen(1, 1));
    assert_eq!(back(0), world(0, 0));
    assert_eq!(back(1), world(0, 0));
    assert_eq!(back(2), world(2, 2));
    assert_eq!(back(3), world(2, 2));
    assert_eq!(back(-1), world(-2, -2));
    assert_eq!(back(-2), world(-2, -2));
    for x in -50..50 {
        let w = back(x);
        assert!(x - 1 <= w.x && w.x <= x);
        assert!(x - 1 <= w.y && w.y <= x);
    }
}

#[test]
fn camera_converts_sizes_without_the_offset() {
    let camera = Camera { position: world(100, 50), offset: screen(500, 500), zoom: 2000 };
    assert_eq!(camera.distance_to_world_coordinates(screen(10, -20)), world(5, -10));
    assert_eq!(camera.size_to_world_coordinates(Number::new(5)), Number::new(2));
    assert_eq!(camera.size_to_screen_coordinates(Number::new(5)), Number::new(10));
    let stroke = Stroke::new(Color::from_rgb(1, 2, 3), Number::<WorldSpace>::new(4));
    assert_eq!(
        camera.stroke_to_screen_coordinates(stroke),
        Stroke::new(Color::from_rgb(1, 2, 3), Number::<ScreenSpace>::new(8))
    );
    assert_eq!(camera.size_to_world_coordinates_rounded_up(Number::new(5)), Number::new(3));
    assert_eq!(camera.size_to_world_coordinates_rounded_up(Number::new(4)), Number::new(2));
    assert_eq!(camera.size_to_world_coordinates_rounded_up(Number::new(0)), Number::new(0));
    assert_eq!(camera.size_to_world_coordinates_rounded_up(Number::new(-5)), Number::new(-2));
    let camera = Camera { position: world(0, 0), offset: screen(0, 0), zoom: 10000 };
    assert_eq!(camera.size_to_world_coordinates(Number::new(5)), Number::new(0));
    assert_eq!(camera.size_to_world_coordinates_rounded_up(Number::new(5)), Number::new(1));
    let camera = Camera { position: world(0, 0), offset: screen(0, 0), zoom: 1 };
    assert_eq!(camera.size_to_world_coordinates_rounded_up(Number::new(5)), Number::new(5000));
    assert_eq!(camera.size_to_world_coordinates_rounded_up(Number::new(i32::MAX)), Number::new(i32::MAX));
    assert_eq!(camera.size_to_world_coordinates(Number::new(5)), Number::new(5000));
    assert_eq!(camera.distance_to_world_coordinates(screen(i32::MAX, i32::MIN)), world(i32::MAX, i32::MIN));
}

#[test]
fn zoom_never_reaches_zero() {
    let mut camera = Camera::default();
    camera.zoom_by(-999);
    assert_eq!(camera.zoom, ZOOM_MIN);
    camera.zoom_by(-1);
    assert_eq!(camera.zoom, ZOOM_MIN);
    camera.zoom_by(-5000);
    assert_eq!(camera.zoom, ZOOM_MIN);
    camera.zoom_by(i32::MIN);
    assert_eq!(camera.zoom, ZOOM_MIN);
    camera.zoom_by(499);
    assert_eq!(camera.zoom, 500);
    camera.zoom_by(i32::MAX);
    assert_eq!(camera.zoom, i32::MAX);
    assert_eq!(camera.position, world(0, 0));
    assert_eq!(camera.offset, screen(0, 0));
}

#[test]
fn pan_moves_the_camera_by_the_world_distance() {
    let mut camera = Camera { position: world(3, 4), offset: screen(500, 500), zoom: 4000 };
    camera.pan_by(screen(40, -80));
    assert_eq!(camera.position, world(13, -16));
    assert_eq!(camera.offset, screen(500, 500));
    assert_eq!(camera.zoom, 4000);
    camera.pan_by(screen(-1, 1));
    assert_eq!(camera.position, world(12, -16));
}

#[test]
fn colors() {
    assert_eq!(Color::from_rgb(1, 2, 3), Color { red: 1, green: 2, blue: 3, alpha: 255 });
    assert_eq!(
        Color { red: 0, green: 255, blue: 100, alpha: 7 }.inverse(),
        Color { red: 255, green: 0, blue: 155, alpha: 7 }
    );
}
