use rustaga::geom::{hits, move_along, should_reap, wrap_x, Axis, Vec2, UNIT};

#[test]
fn movement_step_moves_only_the_vertical_axis() {
    let pos = Vec2 { x: 10, y: 20 };
    let moved = move_along(pos, Axis::Vertical, 300, 16);
    assert_eq!(moved.x, 10);
    assert_eq!(moved.y, 20 + 300 * 16);
}

#[test]
fn movement_step_moves_only_the_horizontal_axis() {
    let pos = Vec2 { x: -5_000, y: 7_000 };
    let moved = move_along(pos, Axis::Horizontal, 250, 16);
    assert_eq!(moved.x, -5_000 + 250 * 16);
    assert_eq!(moved.y, 7_000);
}

#[test]
fn movement_step_with_zero_dt_is_a_noop() {
    let pos = Vec2 { x: 123, y: -456 };
    let moved = move_along(pos, Axis::Vertical, 300, 0);
    assert_eq!(moved, pos);
}

#[test]
fn movement_step_with_negative_speed_moves_backwards() {
    let pos = Vec2 { x: 1_000, y: 0 };
    let moved = move_along(pos, Axis::Horizontal, -200, 10);
    assert_eq!(moved.x, 1_000 - 2_000);
    assert_eq!(moved.y, 0);
}

#[test]
fn wrap_inside_bounds_is_a_noop() {
    let half = 250 * UNIT;
    assert_eq!(wrap_x(100 * UNIT, half), 100 * UNIT);
    assert_eq!(wrap_x(-half, half), -half);
    assert_eq!(wrap_x(half, half), half);
    assert_eq!(wrap_x(0, half), 0);
}

#[test]
fn wrap_outside_right_edge_teleports_to_left() {
    let half = 250 * UNIT;
    assert_eq!(wrap_x(half + 1, half), -(half - UNIT));
}

#[test]
fn wrap_outside_left_edge_teleports_to_right() {
    let half = 250 * UNIT;
    assert_eq!(wrap_x(-half - 5 * UNIT, half), half - UNIT);
}

#[test]
fn wrap_is_idempotent() {
    let half = 250 * UNIT;
    for x in [0, half, half + 1, -half - 1, 400 * UNIT, -400 * UNIT] {
        let once = wrap_x(x, half);
        assert_eq!(wrap_x(once, half), once);
    }
}

#[test]
fn hit_test_is_inclusive_at_the_radius() {
    let a = Vec2 { x: 0, y: 0 };
    let on_edge = Vec2 { x: 10 * UNIT, y: 0 };
    let beyond = Vec2 { x: 10 * UNIT + 1, y: 0 };
    assert!(hits(a, on_edge, 10 * UNIT));
    assert!(!hits(a, beyond, 10 * UNIT));
}

#[test]
fn hit_test_uses_euclidean_distance() {
    let a = Vec2 { x: 0, y: 0 };
    let b = Vec2 { x: 3_000, y: 4_000 };
    assert!(hits(a, b, 5_000));
    assert!(!hits(a, b, 4_999));
}

#[test]
fn hit_test_at_distance_zero() {
    let a = Vec2 { x: 7, y: -9 };
    assert!(hits(a, a, 0));
    assert!(hits(a, a, 50 * UNIT));
}

#[test]
fn reap_rule_fires_only_above_the_top_edge() {
    let half = 250 * UNIT;
    assert!(should_reap(half + 1, half));
    assert!(!should_reap(half, half));
    assert!(!should_reap(-half - 1, half));
}
