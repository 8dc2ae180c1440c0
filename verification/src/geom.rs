//! Spatial mover, boundary wrapper and the distance-based hit test.
//!
//! Every moving entity advances along one fixed axis by `speed * dt`
//! subunits per frame. Player and enemy ships wrap horizontally at the
//! window edge; projectiles are reaped once they leave the top edge.

use vstd::prelude::*;

verus! {

/// Coordinate subunits per world unit. Positions are stored in
/// thousandths of a unit, so a speed in units per second moves a
/// position by exactly `speed` subunits per millisecond.
pub const UNIT: i64 = 1000;

/// Largest coordinate magnitude the movement step accepts (far beyond
/// any position a frame can produce; it only rules out overflow).
pub const POS_LIMIT: i64 = 0x2000_0000_0000;

/// Largest speed magnitude, in subunits per millisecond.
pub const SPEED_LIMIT: i64 = 0x10_0000;

/// Largest frame time, in milliseconds.
pub const DT_LIMIT: u32 = 0x10_0000;

/// Largest window half-extent, in subunits.
pub const WINDOW_LIMIT: i64 = 0x100_0000_0000;

/// A 2D position in subunits.
#[derive(Clone, Copy, Debug, PartialEq, Eq, Structural)]
pub struct Vec2 {
    pub x: i64,
    pub y: i64,
}

/// The fixed axis an entity moves along: horizontal for player and
/// enemy ships, vertical for projectiles.
#[derive(Clone, Copy, Debug, PartialEq, Eq, Structural)]
pub enum Axis {
    Horizontal,
    Vertical,
}

/// One movement step: `pos + speed * dt` along the moving axis, the
/// other axis untouched.
pub fn move_along(pos: Vec2, axis: Axis, speed: i64, dt: u32) -> (r: Vec2)
    requires
        -POS_LIMIT <= pos.x <= POS_LIMIT,
        -POS_LIMIT <= pos.y <= POS_LIMIT,
        -SPEED_LIMIT <= speed <= SPEED_LIMIT,
        dt <= DT_LIMIT,
    ensures
        axis == Axis::Horizontal ==> r.x == pos.x + speed * dt && r.y == pos.y,
        axis == Axis::Vertical ==> r.y == pos.y + speed * dt && r.x == pos.x,
{
    proof {
        assert((-SPEED_LIMIT as int) * (DT_LIMIT as int) <= speed as int * dt as int
            <= (SPEED_LIMIT as int) * (DT_LIMIT as int)) by (nonlinear_arith)
            requires
                -SPEED_LIMIT <= speed <= SPEED_LIMIT,
                0 <= dt <= DT_LIMIT,
        ;
    }
    let delta: i64 = speed * (dt as i64);
    match axis {
        Axis::Horizontal => Vec2 { x: pos.x + delta, y: pos.y },
        Axis::Vertical => Vec2 { x: pos.x, y: pos.y + delta },
    }
}

/// Where the wrap rule sends a horizontal position: an in-bounds
/// position is left alone; one beyond the half-width teleports to one
/// unit inside the opposite edge.
pub open spec fn wrap_spec(x: int, half_width: int) -> int {
    if -half_width <= x <= half_width {
        x
    } else if x > half_width {
        -(half_width - UNIT)
    } else {
        half_width - UNIT
    }
}

/// Applies the wrap rule. A position already inside the window is a
/// no-op; one outside lands one unit inside the opposite edge.
pub fn wrap_x(x: i64, half_width: i64) -> (r: i64)
    requires
        UNIT <= half_width <= WINDOW_LIMIT,
        -POS_LIMIT <= x <= POS_LIMIT,
    ensures
        r == wrap_spec(x as int, half_width as int),
        -half_width <= x <= half_width ==> r == x,
        -half_width <= r <= half_width,
{
    if x > half_width {
        -(half_width - UNIT)
    } else if x < -half_width {
        half_width - UNIT
    } else {
        x
    }
}

/// The wrap rule is idempotent: wherever it sends a position, applying
/// it again changes nothing, since an out-of-bounds position lands one
/// unit inside the opposite edge and an in-bounds one is left alone.
pub proof fn lemma_wrap_idempotent(x: int, half_width: int)
    requires
        UNIT <= half_width,
    ensures
        wrap_spec(wrap_spec(x, half_width), half_width) == wrap_spec(x, half_width),
{
}

/// Whether a projectile at `y` has left the top of the window and is
/// due to be despawned.
pub open spec fn reaped_spec(y: int, half_height: int) -> bool {
    y > half_height
}

/// The reap rule: true when the position is beyond the top edge.
pub fn should_reap(y: i64, half_height: i64) -> (r: bool)
    ensures
        r == reaped_spec(y as int, half_height as int),
{
    y > half_height
}

/// Whether two positions lie within `radius` of each other, by squared
/// Euclidean distance.
pub open spec fn hits_spec(a: Vec2, b: Vec2, radius: int) -> bool {
    (a.x - b.x) * (a.x - b.x) + (a.y - b.y) * (a.y - b.y) <= radius * radius
}

/// The binary collision test: distance between the two positions at
/// most `radius`, computed exactly on squared distances.
pub fn hits(a: Vec2, b: Vec2, radius: i64) -> (r: bool)
    requires
        -POS_LIMIT <= a.x <= POS_LIMIT,
        -POS_LIMIT <= a.y <= POS_LIMIT,
        -POS_LIMIT <= b.x <= POS_LIMIT,
        -POS_LIMIT <= b.y <= POS_LIMIT,
        0 <= radius <= WINDOW_LIMIT,
    ensures
        r == hits_spec(a, b, radius as int),
{
    let dx: i128 = (a.x as i128) - (b.x as i128);
    let dy: i128 = (a.y as i128) - (b.y as i128);
    proof {
        assert(dx * dx + dy * dy <= 8 * (POS_LIMIT as int) * (POS_LIMIT as int)
            && 0 <= dx * dx && 0 <= dy * dy) by (nonlinear_arith)
            requires
                -2 * (POS_LIMIT as int) <= dx <= 2 * (POS_LIMIT as int),
                -2 * (POS_LIMIT as int) <= dy <= 2 * (POS_LIMIT as int),
        ;
        assert(0 <= (radius as int) * (radius as int)
            <= (WINDOW_LIMIT as int) * (WINDOW_LIMIT as int)) by (nonlinear_arith)
            requires
                0 <= radius as int <= WINDOW_LIMIT as int,
        ;
    }
    let rr: i128 = (radius as i128) * (radius as i128);
    dx * dx + dy * dy <= rr
}

} // verus!
