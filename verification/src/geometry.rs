//! The logical grid and its mapping to screen space.
//!
//! Game logic works in grid units; the window works in pixels. One grid
//! cell is `CELL_SIZE` pixels on a side, so a grid line at coordinate `g`
//! sits at pixel `g * CELL_SIZE`. Containment of a point in a rectangle is
//! inclusive on all four edges.

use vstd::prelude::*;

verus! {

/// Width of the logical grid, in cells.
pub const WIDTH: i32 = 15;

/// Height of the logical grid, in cells.
pub const HEIGHT: i32 = 10;

/// Grid column of the centered start button: half of `WIDTH - 2`.
pub const HALF_X: i32 = 6;

/// Grid row of the centered start button: half of `HEIGHT - 2`.
pub const HALF_Y: i32 = 4;

/// The size of one grid cell in pixels.
pub const CELL_SIZE: i32 = 75;

/// The pixel coordinate of grid line `g`.
pub open spec fn spec_to_px(g: int) -> int {
    g * (CELL_SIZE as int)
}

/// Converts a grid coordinate to a pixel coordinate, widened so the
/// product cannot overflow.
pub fn to_px(g: i32) -> (r: i64)
    ensures
        r == spec_to_px(g as int),
{
    proof {
        assert(i64::MIN <= (g as int) * (CELL_SIZE as int) <= i64::MAX) by (nonlinear_arith)
            requires
                i32::MIN <= g as int <= i32::MAX,
        ;
    }
    (g as i64) * (CELL_SIZE as i64)
}

/// `v` clamped into the `u32` range.
pub open spec fn spec_clamp_u32(v: int) -> int {
    if v < 0 {
        0
    } else if v > u32::MAX {
        u32::MAX as int
    } else {
        v
    }
}

/// Converts a grid coordinate to a screen coordinate as a `u32`, clamping
/// at the ends of the range.
pub fn to_coord_u32(game_coord: i32) -> (r: u32)
    ensures
        r == spec_clamp_u32(spec_to_px(game_coord as int)),
{
    let px: i64 = to_px(game_coord);
    if px < 0 {
        0
    } else if px > u32::MAX as i64 {
        u32::MAX
    } else {
        px as u32
    }
}

/// Whether pixel point `(x, y)` lies in the rectangle spanned in grid units
/// by `top_left` and `bottom_right`, inclusive on all four edges.
pub open spec fn spec_point_in_rect(
    top_left: (i32, i32),
    bottom_right: (i32, i32),
    x: int,
    y: int,
) -> bool {
    &&& spec_to_px(top_left.0 as int) <= x <= spec_to_px(bottom_right.0 as int)
    &&& spec_to_px(top_left.1 as int) <= y <= spec_to_px(bottom_right.1 as int)
}

/// Inclusive containment test of a pixel point in a grid-unit rectangle.
pub fn point_in_rect(top_left: (i32, i32), bottom_right: (i32, i32), x: i64, y: i64) -> (r: bool)
    ensures
        r == spec_point_in_rect(top_left, bottom_right, x as int, y as int),
{
    let x1 = to_px(top_left.0);
    let y1 = to_px(top_left.1);
    let x2 = to_px(bottom_right.0);
    let y2 = to_px(bottom_right.1);
    x1 <= x && x <= x2 && y1 <= y && y <= y2
}

} // verus!
