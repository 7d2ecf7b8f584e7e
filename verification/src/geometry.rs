//! Small geometric helpers: axis-aligned rectangle containment (inclusive on
//! all four edges, as every hit test of the game is) and clamping.

use vstd::prelude::*;

verus! {

/// Point (px, py) lies in the rectangle with top-left corner (x, y), width w
/// and height h; all four edges count as inside.
pub open spec fn in_rect(px: int, py: int, x: int, y: int, w: int, h: int) -> bool {
    &&& x <= px <= x + w
    &&& y <= py <= y + h
}

/// Point (px, py) lies in the rectangle with top-left corner (x, y), width w
/// and height h; the left and top edges count as inside, the right and
/// bottom edges do not.
pub open spec fn in_rect_half_open(px: int, py: int, x: int, y: int, w: int, h: int) -> bool {
    &&& x <= px < x + w
    &&& y <= py < y + h
}

/// v clamped to [lo, hi].
pub open spec fn clamped(v: int, lo: int, hi: int) -> int {
    if v < lo {
        lo
    } else if v > hi {
        hi
    } else {
        v
    }
}

/// Inclusive containment test; the arithmetic runs in i64 so no pair of i32
/// inputs can overflow it.
pub fn rect_contains(px: i32, py: i32, x: i32, y: i32, w: i32, h: i32) -> (b: bool)
    ensures
        b == in_rect(px as int, py as int, x as int, y as int, w as int, h as int),
{
    let px64 = px as i64;
    let py64 = py as i64;
    let x64 = x as i64;
    let y64 = y as i64;
    px64 >= x64 && px64 <= x64 + (w as i64) && py64 >= y64 && py64 <= y64 + (h as i64)
}

/// Half-open containment test: left and top edges inside, right and bottom
/// edges outside. The arithmetic runs in i64 so no pair of i32 inputs can
/// overflow it.
pub fn rect_contains_half_open(px: i32, py: i32, x: i32, y: i32, w: i32, h: i32) -> (b: bool)
    ensures
        b == in_rect_half_open(px as int, py as int, x as int, y as int, w as int, h as int),
{
    let px64 = px as i64;
    let py64 = py as i64;
    let x64 = x as i64;
    let y64 = y as i64;
    px64 >= x64 && px64 < x64 + (w as i64) && py64 >= y64 && py64 < y64 + (h as i64)
}

/// Clamp v to [lo, hi].
pub fn clamp_i32(v: i32, lo: i32, hi: i32) -> (r: i32)
    requires
        lo <= hi,
    ensures
        r == clamped(v as int, lo as int, hi as int),
{
    if v < lo {
        lo
    } else if v > hi {
        hi
    } else {
        v
    }
}

} // verus!
