//! Screen and sprite-sheet rectangles, and the fixed-point arithmetic that
//! screen coordinates use.
//!
//! A screen coordinate counts tenths of a pixel in an `i32`. Sums and
//! differences are formed over the integers and then brought back into the
//! `i32` range by [`saturate`], so no operation on a coordinate can overflow.

use vstd::prelude::*;

verus! {

/// Coordinate units in one screen pixel.
pub const UNITS_PER_PIXEL: i32 = 10;

/// Height of the visible area: where a respawned actor reappears.
pub const SCREEN_TOP: i32 = 768 * UNITS_PER_PIXEL;

/// Rightmost pixel column in which a respawned actor may reappear.
pub const MAX_COLUMN: u32 = 1024;

/// A rectangle on the sprite sheet, in texels: the part of the shared image
/// that one animation frame shows.
#[derive(Clone, Copy, Debug, PartialEq, Eq, Structural)]
pub struct SheetRegion {
    pub x: u32,
    pub y: u32,
    pub width: u32,
    pub height: u32,
}

/// A rectangle on the screen. `y` is the bottom edge and the box extends
/// upward by `height`; a negative `width` draws the sprite mirrored.
#[derive(Clone, Copy, Debug, PartialEq, Eq, Structural)]
pub struct ScreenRect {
    pub x: i32,
    pub y: i32,
    pub width: i32,
    pub height: i32,
}

/// The `i32` nearest to `v`.
pub open spec fn saturate(v: int) -> i32 {
    if v < i32::MIN {
        i32::MIN
    } else if v > i32::MAX {
        i32::MAX
    } else {
        v as i32
    }
}

/// The screen coordinate of the left edge of pixel column `column`.
pub open spec fn column_x(column: u32) -> i32 {
    saturate(column * UNITS_PER_PIXEL)
}

/// Brings a wide intermediate result back into the coordinate range.
pub(crate) fn narrow(v: i64) -> (r: i32)
    ensures
        r == saturate(v as int),
    no_unwind
{
    if v < i32::MIN as i64 {
        i32::MIN
    } else if v > i32::MAX as i64 {
        i32::MAX
    } else {
        v as i32
    }
}

/// `a + b`, saturated.
pub(crate) fn plus(a: i32, b: i32) -> (r: i32)
    ensures
        r == saturate(a + b),
    no_unwind
{
    narrow(a as i64 + b as i64)
}

/// `a - b`, saturated.
pub(crate) fn minus(a: i32, b: i32) -> (r: i32)
    ensures
        r == saturate(a - b),
    no_unwind
{
    narrow(a as i64 - b as i64)
}

} // verus!
