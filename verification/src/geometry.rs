//! Display geometry: coordinate types, the auto-centering position policy,
//! and point-in-rectangle hit testing.

use vstd::prelude::*;

verus! {

/// Width of the device display in pixels.
pub const DISPLAY_WIDTH: u32 = 1404;

/// Height of the device display in pixels.
pub const DISPLAY_HEIGHT: u32 = 1872;

/// A fully resolved position. Coordinates are signed: a centering request for
/// content wider than the display resolves to a negative coordinate, which the
/// bounds check in `draw` then rejects.
#[derive(Clone, Copy, Debug, PartialEq, Eq, Structural)]
pub struct Point {
    pub x: i32,
    pub y: i32,
}

/// A requested position. An absent axis means "center the content on that
/// axis" relative to the fixed display dimensions.
#[derive(Clone, Copy, Debug)]
pub struct OptPoint {
    pub x: Option<i32>,
    pub y: Option<i32>,
}

/// Content dimensions in pixels.
#[derive(Clone, Copy, Debug, PartialEq, Eq, Structural)]
pub struct Size {
    pub width: u32,
    pub height: u32,
}

/// A screen region: both the affected-region descriptor returned by every
/// draw operation and the hitbox consumed by `is_hitting`.
#[derive(Clone, Copy, Debug, PartialEq, Eq, Structural)]
pub struct Rect {
    pub top: u32,
    pub left: u32,
    pub width: u32,
    pub height: u32,
}

/// A touch or stylus input coordinate.
#[derive(Clone, Copy, Debug, PartialEq, Eq, Structural)]
pub struct TouchPoint {
    pub x: u16,
    pub y: u16,
}

/// The coordinate that centers content of extent `content` on an axis of
/// extent `display`.
pub open spec fn centered_axis(display: u32, content: u32) -> int {
    display as int / 2 - content as int / 2
}

/// The resolved coordinate for one axis: a given coordinate is used verbatim,
/// an absent one centers the content on that axis.
pub open spec fn resolved_axis(given: Option<i32>, display: u32, content: u32) -> int {
    match given {
        Some(v) => v as int,
        None => centered_axis(display, content),
    }
}

/// Resolves one axis of a requested position.
pub fn resolve_axis(given: Option<i32>, display: u32, content: u32) -> (r: i32)
    ensures
        r as int == resolved_axis(given, display, content),
{
    match given {
        Some(v) => v,
        None => {
            let c: i64 = display as i64 / 2 - content as i64 / 2;
            assert(0 <= display as i64 / 2 <= 0x7fff_ffff);
            assert(0 <= content as i64 / 2 <= 0x7fff_ffff);
            c as i32
        },
    }
}

/// Resolves a requested position against the fixed display dimensions,
/// independently per axis: a given coordinate is used verbatim; an absent one
/// centers the content on that axis.
pub fn resolve_position(pos: OptPoint, size: Size) -> (r: Point)
    ensures
        r.x as int == resolved_axis(pos.x, DISPLAY_WIDTH, size.width),
        r.y as int == resolved_axis(pos.y, DISPLAY_HEIGHT, size.height),
{
    Point {
        x: resolve_axis(pos.x, DISPLAY_WIDTH, size.width),
        y: resolve_axis(pos.y, DISPLAY_HEIGHT, size.height),
    }
}

/// Centering correctness: for content no larger than the display, the
/// centered coordinate places the content's midpoint on the display's
/// midpoint to within one pixel of integer rounding — doubled, the content's
/// midpoint `2*x + extent` differs from the display's `2 * (display / 2)` by
/// at most one.
pub proof fn lemma_centering_within_one(size: Size)
    requires
        size.width <= DISPLAY_WIDTH,
        size.height <= DISPLAY_HEIGHT,
    ensures
        0 <= 2 * centered_axis(DISPLAY_WIDTH, size.width) + size.width - DISPLAY_WIDTH <= 1,
        0 <= 2 * centered_axis(DISPLAY_HEIGHT, size.height) + size.height - DISPLAY_HEIGHT <= 1,
{
    assert(2 * (size.width as int / 2) == size.width - size.width % 2);
    assert(2 * (size.height as int / 2) == size.height - size.height % 2);
}

/// Point-in-rectangle hit test over half-open intervals on both axes: the
/// point hits iff its x lies in `[left, left + width)` and its y in
/// `[top, top + height)`. A point exactly on the right or bottom edge misses.
pub fn is_hitting(pos: TouchPoint, hitbox: Rect) -> (r: bool)
    ensures
        r == (hitbox.left <= pos.x < hitbox.left + hitbox.width
            && hitbox.top <= pos.y < hitbox.top + hitbox.height),
{
    (pos.x as u64) >= (hitbox.left as u64)
        && (pos.x as u64) < (hitbox.left as u64) + (hitbox.width as u64)
        && (pos.y as u64) >= (hitbox.top as u64)
        && (pos.y as u64) < (hitbox.top as u64) + (hitbox.height as u64)
}

} // verus!
