//! Affected-region accounting for the draw primitives: each draw operation
//! resolves its position, checks that the touched region lies on the display,
//! and reports the exact region it affects, so callers can request minimal
//! partial refreshes. Off-display requests are rejected with an error, never
//! silently clipped.

use vstd::prelude::*;
use crate::geometry::{
    DISPLAY_HEIGHT, DISPLAY_WIDTH, OptPoint, Point, Rect, Size, resolve_position, resolved_axis,
};

verus! {

/// Error returned when a draw request would touch pixels outside the display.
#[derive(Clone, Copy, Debug, PartialEq, Eq, Structural)]
pub enum DrawError {
    OutOfBounds,
}

/// Whether a region of extent `w` by `h` with top-left corner `(x, y)` lies
/// entirely on the display.
pub open spec fn in_display(x: int, y: int, w: int, h: int) -> bool {
    0 <= x && 0 <= y && x + w <= DISPLAY_WIDTH && y + h <= DISPLAY_HEIGHT
}

/// Resolves a requested position (centering absent axes) and checks bounds.
/// On success the returned region is exactly the request: `left` and `top`
/// are the resolved coordinates, `width` and `height` the requested size.
/// Fails iff the resolved region would leave the display. This is the region
/// accounting shared by the outline and solid rectangle draws and, with the
/// measured text size, by the text draw.
pub fn place_region(pos: OptPoint, size: Size) -> (r: Result<Rect, DrawError>)
    ensures
        ({
            let x = resolved_axis(pos.x, DISPLAY_WIDTH, size.width);
            let y = resolved_axis(pos.y, DISPLAY_HEIGHT, size.height);
            &&& r is Ok <==> in_display(x, y, size.width as int, size.height as int)
            &&& (r matches Ok(rect) ==> rect == (Rect {
                top: y as u32,
                left: x as u32,
                width: size.width,
                height: size.height,
            }))
        }),
{
    let p = resolve_position(pos, size);
    if p.x >= 0 && p.y >= 0
        && (p.x as u64) + (size.width as u64) <= DISPLAY_WIDTH as u64
        && (p.y as u64) + (size.height as u64) <= DISPLAY_HEIGHT as u64
    {
        Ok(Rect { top: p.y as u32, left: p.x as u32, width: size.width, height: size.height })
    } else {
        Err(DrawError::OutOfBounds)
    }
}

/// The region affected by an image of size `size` drawn with its top-left
/// corner at `pos`: exactly the image's dimensions at that position. Fails
/// iff the image would not lie entirely on the display, so a blend never
/// reads and a draw never writes outside the framebuffer.
pub fn image_region(pos: Point, size: Size) -> (r: Result<Rect, DrawError>)
    ensures
        r is Ok <==> in_display(pos.x as int, pos.y as int, size.width as int, size.height as int),
        r matches Ok(rect) ==> rect == (Rect {
            top: pos.y as u32,
            left: pos.x as u32,
            width: size.width,
            height: size.height,
        }),
{
    place_region(OptPoint { x: Some(pos.x), y: Some(pos.y) }, size)
}

/// The outer border region of a button, anchored to the region the text
/// actually landed in: its corner sits `hgap` left of and `vgap` above the
/// text's corner, and its size is the text's size padded by the gap on each
/// side. Fails iff the padded border would leave the display.
pub fn button_border_region(text_rect: Rect, hgap: u32, vgap: u32) -> (r: Result<
    Rect,
    DrawError,
>)
    ensures
        r is Ok <==> (hgap <= text_rect.left && vgap <= text_rect.top
            && text_rect.left + text_rect.width + hgap <= DISPLAY_WIDTH
            && text_rect.top + text_rect.height + vgap <= DISPLAY_HEIGHT),
        r matches Ok(rect) ==> rect == (Rect {
            top: (text_rect.top - vgap) as u32,
            left: (text_rect.left - hgap) as u32,
            width: (text_rect.width + 2 * hgap) as u32,
            height: (text_rect.height + 2 * vgap) as u32,
        }),
{
    if hgap <= text_rect.left && vgap <= text_rect.top
        && (text_rect.left as u64) + (text_rect.width as u64) + (hgap as u64)
            <= DISPLAY_WIDTH as u64
        && (text_rect.top as u64) + (text_rect.height as u64) + (vgap as u64)
            <= DISPLAY_HEIGHT as u64
    {
        Ok(Rect {
            top: text_rect.top - vgap,
            left: text_rect.left - hgap,
            width: text_rect.width + 2 * hgap,
            height: text_rect.height + 2 * vgap,
        })
    } else {
        Err(DrawError::OutOfBounds)
    }
}

/// The border region a successful button draw returns lies on the display
/// and encloses the text region it was anchored to.
pub proof fn lemma_button_border_encloses(text_rect: Rect, hgap: u32, vgap: u32, border: Rect)
    requires
        hgap <= text_rect.left,
        vgap <= text_rect.top,
        text_rect.left + text_rect.width + hgap <= DISPLAY_WIDTH,
        text_rect.top + text_rect.height + vgap <= DISPLAY_HEIGHT,
        border == (Rect {
            top: (text_rect.top - vgap) as u32,
            left: (text_rect.left - hgap) as u32,
            width: (text_rect.width + 2 * hgap) as u32,
            height: (text_rect.height + 2 * vgap) as u32,
        }),
    ensures
        in_display(border.left as int, border.top as int, border.width as int, border.height as int),
        border.left <= text_rect.left,
        border.top <= text_rect.top,
        text_rect.left + text_rect.width <= border.left + border.width,
        text_rect.top + text_rect.height <= border.top + border.height,
{
}

} // verus!
