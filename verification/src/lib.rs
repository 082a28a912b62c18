//! Verified core of a 2D drawing surface for an e-ink display.
//!
//! This crate holds the logic a drawing canvas decides with: resolving
//! possibly-absent coordinates by auto-centering against the fixed display
//! dimensions, accounting for the exact screen region a draw affects (with
//! bounds checks that reject, rather than clip, off-display requests),
//! blending a partially transparent image over existing content, and
//! point-in-rectangle hit testing. The framebuffer device itself — pixel
//! writes and refresh requests — sits outside this crate; callers hand it the
//! positions, regions and blended images computed here.

pub mod blend;
pub mod draw;
pub mod geometry;
