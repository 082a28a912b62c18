use eink_canvas::blend::{blend_channel, blend_images, drop_weight_channel, RgbImage, RgbaImage};
use eink_canvas::draw::{button_border_region, image_region, place_region, DrawError};
use eink_canvas::geometry::{
    is_hitting, resolve_position, OptPoint, Point, Rect, Size, TouchPoint, DISPLAY_HEIGHT,
    DISPLAY_WIDTH,
};

fn rgba(width: u32, height: u32, data: Vec<u8>) -> RgbaImage {
    RgbaImage { width, height, data }
}

fn rgb(width: u32, height: u32, data: Vec<u8>) -> RgbImage {
    RgbImage { width, height, data }
}

#[test]
fn fill_region_roundtrip() {
    let r = place_region(
        OptPoint { x: Some(20), y: Some(30) },
        Size { width: 50, height: 40 },
    );
    assert_eq!(r, Ok(Rect { top: 30, left: 20, width: 50, height: 40 }));
}

#[test]
fn centering_both_axes() {
    let r = place_region(OptPoint { x: None, y: None }, Size { width: 100, height: 50 })
        .unwrap();
    assert_eq!(r, Rect { top: 911, left: 652, width: 100, height: 50 });
    // The content's midpoint coincides with the display's midpoint.
    assert_eq!(2 * r.left + r.width, DISPLAY_WIDTH);
    assert_eq!(2 * r.top + r.height, DISPLAY_HEIGHT);
}

#[test]
fn centering_odd_size_within_one_pixel() {
    let r = place_region(OptPoint { x: None, y: None }, Size { width: 101, height: 51 })
        .unwrap();
    assert_eq!(r.left, 652);
    assert_eq!(r.top, 911);
    assert_eq!(2 * r.left + r.width - DISPLAY_WIDTH, 1);
    assert_eq!(2 * r.top + r.height - DISPLAY_HEIGHT, 1);
}

#[test]
fn partial_axis_centering() {
    // X given, Y absent: X is kept verbatim, Y is centered independently.
    let r = place_region(OptPoint { x: Some(10), y: None }, Size { width: 20, height: 30 })
        .unwrap();
    assert_eq!(r.left, 10);
    assert_eq!(r.top, DISPLAY_HEIGHT / 2 - 30 / 2);
    assert_eq!(r.top, 921);

    // Y given, X absent: the mirror case.
    let r = place_region(OptPoint { x: None, y: Some(7) }, Size { width: 20, height: 30 })
        .unwrap();
    assert_eq!(r.top, 7);
    assert_eq!(r.left, DISPLAY_WIDTH / 2 - 20 / 2);
}

#[test]
fn resolve_position_keeps_given_axes() {
    let p = resolve_position(
        OptPoint { x: Some(-3), y: Some(12) },
        Size { width: 9999, height: 9999 },
    );
    assert_eq!(p, Point { x: -3, y: 12 });
}

#[test]
fn hit_test_half_open_bounds() {
    let hitbox = Rect { top: 10, left: 10, width: 5, height: 5 };
    assert!(is_hitting(TouchPoint { x: 14, y: 14 }, hitbox));
    assert!(!is_hitting(TouchPoint { x: 15, y: 14 }, hitbox));
    assert!(!is_hitting(TouchPoint { x: 14, y: 15 }, hitbox));
    assert!(!is_hitting(TouchPoint { x: 9, y: 9 }, hitbox));
}

#[test]
fn hit_test_corner_and_empty() {
    let hitbox = Rect { top: 10, left: 10, width: 5, height: 5 };
    assert!(is_hitting(TouchPoint { x: 10, y: 10 }, hitbox));
    // A zero-sized hitbox contains no point at all.
    let empty = Rect { top: 10, left: 10, width: 0, height: 0 };
    assert!(!is_hitting(TouchPoint { x: 10, y: 10 }, empty));
}

#[test]
fn blend_full_weight_gives_source() {
    // Weight 255: the existing content has coverage zero, the source pixel
    // lands exactly.
    let src = rgba(1, 1, vec![10, 20, 30, 255]);
    let under = rgb(1, 1, vec![1, 2, 3]);
    let out = blend_images(&src, &under);
    assert_eq!(out.data, vec![10, 20, 30]);
    assert_eq!((out.width, out.height), (1, 1));
}

#[test]
fn blend_zero_weight_passes_existing_through() {
    // Weight 0: full coverage of the existing content, the source is invisible.
    let src = rgba(1, 1, vec![10, 20, 30, 0]);
    let under = rgb(1, 1, vec![1, 2, 3]);
    let out = blend_images(&src, &under);
    assert_eq!(out.data, vec![1, 2, 3]);
}

#[test]
fn blend_channel_exact_midpoint_value() {
    // (100 * 128 + 200 * 127 + 127) / 255 == 150, rounding the exact mix.
    assert_eq!(blend_channel(100, 200, 128), 150);
    // Equal endpoints blend to themselves whatever the weight.
    assert_eq!(blend_channel(40, 40, 17), 40);
    // Halfway weight between black and white rounds up.
    assert_eq!(blend_channel(255, 0, 128), 128);
}

#[test]
fn blend_mixed_pixels() {
    // Two pixels: the first keeps the source, the second the existing content.
    let src = rgba(2, 1, vec![9, 8, 7, 255, 9, 8, 7, 0]);
    let under = rgb(2, 1, vec![100, 101, 102, 103, 104, 105]);
    let out = blend_images(&src, &under);
    assert_eq!(out.data, vec![9, 8, 7, 103, 104, 105]);
}

#[test]
fn drop_weight_channel_keeps_colors() {
    let src = rgba(2, 1, vec![1, 2, 3, 77, 4, 5, 6, 200]);
    let out = drop_weight_channel(&src);
    assert_eq!(out.data, vec![1, 2, 3, 4, 5, 6]);
    assert_eq!((out.width, out.height), (2, 1));
}

#[test]
fn place_region_rejects_negative_position() {
    let r = place_region(
        OptPoint { x: Some(-5), y: Some(0) },
        Size { width: 10, height: 10 },
    );
    assert_eq!(r, Err(DrawError::OutOfBounds));
}

#[test]
fn place_region_rejects_overrun() {
    let r = place_region(
        OptPoint { x: Some(1400), y: Some(0) },
        Size { width: 10, height: 10 },
    );
    assert_eq!(r, Err(DrawError::OutOfBounds));
    // Content wider than the display centers to a negative coordinate and is
    // rejected rather than clipped.
    let r = place_region(OptPoint { x: None, y: None }, Size { width: 2000, height: 10 });
    assert_eq!(r, Err(DrawError::OutOfBounds));
}

#[test]
fn place_region_accepts_exact_fit() {
    let r = place_region(
        OptPoint { x: Some(0), y: Some(0) },
        Size { width: DISPLAY_WIDTH, height: DISPLAY_HEIGHT },
    );
    assert_eq!(
        r,
        Ok(Rect { top: 0, left: 0, width: DISPLAY_WIDTH, height: DISPLAY_HEIGHT })
    );
}

#[test]
fn image_region_matches_image_at_pos() {
    let r = image_region(Point { x: 3, y: 4 }, Size { width: 5, height: 6 });
    assert_eq!(r, Ok(Rect { top: 4, left: 3, width: 5, height: 6 }));
    let r = image_region(Point { x: -1, y: 4 }, Size { width: 5, height: 6 });
    assert_eq!(r, Err(DrawError::OutOfBounds));
}

#[test]
fn button_geometry() {
    // Text measured 40x16 landing at (100, 50), hgap 4, vgap 2: the border is
    // 4 left and 2 above the text, 8 wider and 4 taller.
    let text_rect = Rect { top: 50, left: 100, width: 40, height: 16 };
    let border = button_border_region(text_rect, 4, 2).unwrap();
    assert_eq!(border, Rect { top: 48, left: 96, width: 48, height: 20 });
}

#[test]
fn button_border_rejected_at_display_edge() {
    // Text flush with the display's left edge leaves no room for the gap.
    let text_rect = Rect { top: 50, left: 2, width: 40, height: 16 };
    assert_eq!(button_border_region(text_rect, 4, 2), Err(DrawError::OutOfBounds));
}
