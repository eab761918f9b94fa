use zsclip::gdiplus::{
    bgra_to_rgba, colorref_to_argb, force_opaque_if_transparent, is_blank, lock_rect_size,
    locked_copy_layout, rgba_from_locked_bgra, round_path_geometry, round_rect_plan,
    thumbnail_request_valid, thumbnail_size, RoundRectPlan,
};
use zsclip::geometry::UiPoint;

#[test]
fn colorref_becomes_opaque_argb() {
    assert_eq!(colorref_to_argb(0x0011_2233), 0xFF33_2211);
    assert_eq!(colorref_to_argb(0xAB00_00FF), 0xFFFF_0000);
    assert_eq!(colorref_to_argb(0), 0xFF00_0000);
}

#[test]
fn thumbnail_sizes() {
    assert_eq!(thumbnail_size(4000, 3000, 256), Some((256, 192)));
    assert_eq!(thumbnail_size(3000, 4000, 256), Some((192, 256)));
    // Never enlarged.
    assert_eq!(thumbnail_size(100, 50, 256), Some((100, 50)));
    // Rounded to the nearest pixel, at least 1.
    assert_eq!(thumbnail_size(1000, 3, 100), Some((100, 1)));
    assert_eq!(thumbnail_size(1000, 1, 100), Some((100, 1)));
    assert_eq!(thumbnail_size(3, 2, 2), Some((2, 1)));
    assert_eq!(thumbnail_size(300, 250, 100), Some((100, 83)));
    assert_eq!(thumbnail_size(300, 255, 100), Some((100, 85)));
}

#[test]
fn thumbnail_refused() {
    assert_eq!(thumbnail_size(0, 10, 256), None);
    assert_eq!(thumbnail_size(10, 0, 256), None);
    assert_eq!(thumbnail_size(10_000, 10_000, 256), None);
    assert_eq!(thumbnail_size(10, 10, 0), None);
    assert_eq!(thumbnail_size(8000, 10_000, 64), Some((51, 64)));
}

#[test]
fn blank_paths() {
    assert!(is_blank(""));
    assert!(is_blank(" \t\r\n\u{3000}"));
    assert!(!is_blank("  a "));
    assert!(!thumbnail_request_valid("   ", 128));
    assert!(!thumbnail_request_valid("a.png", 0));
    assert!(thumbnail_request_valid("a.png", 128));
}

#[test]
fn locked_layouts() {
    assert_eq!(lock_rect_size(10, 20), Some((10, 20)));
    assert_eq!(lock_rect_size(usize::MAX, 1), None);
    assert_eq!(locked_copy_layout(10, 3, 40), Some((40, 120)));
    assert_eq!(locked_copy_layout(10, 3, -48), Some((40, 120)));
    assert_eq!(locked_copy_layout(10, 3, 39), None);
    assert_eq!(locked_copy_layout(usize::MAX, 1, 4), None);
}

#[test]
fn pixel_conversion() {
    let bgra = [1u8, 2, 3, 0, 10, 20, 30, 0];
    assert_eq!(bgra_to_rgba(&bgra), vec![3, 2, 1, 0, 30, 20, 10, 0]);
    assert_eq!(bgra_to_rgba(&bgra_to_rgba(&bgra)), bgra.to_vec());
    assert_eq!(rgba_from_locked_bgra(&bgra), vec![3, 2, 1, 255, 30, 20, 10, 255]);
    let partly = [1u8, 2, 3, 0, 10, 20, 30, 7];
    assert_eq!(rgba_from_locked_bgra(&partly), vec![3, 2, 1, 0, 30, 20, 10, 7]);
    let mut empty: Vec<u8> = Vec::new();
    force_opaque_if_transparent(&mut empty);
    assert!(empty.is_empty());
}

#[test]
fn round_path_corners() {
    let p = round_path_geometry(0, 0, 100, 50, 10);
    assert_eq!(p.diameter, 20);
    assert_eq!(p.top_left, UiPoint { x: 0, y: 0 });
    assert_eq!(p.top_right, UiPoint { x: 80, y: 0 });
    assert_eq!(p.bottom_right, UiPoint { x: 80, y: 30 });
    assert_eq!(p.bottom_left, UiPoint { x: 0, y: 30 });
    // The radius is capped at half the shorter side, and is at least 1.
    assert_eq!(round_path_geometry(0, 0, 100, 8, 10).diameter, 8);
    assert_eq!(round_path_geometry(0, 0, 1, 1, 10).diameter, 2);
    assert_eq!(round_path_geometry(0, 0, 100, 100, -5).diameter, 2);
}

#[test]
fn round_rect_plans() {
    assert_eq!(round_rect_plan(10, 10, 10, 20, 0x123456, 0x654321, 4), RoundRectPlan::Empty);
    assert_eq!(round_rect_plan(10, 20, 30, 20, 0x123456, 0x654321, 4), RoundRectPlan::Empty);
    assert_eq!(
        round_rect_plan(0, 0, 30, 20, 0x0011_2233, 0x0044_5566, 0),
        RoundRectPlan::Paint { fill: 0xFF33_2211, border: Some(0xFF66_5544), radius: 1 }
    );
    assert_eq!(
        round_rect_plan(0, 0, 30, 20, 0x0011_2233, 0x0011_2233, 10),
        RoundRectPlan::Paint { fill: 0xFF33_2211, border: None, radius: 10 }
    );
    assert_eq!(
        round_rect_plan(0, 0, 30, 20, 0x0011_2233, 0, 10),
        RoundRectPlan::Paint { fill: 0xFF33_2211, border: None, radius: 10 }
    );
}

#[test]
fn white_space_matches_std_for_every_char() {
    for v in 0u32..=0x10FFFF {
        if let Some(c) = char::from_u32(v) {
            assert_eq!(is_blank(&c.to_string()), c.is_whitespace(), "U+{v:04X}");
        }
    }
}
