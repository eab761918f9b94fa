use zsclip::geometry::UiRect;
use zsclip::text_preview::{limit_preview_text, PREVIEW_TEXT_MAX_CHARS, PREVIEW_TEXT_MAX_LINES};
use zsclip::window_size::{image_zoom_window_size, PREVIEW_H_IMAGE, PREVIEW_W_IMAGE};

/// A 1920x1080 work area: avail_w = (1536 - 24).max(240) = 1512, avail_h = (864 - 52).max(180) = 812.
fn work_area_1080p() -> UiRect {
    UiRect {
        left: 0,
        top: 0,
        right: 1920,
        bottom: 1080,
    }
}

#[test]
fn image_zoom_size_keeps_aspect_ratio_for_large_image() {
    // 4000x3000 (height-bound): scale = min(1512*3000, 812*4000, 4000*3000) = 3_248_000
    // w = 1082, h = 812, plus chrome (24, 52) -> (1106, 864).
    assert_eq!(image_zoom_window_size(4000, 3000, &work_area_1080p()), (1106, 864));
}

#[test]
fn image_zoom_size_is_one_to_one_for_small_image() {
    // 800x600 is shown at its own size: (824, 652) with chrome.
    assert_eq!(image_zoom_window_size(800, 600, &work_area_1080p()), (824, 652));
}

#[test]
fn image_zoom_size_lifts_tiny_image_to_minimum() {
    // 100x100 plus chrome is (124, 152), lifted to the minimum window (240, 180).
    assert_eq!(image_zoom_window_size(100, 100, &work_area_1080p()), (240, 180));
}

#[test]
fn image_zoom_size_handles_panorama() {
    // 4000x400 (width-bound): scale = 604_800, w = 1512, h = 151 -> (1536, 203).
    assert_eq!(image_zoom_window_size(4000, 400, &work_area_1080p()), (1536, 203));
}

#[test]
fn image_zoom_size_falls_back_when_dimensions_missing() {
    assert_eq!(
        image_zoom_window_size(0, 0, &work_area_1080p()),
        (PREVIEW_W_IMAGE, PREVIEW_H_IMAGE)
    );
    assert_eq!(
        image_zoom_window_size(1920, 0, &work_area_1080p()),
        (PREVIEW_W_IMAGE, PREVIEW_H_IMAGE)
    );
}

#[test]
fn text_preview_capacity_matches_text_window() {
    let source = (1..=12)
        .map(|line| format!("line {line}"))
        .collect::<Vec<_>>()
        .join("\n");
    let preview = limit_preview_text(&source, PREVIEW_TEXT_MAX_LINES, PREVIEW_TEXT_MAX_CHARS);

    assert!(preview.contains("line 9"));
    assert!(!preview.contains("line 10"));
    assert!(preview.ends_with("......"));
}

#[test]
fn complete_multiline_preview_does_not_add_false_ellipsis() {
    let preview = limit_preview_text(
        "first line\nsecond line",
        PREVIEW_TEXT_MAX_LINES,
        PREVIEW_TEXT_MAX_CHARS,
    );

    assert_eq!(preview, "first line\nsecond line");
}

#[test]
fn text_preview_uses_full_420_character_capacity() {
    let source = "测试abc123".repeat(80);
    let preview = limit_preview_text(&source, PREVIEW_TEXT_MAX_LINES, PREVIEW_TEXT_MAX_CHARS);
    let content = preview.strip_suffix(" ......").unwrap();

    assert_eq!(content.chars().count(), PREVIEW_TEXT_MAX_CHARS);
}
