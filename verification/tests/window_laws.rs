use zsclip::geometry::{pt_in_rect, UiRect};
use zsclip::item::ClipKind;
use zsclip::preview_window::{
    hover_zoom_active, preview_body, preview_header, preview_paint_layout, preview_position,
    preview_kind, preview_request, preview_request_fits, preview_window_size, HoverPreviewData, PreviewHeader, PreviewRequest,
    PreviewUpdate,
};
use zsclip::window_size::{image_zoom_window_size, zoom_size_fits};
use zsclip::gdiplus::round_path_fits;
use zsclip::main_view::row_preview_fits;

fn work_area() -> UiRect {
    UiRect { left: 0, top: 0, right: 1920, bottom: 1080 }
}

#[test]
fn zoom_window_fits_eighty_percent_and_keeps_ratio() {
    for (w, h) in [(4000usize, 3000usize), (3000, 4000), (1, 100000), (100000, 1), (1512, 812), (2000, 2000)] {
        let (ww, wh) = image_zoom_window_size(w, h, &work_area());
        let (cw, ch) = ((ww - 24) as i64, (wh - 52) as i64);
        assert!(cw <= 1512 && ch <= 812, "{w}x{h}");
        let diff = (cw * h as i64 - ch * w as i64).abs();
        let lifted = ww == 240 || wh == 180;
        assert!(lifted || diff <= (w.max(h)) as i64, "{w}x{h}: {cw}x{ch}");
    }
}

#[test]
fn zoom_window_on_small_work_area_keeps_minimum() {
    let tiny = UiRect { left: 0, top: 0, right: 100, bottom: 100 };
    assert_eq!(image_zoom_window_size(4000, 3000, &tiny), (264, 232));
}

#[test]
fn position_follows_cursor_and_stays_on_screen() {
    assert_eq!(preview_position(100, 100, 420, 220, &work_area()), (116, 122));
    assert_eq!(preview_position(1800, 1000, 420, 220, &work_area()), (1500, 860));
    // A window larger than the work area is pinned to its left/top edge.
    assert_eq!(preview_position(10, 10, 3000, 2000, &work_area()), (0, 0));
}

#[test]
fn window_size_by_kind() {
    assert_eq!(preview_window_size(ClipKind::Text, true, false, 100, 100, &work_area()), (420, 220));
    assert_eq!(preview_window_size(ClipKind::Image, false, false, 4000, 3000, &work_area()), (520, 360));
    assert_eq!(preview_window_size(ClipKind::Image, true, false, 4000, 3000, &work_area()), (1106, 864));
}

#[test]
fn header_by_kind() {
    assert_eq!(preview_header(ClipKind::Image, true, true), PreviewHeader::Image);
    assert_eq!(preview_header(ClipKind::Files, true, false), PreviewHeader::Markdown);
    assert_eq!(preview_header(ClipKind::Files, false, false), PreviewHeader::File);
    assert_eq!(preview_header(ClipKind::Phrase, false, true), PreviewHeader::Phrase);
    assert_eq!(preview_header(ClipKind::Text, false, true), PreviewHeader::RichText);
    assert_eq!(preview_header(ClipKind::Text, false, false), PreviewHeader::Text);
}

#[test]
fn body_by_kind() {
    assert_eq!(preview_body(ClipKind::Text, "a\nb", None, None, "s", "T"), "a\nb");
    assert_eq!(preview_body(ClipKind::Image, "a", None, None, "s", "T"), "");
    assert_eq!(preview_body(ClipKind::Files, "", Some("# md".to_string()), None, "s", "T"), "# md");
    let paths = vec!["/x/one.txt".to_string()];
    assert_eq!(preview_body(ClipKind::Files, "", None, Some(&paths), "s", "T"), "one.txt");
    assert_eq!(preview_body(ClipKind::Files, "", None, None, "summary", "T"), "summary");
}

#[test]
fn paint_layout_rects() {
    let layout = preview_paint_layout(&UiRect { left: 0, top: 0, right: 420, bottom: 220 });
    assert_eq!(layout.header, UiRect { left: 14, top: 10, right: 406, bottom: 34 });
    assert_eq!(layout.image_area, UiRect { left: 12, top: 40, right: 408, bottom: 208 });
    assert_eq!(layout.body, UiRect { left: 14, top: 42, right: 406, bottom: 206 });
    assert!(pt_in_rect(14, 10, &layout.header));
    assert!(!pt_in_rect(406, 10, &layout.header));
}

fn image_request(id: i64, zoom: bool) -> PreviewRequest {
    preview_request(id, ClipKind::Image, 800, 600, "Image Preview".to_string(), String::new(), 100, 100, &work_area(), zoom, false)
}

#[test]
fn show_image_twice_is_unchanged_and_zoom_keeps_bitmap() {
    let mut data = HoverPreviewData::new();
    let first = data.apply_show(image_request(7, false), None, false);
    assert_eq!(first, PreviewUpdate::Replaced { start_image_load: true, redraw: true });
    assert_eq!(data.loading_item_id, 7);
    assert!(data.image.is_none());
    // The same request again starts no second load.
    assert_eq!(data.apply_show(image_request(7, false), None, true), PreviewUpdate::Unchanged);
    // The decoded image arrives; a stale one for another item is dropped.
    assert!(!data.accept_image(3, Some((vec![1, 2, 3, 4], 1, 1))));
    assert!(data.image.is_none());
    assert!(data.accept_image(7, Some((vec![9; 4], 1, 1))));
    assert_eq!(data.loading_item_id, 0);
    // Switching to the zoom keeps the decoded bitmap.
    assert_eq!(data.apply_show(image_request(7, true), None, true), PreviewUpdate::ModeSwitched);
    assert_eq!(data.image, Some((vec![9; 4], 1, 1)));
    assert!(hover_zoom_active(&data, true));
    assert!(!hover_zoom_active(&data, false));
    assert_eq!((data.last_w, data.last_h), (824, 652));
    // Hiding forgets the content.
    data.clear();
    assert_eq!(data.item_id, 0);
    assert!(data.image.is_none());
    assert!(!hover_zoom_active(&data, true));
}

#[test]
fn image_with_bytes_needs_no_load() {
    let mut data = HoverPreviewData::new();
    let update = data.apply_show(image_request(5, false), Some(vec![0; 16]), true);
    assert_eq!(update, PreviewUpdate::Replaced { start_image_load: false, redraw: true });
    assert_eq!(data.image, Some((vec![0; 16], 800, 600)));
}

#[test]
fn moving_the_same_image_only_moves() {
    let mut data = HoverPreviewData::new();
    data.apply_show(image_request(5, false), Some(vec![0; 4]), true);
    let moved = preview_request(5, ClipKind::Image, 800, 600, "Image Preview".to_string(), String::new(), 300, 300, &work_area(), false, false);
    assert_eq!(data.apply_show(moved, None, true), PreviewUpdate::Moved);
    assert_eq!((data.last_x, data.last_y), (316, 322));
    assert_eq!(data.image, Some((vec![0; 4], 800, 600)));
}

#[test]
fn unchanged_text_item_is_left_alone() {
    let mut data = HoverPreviewData::new();
    let req = || preview_request(2, ClipKind::Text, 0, 0, "Text Preview".to_string(), "hi".to_string(), 100, 100, &work_area(), false, false);
    assert_eq!(data.apply_show(req(), None, false), PreviewUpdate::Replaced { start_image_load: false, redraw: true });
    assert_eq!(data.loading_item_id, 0);
    assert_eq!((data.image_width, data.image_height), (0, 0));
    assert_eq!(data.body, "hi");
    // The same text item again, on the visible window: nothing to do.
    assert_eq!(data.apply_show(req(), None, true), PreviewUpdate::Unchanged);
    // Only the cursor moved: the window moves, nothing is repainted.
    let moved = preview_request(2, ClipKind::Text, 0, 0, "Text Preview".to_string(), "hi".to_string(), 200, 150, &work_area(), false, false);
    assert_eq!(data.apply_show(moved, None, true), PreviewUpdate::Moved);
    assert_eq!((data.last_x, data.last_y), (216, 172));
    // A changed body replaces the content.
    let other = preview_request(2, ClipKind::Text, 0, 0, "Text Preview".to_string(), "ho".to_string(), 200, 150, &work_area(), false, false);
    assert_eq!(data.apply_show(other, None, true), PreviewUpdate::Replaced { start_image_load: false, redraw: true });
}

#[test]
fn overflow_checks() {
    assert!(zoom_size_fits(4000, 3000, &work_area()));
    assert!(zoom_size_fits(0, usize::MAX, &work_area()));
    assert!(!zoom_size_fits(usize::MAX, usize::MAX, &work_area()));
    let huge = UiRect { left: i32::MIN, top: 0, right: i32::MAX, bottom: 10 };
    assert!(!zoom_size_fits(10, 10, &huge));
    assert!(preview_request_fits(ClipKind::Image, true, false, 4000, 3000, 100, 100, &work_area()));
    assert!(!preview_request_fits(ClipKind::Text, false, false, 0, 0, i32::MAX, 100, &work_area()));
    assert!(row_preview_fits(&UiRect::new(0, 0, 300, 44), None));
    assert!(!row_preview_fits(&UiRect::new(0, i32::MIN, 300, i32::MAX), None));
    assert!(round_path_fits(0, 0, 100, 100, 10));
    assert!(!round_path_fits(i32::MIN, 0, i32::MAX, 100, 10));
}

#[test]
fn zoomed_image_file_is_shown_as_image() {
    assert_eq!(preview_kind(ClipKind::Files, true, true), ClipKind::Image);
    assert_eq!(preview_kind(ClipKind::Files, false, true), ClipKind::Files);
    assert_eq!(preview_kind(ClipKind::Files, true, false), ClipKind::Files);
    assert_eq!(preview_kind(ClipKind::Text, true, true), ClipKind::Text);
    assert_eq!(preview_kind(ClipKind::Image, false, false), ClipKind::Image);
    // Size unknown: the ordinary image window.
    assert_eq!(preview_window_size(ClipKind::Files, true, true, 0, 0, &work_area()), (520, 360));
    assert_eq!(preview_window_size(ClipKind::Files, true, true, 4000, 3000, &work_area()), (1106, 864));
    assert_eq!(preview_window_size(ClipKind::Files, false, true, 4000, 3000, &work_area()), (420, 220));
    let r = preview_request(9, ClipKind::Files, 0, 0, "Image Preview".to_string(), String::new(), 100, 100, &work_area(), true, true);
    assert_eq!(r.image_shape, Some((0, 0)));
    assert_eq!((r.w, r.h), (520, 360));
    let mut data = HoverPreviewData::new();
    assert_eq!(data.apply_show(r, None, false), PreviewUpdate::Replaced { start_image_load: true, redraw: true });
    let plain = preview_request(9, ClipKind::Files, 0, 0, "File Preview".to_string(), "a.png".to_string(), 100, 100, &work_area(), false, true);
    assert_eq!(plain.image_shape, None);
    assert_eq!((plain.w, plain.h), (420, 220));
}
