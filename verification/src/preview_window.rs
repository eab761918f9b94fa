use vstd::prelude::*;
use vstd::math::max;

use crate::file_preview::{file_preview_text, limit_file_preview, listed_name_fits, PREVIEW_FILE_MAX_ITEMS};
use crate::geometry::UiRect;
use crate::item::ClipKind;
use crate::text_preview::{limit_preview, limit_preview_text, PREVIEW_TEXT_MAX_CHARS, PREVIEW_TEXT_MAX_LINES};
use crate::window_size::{
    image_zoom_size, image_zoom_window_size, zoom_size_fits, zoom_size_in_range, PREVIEW_H_IMAGE, PREVIEW_H_TEXT,
    PREVIEW_W_IMAGE, PREVIEW_W_TEXT,
};

verus! {

/// Offset of the preview window from the cursor.
pub const PREVIEW_CURSOR_DX: i32 = 16;
pub const PREVIEW_CURSOR_DY: i32 = 22;

// ---------------------------------------------------------------------------
// Header and body.
// ---------------------------------------------------------------------------

/// Which title the preview window shows; the text comes from the user's
/// language.
#[derive(Clone, Copy, Debug, PartialEq, Eq, Structural)]
pub enum PreviewHeader {
    Image,
    Markdown,
    File,
    Phrase,
    RichText,
    Text,
}

pub open spec fn header_for(kind: ClipKind, has_markdown: bool, has_rich_text: bool) -> PreviewHeader {
    match kind {
        ClipKind::Image => PreviewHeader::Image,
        ClipKind::Files => if has_markdown { PreviewHeader::Markdown } else { PreviewHeader::File },
        ClipKind::Phrase => PreviewHeader::Phrase,
        ClipKind::Text => if has_rich_text { PreviewHeader::RichText } else { PreviewHeader::Text },
    }
}

/// The preview title for an item of `kind`; `has_markdown` tells whether a
/// file item got a Markdown preview, `has_rich_text` whether a text item
/// carries HTML.
pub fn preview_header(kind: ClipKind, has_markdown: bool, has_rich_text: bool) -> (header: PreviewHeader)
    ensures
        header == header_for(kind, has_markdown, has_rich_text),
{
    match kind {
        ClipKind::Image => PreviewHeader::Image,
        ClipKind::Files => if has_markdown { PreviewHeader::Markdown } else { PreviewHeader::File },
        ClipKind::Phrase => PreviewHeader::Phrase,
        ClipKind::Text => if has_rich_text { PreviewHeader::RichText } else { PreviewHeader::Text },
    }
}

/// The title follows the item's kind: every image and every phrase gets its
/// own title whatever the flags; a file item is titled Markdown exactly when
/// it got a Markdown preview, a text item rich text exactly when it carries
/// HTML.
pub proof fn law_header_by_kind(has_markdown: bool, has_rich_text: bool)
    ensures
        header_for(ClipKind::Image, has_markdown, has_rich_text) == PreviewHeader::Image,
        header_for(ClipKind::Phrase, has_markdown, has_rich_text) == PreviewHeader::Phrase,
        header_for(ClipKind::Files, has_markdown, has_rich_text) == PreviewHeader::Markdown <==> has_markdown,
        header_for(ClipKind::Files, has_markdown, has_rich_text) == PreviewHeader::File <==> !has_markdown,
        header_for(ClipKind::Text, has_markdown, has_rich_text) == PreviewHeader::RichText <==> has_rich_text,
        header_for(ClipKind::Text, has_markdown, has_rich_text) == PreviewHeader::Text <==> !has_rich_text,
{
}

/// The body text of the preview window.
///
/// `text_source` is what a text or phrase item shows (its plain text of the
/// rich text, its text, or its summary); `markdown` is a file item's
/// Markdown preview, if it got one; `file_paths` the files of a file item;
/// `summary` the item's stored summary; `total_label` the word for "total".
pub fn preview_body(
    kind: ClipKind,
    text_source: &str,
    markdown: Option<String>,
    file_paths: Option<&[String]>,
    summary: &str,
    total_label: &str,
) -> (body: String)
    ensures
        match kind {
            ClipKind::Text | ClipKind::Phrase =>
                body@ == limit_preview(text_source@, PREVIEW_TEXT_MAX_LINES as int, PREVIEW_TEXT_MAX_CHARS as int),
            ClipKind::Files => match markdown {
                Some(m) => body@ == m@,
                None => match file_paths {
                    Some(paths) => exists|names: Seq<Seq<char>>|
                        names.len() == vstd::math::min(paths@.len() as int, PREVIEW_FILE_MAX_ITEMS as int)
                        && (forall|i: int| 0 <= i < names.len() ==> #[trigger] listed_name_fits(paths@[i]@, names[i]))
                        && body@ == #[trigger] file_preview_text(names, paths@.len() as nat, PREVIEW_FILE_MAX_ITEMS as nat, total_label@),
                    None => body@ == summary@,
                },
            },
            ClipKind::Image => body@.len() == 0,
        },
{
    match kind {
        ClipKind::Text | ClipKind::Phrase => limit_preview_text(text_source, PREVIEW_TEXT_MAX_LINES, PREVIEW_TEXT_MAX_CHARS),
        ClipKind::Files => match markdown {
            Some(m) => m,
            None => match file_paths {
                Some(paths) => limit_file_preview(paths, PREVIEW_FILE_MAX_ITEMS, total_label),
                None => summary.to_string(),
            },
        },
        ClipKind::Image => String::new(),
    }
}

// ---------------------------------------------------------------------------
// Size and position.
// ---------------------------------------------------------------------------

/// Whether the preview shows an image: for an image item, and for a file
/// item that points at an image file when it is zoomed (its thumbnail is
/// enlarged like an image's).
pub open spec fn shows_image(kind: ClipKind, zoom: bool, image_file: bool) -> bool {
    kind == ClipKind::Image || (zoom && kind == ClipKind::Files && image_file)
}

pub open spec fn preview_kind_for(kind: ClipKind, zoom: bool, image_file: bool) -> ClipKind {
    if shows_image(kind, zoom, image_file) {
        ClipKind::Image
    } else {
        kind
    }
}

/// The kind the preview presents an item as: a zoomed file item that
/// points at an image file is shown as an image; anything else as itself.
pub fn preview_kind(kind: ClipKind, zoom: bool, image_file: bool) -> (shown: ClipKind)
    ensures
        shown == preview_kind_for(kind, zoom, image_file),
{
    if kind == ClipKind::Image || (zoom && kind == ClipKind::Files && image_file) {
        ClipKind::Image
    } else {
        kind
    }
}

pub open spec fn window_size_for(kind: ClipKind, zoom: bool, image_file: bool, iw: int, ih: int, wa: UiRect) -> (int, int) {
    if shows_image(kind, zoom, image_file) {
        if zoom {
            image_zoom_size(iw, ih, wa)
        } else {
            (PREVIEW_W_IMAGE as int, PREVIEW_H_IMAGE as int)
        }
    } else {
        (PREVIEW_W_TEXT as int, PREVIEW_H_TEXT as int)
    }
}

/// The preview window's size: the zoom window for a zoomed image (or
/// zoomed image file), the image preview for an image, the text preview for
/// anything else. `image_width` x `image_height` is the image's size as far
/// as known (0 where unknown).
pub fn preview_window_size(
    kind: ClipKind,
    zoom: bool,
    image_file: bool,
    image_width: usize,
    image_height: usize,
    work_area: &UiRect,
) -> (size: (i32, i32))
    requires
        shows_image(kind, zoom, image_file) && zoom ==> zoom_size_in_range(image_width as int, image_height as int, *work_area),
    ensures
        size.0 == window_size_for(kind, zoom, image_file, image_width as int, image_height as int, *work_area).0,
        size.1 == window_size_for(kind, zoom, image_file, image_width as int, image_height as int, *work_area).1,
{
    if kind == ClipKind::Image || (zoom && kind == ClipKind::Files && image_file) {
        if zoom {
            image_zoom_window_size(image_width, image_height, work_area)
        } else {
            (PREVIEW_W_IMAGE, PREVIEW_H_IMAGE)
        }
    } else {
        (PREVIEW_W_TEXT, PREVIEW_H_TEXT)
    }
}

/// One coordinate of the window: `offset` past the cursor, moved back so the
/// far edge stays inside `hi`, and then never before `lo`.
pub open spec fn place_axis(cursor: int, offset: int, extent: int, lo: int, hi: int) -> int {
    let p = cursor + offset;
    let p = if p + extent > hi { hi - extent } else { p };
    max(p, lo)
}

pub open spec fn place_in_range(cursor: int, offset: int, extent: int, hi: int) -> bool {
    &&& i32::MIN <= cursor + offset <= i32::MAX
    &&& i32::MIN <= cursor + offset + extent <= i32::MAX
    &&& i32::MIN <= hi - extent <= i32::MAX
}

fn place_axis_exec(cursor: i32, offset: i32, extent: i32, lo: i32, hi: i32) -> (p: i32)
    requires
        place_in_range(cursor as int, offset as int, extent as int, hi as int),
    ensures
        p == place_axis(cursor as int, offset as int, extent as int, lo as int, hi as int),
{
    let mut p = cursor + offset;
    if p + extent > hi {
        p = hi - extent;
    }
    if p < lo {
        p = lo;
    }
    p
}

/// Where the `w` x `h` preview window goes for the cursor at
/// `(cursor_x, cursor_y)` (screen pixels) on the work area `work_area`.
pub fn preview_position(cursor_x: i32, cursor_y: i32, w: i32, h: i32, work_area: &UiRect) -> (pos: (i32, i32))
    requires
        place_in_range(cursor_x as int, PREVIEW_CURSOR_DX as int, w as int, work_area.right as int),
        place_in_range(cursor_y as int, PREVIEW_CURSOR_DY as int, h as int, work_area.bottom as int),
    ensures
        pos.0 == place_axis(cursor_x as int, PREVIEW_CURSOR_DX as int, w as int, work_area.left as int, work_area.right as int),
        pos.1 == place_axis(cursor_y as int, PREVIEW_CURSOR_DY as int, h as int, work_area.top as int, work_area.bottom as int),
{
    (
        place_axis_exec(cursor_x, PREVIEW_CURSOR_DX, w, work_area.left, work_area.right),
        place_axis_exec(cursor_y, PREVIEW_CURSOR_DY, h, work_area.top, work_area.bottom),
    )
}

/// A window that fits the work area is placed wholly inside it; it sits at
/// the cursor offset unless that would push it past the far edge, and it
/// never lands beyond that offset.
pub proof fn law_preview_stays_in_work_area(cursor: int, offset: int, extent: int, lo: int, hi: int)
    requires
        0 <= extent <= hi - lo,
    ensures
        lo <= place_axis(cursor, offset, extent, lo, hi),
        place_axis(cursor, offset, extent, lo, hi) + extent <= hi,
        place_axis(cursor, offset, extent, lo, hi) <= max(cursor + offset, lo),
        lo <= cursor + offset && cursor + offset + extent <= hi ==> place_axis(cursor, offset, extent, lo, hi) == cursor + offset,
{
}

fn place_fits(cursor: i32, offset: i32, extent: i32, hi: i32) -> (fits: bool)
    ensures
        fits == place_in_range(cursor as int, offset as int, extent as int, hi as int),
{
    let p = cursor as i64 + offset as i64;
    let far = p + extent as i64;
    let back = hi as i64 - extent as i64;
    i32::MIN as i64 <= p && p <= i32::MAX as i64 && i32::MIN as i64 <= far && far <= i32::MAX as i64
        && i32::MIN as i64 <= back && back <= i32::MAX as i64
}

/// Whether `preview_request` stays free of overflow on these inputs.
pub fn preview_request_fits(
    kind: ClipKind,
    zoom: bool,
    image_file: bool,
    image_width: usize,
    image_height: usize,
    cursor_x: i32,
    cursor_y: i32,
    work_area: &UiRect,
) -> (fits: bool)
    ensures
        fits == ((shows_image(kind, zoom, image_file) && zoom ==> zoom_size_in_range(image_width as int, image_height as int, *work_area))
            && place_in_range(cursor_x as int, PREVIEW_CURSOR_DX as int,
                window_size_for(kind, zoom, image_file, image_width as int, image_height as int, *work_area).0, work_area.right as int)
            && place_in_range(cursor_y as int, PREVIEW_CURSOR_DY as int,
                window_size_for(kind, zoom, image_file, image_width as int, image_height as int, *work_area).1, work_area.bottom as int)),
{
    if (kind == ClipKind::Image || (zoom && kind == ClipKind::Files && image_file)) && zoom
        && !zoom_size_fits(image_width, image_height, work_area) {
        return false;
    }
    let (w, h) = preview_window_size(kind, zoom, image_file, image_width, image_height, work_area);
    place_fits(cursor_x, PREVIEW_CURSOR_DX, w, work_area.right) && place_fits(cursor_y, PREVIEW_CURSOR_DY, h, work_area.bottom)
}

/// The request for showing an item: its size and place come from its kind,
/// the zoom flag, whether it is a file item pointing at an image file, its
/// image size (0 where unknown), the cursor and the work area. A zoomed
/// image file is requested as an image.
pub fn preview_request(
    item_id: i64,
    kind: ClipKind,
    image_width: usize,
    image_height: usize,
    header: String,
    body: String,
    cursor_x: i32,
    cursor_y: i32,
    work_area: &UiRect,
    zoom: bool,
    image_file: bool,
) -> (r: PreviewRequest)
    requires
        shows_image(kind, zoom, image_file) && zoom ==> zoom_size_in_range(image_width as int, image_height as int, *work_area),
        place_in_range(cursor_x as int, PREVIEW_CURSOR_DX as int,
            window_size_for(kind, zoom, image_file, image_width as int, image_height as int, *work_area).0, work_area.right as int),
        place_in_range(cursor_y as int, PREVIEW_CURSOR_DY as int,
            window_size_for(kind, zoom, image_file, image_width as int, image_height as int, *work_area).1, work_area.bottom as int),
    ensures
        r.item_id == item_id,
        r.image_shape == (if shows_image(kind, zoom, image_file) { Some((image_width, image_height)) } else { None::<(usize, usize)> }),
        r.header == header,
        r.body == body,
        r.w == window_size_for(kind, zoom, image_file, image_width as int, image_height as int, *work_area).0,
        r.h == window_size_for(kind, zoom, image_file, image_width as int, image_height as int, *work_area).1,
        r.x == place_axis(cursor_x as int, PREVIEW_CURSOR_DX as int, r.w as int, work_area.left as int, work_area.right as int),
        r.y == place_axis(cursor_y as int, PREVIEW_CURSOR_DY as int, r.h as int, work_area.top as int, work_area.bottom as int),
        r.zoom == zoom,
{
    let (w, h) = preview_window_size(kind, zoom, image_file, image_width, image_height, work_area);
    let (x, y) = preview_position(cursor_x, cursor_y, w, h, work_area);
    let image_shape = if kind == ClipKind::Image || (zoom && kind == ClipKind::Files && image_file) { Some((image_width, image_height)) } else { None };
    PreviewRequest { item_id, image_shape, header, body, x, y, w, h, zoom }
}

/// The rectangles the preview window paints into, from its client area.
pub struct PaintLayout {
    pub header: UiRect,
    pub image_area: UiRect,
    pub body: UiRect,
}

/// Header strip, image area and text area of a preview window whose client
/// area is `client`.
pub fn preview_paint_layout(client: &UiRect) -> (layout: PaintLayout)
    requires
        client.right >= i32::MIN + 14,
        client.bottom >= i32::MIN + 14,
    ensures
        layout.header == (UiRect { left: 14, top: 10, right: (client.right - 14) as i32, bottom: 34 }),
        layout.image_area == (UiRect { left: 12, top: 40, right: (client.right - 12) as i32, bottom: (client.bottom - 12) as i32 }),
        layout.body == (UiRect { left: 14, top: 42, right: (client.right - 14) as i32, bottom: (client.bottom - 14) as i32 }),
{
    PaintLayout {
        header: UiRect { left: 14, top: 10, right: client.right - 14, bottom: 34 },
        image_area: UiRect { left: 12, top: 40, right: client.right - 12, bottom: client.bottom - 12 },
        body: UiRect { left: 14, top: 42, right: client.right - 14, bottom: client.bottom - 14 },
    }
}

// ---------------------------------------------------------------------------
// The state of the preview window.
// ---------------------------------------------------------------------------

/// What the preview window shows and where it last was put.
pub struct HoverPreviewData {
    /// The item on show (-1 before the first, 0 after hiding).
    pub item_id: i64,
    pub header: String,
    pub body: String,
    /// Decoded RGBA pixels with their width and height.
    pub image: Option<(Vec<u8>, usize, usize)>,
    pub image_width: usize,
    pub image_height: usize,
    /// The item whose image is being decoded in the background (0: none).
    pub loading_item_id: i64,
    pub last_x: i32,
    pub last_y: i32,
    pub last_w: i32,
    pub last_h: i32,
    pub zoom_mode: bool,
}

/// One request to show the preview window.
pub struct PreviewRequest {
    pub item_id: i64,
    /// `Some((width, height))` for an image item, `None` for anything else.
    pub image_shape: Option<(usize, usize)>,
    pub header: String,
    pub body: String,
    pub x: i32,
    pub y: i32,
    pub w: i32,
    pub h: i32,
    pub zoom: bool,
}

/// What the Win32 side has to do after a request was applied.
#[derive(Clone, Copy, Debug, PartialEq, Eq, Structural)]
pub enum PreviewUpdate {
    /// Already on show as asked: nothing to do.
    Unchanged,
    /// Same content: move the window.
    Moved,
    /// Same item, other mode: move the window and repaint, the decoded
    /// image is kept.
    ModeSwitched,
    /// New content: move and show the window, start decoding the item's image
    /// in the background when `start_image_load`, and repaint when `redraw`.
    Replaced { start_image_load: bool, redraw: bool },
}

pub open spec fn same_content_ignoring_zoom(d: HoverPreviewData, r: PreviewRequest) -> bool {
    &&& d.item_id == r.item_id
    &&& d.header@ == r.header@
    &&& d.body@ == r.body@
    &&& same_shape(d, r)
}

/// The request's image shape agrees with the window's: the same size for an
/// image, and no image size held for anything else.
pub open spec fn same_shape(d: HoverPreviewData, r: PreviewRequest) -> bool {
    match r.image_shape {
        Some(s) => s == (d.image_width, d.image_height),
        None => d.image_width == 0 && d.image_height == 0,
    }
}

pub open spec fn same_content(d: HoverPreviewData, r: PreviewRequest) -> bool {
    same_content_ignoring_zoom(d, r) && d.zoom_mode == r.zoom
}

pub open spec fn same_geometry(d: HoverPreviewData, r: PreviewRequest) -> bool {
    d.last_x == r.x && d.last_y == r.y && d.last_w == r.w && d.last_h == r.h
}

pub open spec fn with_geometry(d: HoverPreviewData, r: PreviewRequest) -> HoverPreviewData {
    HoverPreviewData { last_x: r.x, last_y: r.y, last_w: r.w, last_h: r.h, ..d }
}

/// Whether applying `r` starts decoding the item's image.
pub open spec fn starts_image_load(d: HoverPreviewData, r: PreviewRequest, bytes: Option<Vec<u8>>) -> bool {
    r.image_shape is Some && bytes is None && d.loading_item_id != r.item_id
}

/// The image slot after `r` replaced the content: the item's own pixels
/// when it carries them, nothing otherwise.
pub open spec fn replaced_image(r: PreviewRequest, bytes: Option<Vec<u8>>) -> Option<(Vec<u8>, usize, usize)> {
    match (r.image_shape, bytes) {
        (Some(shape), Some(b)) => Some((b, shape.0, shape.1)),
        _ => None,
    }
}

pub open spec fn replaced_loading(d: HoverPreviewData, r: PreviewRequest, bytes: Option<Vec<u8>>) -> i64 {
    if r.image_shape is None {
        0
    } else if bytes is None {
        r.item_id
    } else {
        d.loading_item_id
    }
}

pub open spec fn replaced(d: HoverPreviewData, r: PreviewRequest, bytes: Option<Vec<u8>>) -> HoverPreviewData {
    HoverPreviewData {
        item_id: r.item_id,
        header: r.header,
        body: r.body,
        image: replaced_image(r, bytes),
        image_width: match r.image_shape { Some(s) => s.0, None => 0 },
        image_height: match r.image_shape { Some(s) => s.1, None => 0 },
        loading_item_id: replaced_loading(d, r, bytes),
        last_x: r.x,
        last_y: r.y,
        last_w: r.w,
        last_h: r.h,
        zoom_mode: r.zoom,
    }
}

/// The state after showing `r` on a window whose state is `d`, and what the
/// window has to do; `bytes` are the item's pixels where it carries them, and
/// `visible` tells whether the window is on screen.
pub open spec fn show_outcome(d: HoverPreviewData, r: PreviewRequest, bytes: Option<Vec<u8>>, visible: bool) -> (HoverPreviewData, PreviewUpdate) {
    if visible && same_content(d, r) && same_geometry(d, r) {
        (d, PreviewUpdate::Unchanged)
    } else if visible && same_content(d, r) {
        (with_geometry(d, r), PreviewUpdate::Moved)
    } else if visible && same_content_ignoring_zoom(d, r) {
        (HoverPreviewData { zoom_mode: r.zoom, ..with_geometry(d, r) }, PreviewUpdate::ModeSwitched)
    } else {
        (
            replaced(d, r, bytes),
            PreviewUpdate::Replaced { start_image_load: starts_image_load(d, r, bytes), redraw: !same_content(d, r) },
        )
    }
}

impl HoverPreviewData {
    /// The state of a freshly created preview window.
    pub fn new() -> (d: HoverPreviewData)
        ensures
            d.item_id == -1,
            d.header@.len() == 0,
            d.body@.len() == 0,
            d.image is None,
            d.image_width == 0,
            d.image_height == 0,
            d.loading_item_id == 0,
            d.last_x == i32::MIN,
            d.last_y == i32::MIN,
            d.last_w == 0,
            d.last_h == 0,
            !d.zoom_mode,
    {
        HoverPreviewData {
            item_id: -1,
            header: String::new(),
            body: String::new(),
            image: None,
            image_width: 0,
            image_height: 0,
            loading_item_id: 0,
            last_x: i32::MIN,
            last_y: i32::MIN,
            last_w: 0,
            last_h: 0,
            zoom_mode: false,
        }
    }

    /// Forgets the content when the window is hidden; the last geometry stays.
    pub fn clear(&mut self)
        ensures
            final(self).item_id == 0,
            final(self).header@.len() == 0,
            final(self).body@.len() == 0,
            final(self).image is None,
            final(self).image_width == 0,
            final(self).image_height == 0,
            final(self).loading_item_id == 0,
            !final(self).zoom_mode,
            final(self).last_x == old(self).last_x,
            final(self).last_y == old(self).last_y,
            final(self).last_w == old(self).last_w,
            final(self).last_h == old(self).last_h,
    {
        self.item_id = 0;
        self.header = String::new();
        self.body = String::new();
        self.image = None;
        self.image_width = 0;
        self.image_height = 0;
        self.loading_item_id = 0;
        self.zoom_mode = false;
    }

    /// Takes the pixels decoded in the background for `item_id`; a result
    /// for an item no longer on show is dropped. Returns whether the window
    /// must be repainted.
    pub fn accept_image(&mut self, item_id: i64, image: Option<(Vec<u8>, usize, usize)>) -> (repaint: bool)
        ensures
            repaint == (old(self).item_id == item_id),
            repaint ==> *final(self) == (HoverPreviewData { image: image, loading_item_id: 0, ..*old(self) }),
            !repaint ==> *final(self) == *old(self),
    {
        if self.item_id == item_id {
            self.image = image;
            self.loading_item_id = 0;
            true
        } else {
            false
        }
    }

    /// Applies a request to show the preview (see `show_outcome`).
    pub fn apply_show(&mut self, request: PreviewRequest, bytes: Option<Vec<u8>>, visible: bool) -> (update: PreviewUpdate)
        ensures
            (*final(self), update) == show_outcome(*old(self), request, bytes, visible),
    {
        let same_shape = match request.image_shape {
            Some(shape) => shape.0 == self.image_width && shape.1 == self.image_height,
            None => self.image_width == 0 && self.image_height == 0,
        };
        let same_ignoring_zoom = self.item_id == request.item_id && self.header == request.header
            && self.body == request.body && same_shape;
        let same = same_ignoring_zoom && self.zoom_mode == request.zoom;
        let same_geometry = self.last_x == request.x && self.last_y == request.y && self.last_w == request.w
            && self.last_h == request.h;
        if visible && same && same_geometry {
            return PreviewUpdate::Unchanged;
        }
        if visible && same {
            self.last_x = request.x;
            self.last_y = request.y;
            self.last_w = request.w;
            self.last_h = request.h;
            return PreviewUpdate::Moved;
        }
        if visible && same_ignoring_zoom {
            self.last_x = request.x;
            self.last_y = request.y;
            self.last_w = request.w;
            self.last_h = request.h;
            self.zoom_mode = request.zoom;
            return PreviewUpdate::ModeSwitched;
        }
        let mut start_image_load = false;
        let image = match request.image_shape {
            Some(shape) => match bytes {
                Some(b) => Some((b, shape.0, shape.1)),
                None => {
                    if self.loading_item_id != request.item_id {
                        self.loading_item_id = request.item_id;
                        start_image_load = true;
                    }
                    None
                },
            },
            None => {
                self.loading_item_id = 0;
                None
            },
        };
        self.item_id = request.item_id;
        self.header = request.header;
        self.body = request.body;
        self.image = image;
        match request.image_shape {
            Some(shape) => {
                self.image_width = shape.0;
                self.image_height = shape.1;
            },
            None => {
                self.image_width = 0;
                self.image_height = 0;
            },
        }
        self.last_x = request.x;
        self.last_y = request.y;
        self.last_w = request.w;
        self.last_h = request.h;
        self.zoom_mode = request.zoom;
        PreviewUpdate::Replaced { start_image_load, redraw: !same }
    }
}

/// Whether a transient zoom preview is on screen.
pub fn hover_zoom_active(data: &HoverPreviewData, visible: bool) -> (active: bool)
    ensures
        active == (data.zoom_mode && visible),
{
    data.zoom_mode && visible
}

/// Showing the same request again, on the visible window, changes nothing
/// and asks for nothing, whatever the item's kind.
pub proof fn law_show_is_idempotent(
    d: HoverPreviewData,
    r: PreviewRequest,
    bytes: Option<Vec<u8>>,
    later_bytes: Option<Vec<u8>>,
    visible: bool,
)
    ensures
        ({
            let d1 = show_outcome(d, r, bytes, visible).0;
            show_outcome(d1, r, later_bytes, true) == (d1, PreviewUpdate::Unchanged)
        }),
{
}

/// Switching the same visible item between the small preview and the zoom
/// only moves and repaints the window: the decoded image and the pending
/// load are kept.
pub proof fn law_zoom_switch_keeps_image(d: HoverPreviewData, r: PreviewRequest, bytes: Option<Vec<u8>>)
    requires
        same_content_ignoring_zoom(d, r),
        d.zoom_mode != r.zoom,
    ensures
        show_outcome(d, r, bytes, true).1 == PreviewUpdate::ModeSwitched,
        show_outcome(d, r, bytes, true).0.image == d.image,
        show_outcome(d, r, bytes, true).0.loading_item_id == d.loading_item_id,
        show_outcome(d, r, bytes, true).0.zoom_mode == r.zoom,
{
}

/// A decode is started at most once for an item: once a request has put the
/// item's content in place, the same request never starts a second load,
/// whether the window is shown or not.
pub proof fn law_image_load_starts_once(
    d: HoverPreviewData,
    r: PreviewRequest,
    bytes: Option<Vec<u8>>,
    visible: bool,
    visible_again: bool,
)
    requires
        show_outcome(d, r, bytes, visible).1 is Replaced,
    ensures
        ({
            let d1 = show_outcome(d, r, bytes, visible).0;
            !(show_outcome(d1, r, bytes, visible_again).1 matches PreviewUpdate::Replaced { start_image_load: true, .. })
        }),
{
}

} // verus!
