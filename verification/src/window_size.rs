use vstd::prelude::*;
use vstd::math::{max, min};

use crate::geometry::{trunc_div, UiRect};

verus! {

/// Size of the hover preview window for text and file items.
pub const PREVIEW_W_TEXT: i32 = 420;
pub const PREVIEW_H_TEXT: i32 = 220;
/// Size of the ordinary (not zoomed) hover preview window for images.
pub const PREVIEW_W_IMAGE: i32 = 520;
pub const PREVIEW_H_IMAGE: i32 = 360;

/// Horizontal padding of the zoom window around the image (left + right).
pub const ZOOM_CHROME_W: i32 = 24;
/// Vertical padding of the zoom window: header of 40 plus 12 below.
pub const ZOOM_CHROME_H: i32 = 52;
pub const ZOOM_MIN_W: i32 = 240;
pub const ZOOM_MIN_H: i32 = 180;

/// Room for the image along one axis: 80% of the work area's extent minus
/// the chrome, but never below the window minimum.
pub open spec fn zoom_avail(extent: int, chrome: int, minimum: int) -> int {
    max(trunc_div(extent * 8, 10) - chrome, minimum)
}

pub open spec fn zoom_avail_w(wa: UiRect) -> int {
    zoom_avail(wa.spec_width(), ZOOM_CHROME_W as int, ZOOM_MIN_W as int)
}

pub open spec fn zoom_avail_h(wa: UiRect) -> int {
    zoom_avail(wa.spec_height(), ZOOM_CHROME_H as int, ZOOM_MIN_H as int)
}

/// The common scale numerator: the content box is `(s / ih, s / iw)`. Each of
/// the three terms is one limit: the available width, the available height,
/// and the image itself (the preview never enlarges).
pub open spec fn zoom_scale(iw: int, ih: int, aw: int, ah: int) -> int {
    min(min(aw * ih, ah * iw), iw * ih)
}

/// The image area inside the zoom window, for an image of `iw` x `ih` pixels
/// (both non-zero).
pub open spec fn zoom_content_size(iw: int, ih: int, wa: UiRect) -> (int, int) {
    let s = zoom_scale(iw, ih, zoom_avail_w(wa), zoom_avail_h(wa));
    (max(s / ih, 1), max(s / iw, 1))
}

/// The zoom window's size: the content box plus chrome, lifted to the
/// minimum window; an image whose size is unknown (a zero dimension) gets
/// the ordinary image preview size.
pub open spec fn image_zoom_size(iw: int, ih: int, wa: UiRect) -> (int, int) {
    if iw == 0 || ih == 0 {
        (PREVIEW_W_IMAGE as int, PREVIEW_H_IMAGE as int)
    } else {
        let c = zoom_content_size(iw, ih, wa);
        (max(c.0 + ZOOM_CHROME_W, ZOOM_MIN_W as int), max(c.1 + ZOOM_CHROME_H, ZOOM_MIN_H as int))
    }
}

/// The inputs on which the computation stays inside `i32` and `i64`
/// (elsewhere the arithmetic overflows).
pub open spec fn zoom_size_in_range(iw: int, ih: int, wa: UiRect) -> bool {
    iw == 0 || ih == 0 || {
        &&& i32::MIN <= wa.spec_width() * 8 <= i32::MAX
        &&& i32::MIN <= wa.spec_height() * 8 <= i32::MAX
        &&& zoom_avail_w(wa) * ih <= i64::MAX
        &&& zoom_avail_h(wa) * iw <= i64::MAX
        &&& iw * ih <= i64::MAX
    }
}

fn zoom_avail_exec(extent: i32, chrome: i32, minimum: i32) -> (a: i32)
    requires
        i32::MIN <= extent * 8 <= i32::MAX,
        0 <= chrome <= 100,
    ensures
        a == zoom_avail(extent as int, chrome as int, minimum as int),
{
    let a = extent * 8 / 10 - chrome;
    if a < minimum {
        minimum
    } else {
        a
    }
}

/// Whether `image_zoom_window_size` stays free of overflow on these inputs.
pub fn zoom_size_fits(image_width: usize, image_height: usize, work_area: &UiRect) -> (fits: bool)
    ensures
        fits == zoom_size_in_range(image_width as int, image_height as int, *work_area),
{
    if image_width == 0 || image_height == 0 {
        return true;
    }
    let w8 = (work_area.right as i128 - work_area.left as i128) * 8;
    let h8 = (work_area.bottom as i128 - work_area.top as i128) * 8;
    if w8 < i32::MIN as i128 || w8 > i32::MAX as i128 || h8 < i32::MIN as i128 || h8 > i32::MAX as i128 {
        return false;
    }
    let mut aw = w8 / 10 - 24;
    if aw < 240 {
        aw = 240;
    }
    let mut ah = h8 / 10 - 52;
    if ah < 180 {
        ah = 180;
    }
    proof {
        assert(aw * image_height <= 0x1_0000_0000i128 * 0x1_0000_0000_0000_0000i128) by (nonlinear_arith)
            requires 0 <= aw <= 0x1_0000_0000i128, 0 <= image_height <= 0x1_0000_0000_0000_0000i128;
        assert(ah * image_width <= 0x1_0000_0000i128 * 0x1_0000_0000_0000_0000i128) by (nonlinear_arith)
            requires 0 <= ah <= 0x1_0000_0000i128, 0 <= image_width <= 0x1_0000_0000_0000_0000i128;
        assert(image_width as int * image_height as int <= 0xFFFF_FFFF_FFFF_FFFFint * 0xFFFF_FFFF_FFFF_FFFFint) by (nonlinear_arith)
            requires 0 <= image_width <= 0xFFFF_FFFF_FFFF_FFFFint, 0 <= image_height <= 0xFFFF_FFFF_FFFF_FFFFint;
    }
    let by_w = aw * image_height as i128;
    let by_h = ah * image_width as i128;
    let whole = image_width as u128 * image_height as u128;
    by_w <= i64::MAX as i128 && by_h <= i64::MAX as i128 && whole <= i64::MAX as u128
}

/// Size of the image zoom window in physical pixels.
///
/// The content keeps the image's aspect ratio, shrinks to fit 80% of the work
/// area and never enlarges the image; see the laws below.
pub fn image_zoom_window_size(image_width: usize, image_height: usize, work_area: &UiRect) -> (size: (i32, i32))
    requires
        zoom_size_in_range(image_width as int, image_height as int, *work_area),
    ensures
        size.0 == image_zoom_size(image_width as int, image_height as int, *work_area).0,
        size.1 == image_zoom_size(image_width as int, image_height as int, *work_area).1,
{
    if image_width == 0 || image_height == 0 {
        return (PREVIEW_W_IMAGE, PREVIEW_H_IMAGE);
    }
    let avail_w = zoom_avail_exec(work_area.right - work_area.left, ZOOM_CHROME_W, ZOOM_MIN_W);
    let avail_h = zoom_avail_exec(work_area.bottom - work_area.top, ZOOM_CHROME_H, ZOOM_MIN_H);
    let ghost iwi = image_width as int;
    let ghost ihi = image_height as int;
    proof {
        assert(iwi <= iwi * ihi) by (nonlinear_arith)
            requires ihi >= 1, iwi >= 1;
        assert(ihi <= iwi * ihi) by (nonlinear_arith)
            requires ihi >= 1, iwi >= 1;
    }
    let iw = image_width as i64;
    let ih = image_height as i64;
    proof {
        assert(avail_w as int * ih >= 0) by (nonlinear_arith)
            requires avail_w >= 240, ih >= 1;
        assert(avail_h as int * iw >= 0) by (nonlinear_arith)
            requires avail_h >= 180, iw >= 1;
    }
    let mut scale_num = avail_w as i64 * ih;
    let by_height = avail_h as i64 * iw;
    if by_height < scale_num {
        scale_num = by_height;
    }
    let whole = iw * ih;
    if whole < scale_num {
        scale_num = whole;
    }
    proof {
        assert(scale_num <= avail_w as int * ih);
        assert(scale_num / ih <= avail_w) by (nonlinear_arith)
            requires scale_num <= avail_w as int * ih, ih >= 1, scale_num >= 0;
        assert(scale_num <= avail_h as int * iw);
        assert(scale_num / iw <= avail_h) by (nonlinear_arith)
            requires scale_num <= avail_h as int * iw, iw >= 1, scale_num >= 0;
        assert(scale_num / ih >= 0) by (nonlinear_arith)
            requires ih >= 1, scale_num >= 0;
        assert(scale_num / iw >= 0) by (nonlinear_arith)
            requires iw >= 1, scale_num >= 0;
    }
    let mut w = (scale_num / ih) as i32;
    if w < 1 {
        w = 1;
    }
    let mut h = (scale_num / iw) as i32;
    if h < 1 {
        h = 1;
    }
    let mut win_w = w + ZOOM_CHROME_W;
    if win_w < ZOOM_MIN_W {
        win_w = ZOOM_MIN_W;
    }
    let mut win_h = h + ZOOM_CHROME_H;
    if win_h < ZOOM_MIN_H {
        win_h = ZOOM_MIN_H;
    }
    (win_w, win_h)
}

/// An image whose size is unknown (a zero dimension, as history or LAN-synced
/// items may have) gets the ordinary image preview window, never a smaller one.
pub proof fn law_zoom_unknown_size_uses_image_preview(iw: int, ih: int, wa: UiRect)
    requires
        iw == 0 || ih == 0,
    ensures
        image_zoom_size(iw, ih, wa) == (PREVIEW_W_IMAGE as int, PREVIEW_H_IMAGE as int),
{
}

/// The zoomed content never enlarges the image and never exceeds the room
/// that 80% of the work area leaves (both at least one pixel).
pub proof fn law_zoom_content_bounded(iw: int, ih: int, wa: UiRect)
    requires
        iw >= 1,
        ih >= 1,
    ensures
        1 <= zoom_content_size(iw, ih, wa).0 <= iw,
        1 <= zoom_content_size(iw, ih, wa).1 <= ih,
        zoom_content_size(iw, ih, wa).0 <= zoom_avail_w(wa),
        zoom_content_size(iw, ih, wa).1 <= zoom_avail_h(wa),
{
    let aw = zoom_avail_w(wa);
    let ah = zoom_avail_h(wa);
    let s = zoom_scale(iw, ih, aw, ah);
    assert(s >= 0) by (nonlinear_arith)
        requires s == min(min(aw * ih, ah * iw), iw * ih), aw >= 1, ah >= 1, iw >= 1, ih >= 1;
    assert(s / ih <= iw && s / ih <= aw) by (nonlinear_arith)
        requires s <= iw * ih, s <= aw * ih, s >= 0, ih >= 1;
    assert(s / iw <= ih && s / iw <= ah) by (nonlinear_arith)
        requires s <= iw * ih, s <= ah * iw, s >= 0, iw >= 1;
}

/// The zoomed content keeps the image's aspect ratio up to rounding:
/// `w / h` and `iw / ih` differ by less than one pixel of the larger side.
pub proof fn law_zoom_keeps_aspect_ratio(iw: int, ih: int, wa: UiRect)
    requires
        iw >= 1,
        ih >= 1,
    ensures
        ({
            let c = zoom_content_size(iw, ih, wa);
            -max(iw, ih) < c.0 * ih - c.1 * iw < max(iw, ih)
        }),
{
    let aw = zoom_avail_w(wa);
    let ah = zoom_avail_h(wa);
    let s = zoom_scale(iw, ih, aw, ah);
    let c = zoom_content_size(iw, ih, wa);
    assert(s >= 1) by (nonlinear_arith)
        requires s == min(min(aw * ih, ah * iw), iw * ih), aw >= 1, ah >= 1, iw >= 1, ih >= 1;
    assert(s - ih < (s / ih) * ih <= s) by (nonlinear_arith)
        requires s >= 0, ih >= 1;
    assert(s - iw < (s / iw) * iw <= s) by (nonlinear_arith)
        requires s >= 0, iw >= 1;
    assert(c.0 * ih == if s / ih >= 1 { (s / ih) * ih } else { ih }) by (nonlinear_arith)
        requires c.0 == max(s / ih, 1);
    assert(c.1 * iw == if s / iw >= 1 { (s / iw) * iw } else { iw }) by (nonlinear_arith)
        requires c.1 == max(s / iw, 1);
    assert(s / ih >= 1 ==> (s / ih) * ih >= ih) by (nonlinear_arith)
        requires ih >= 1;
    assert(s / iw >= 1 ==> (s / iw) * iw >= iw) by (nonlinear_arith)
        requires iw >= 1;
    assert(s / ih >= 0 && s / iw >= 0) by (nonlinear_arith)
        requires s >= 0, ih >= 1, iw >= 1;
}

/// An image that fits the available room is shown pixel for pixel.
pub proof fn law_zoom_small_image_one_to_one(iw: int, ih: int, wa: UiRect)
    requires
        1 <= iw <= zoom_avail_w(wa),
        1 <= ih <= zoom_avail_h(wa),
    ensures
        zoom_content_size(iw, ih, wa) == (iw, ih),
{
    let aw = zoom_avail_w(wa);
    let ah = zoom_avail_h(wa);
    assert(iw * ih <= aw * ih && iw * ih <= ah * iw) by (nonlinear_arith)
        requires 1 <= iw <= aw, 1 <= ih <= ah;
    let s = zoom_scale(iw, ih, aw, ah);
    assert(s == iw * ih);
    assert((iw * ih) / ih == iw && (iw * ih) / iw == ih) by (nonlinear_arith)
        requires iw >= 1, ih >= 1;
}

/// The content is as large as the limits allow: it takes the whole available
/// width, or the whole available height, or the image's own size.
pub proof fn law_zoom_fills_a_limit(iw: int, ih: int, wa: UiRect)
    requires
        iw >= 1,
        ih >= 1,
    ensures
        ({
            let c = zoom_content_size(iw, ih, wa);
            c.0 == zoom_avail_w(wa) || c.1 == zoom_avail_h(wa) || c == (iw, ih)
        }),
{
    let aw = zoom_avail_w(wa);
    let ah = zoom_avail_h(wa);
    let s = zoom_scale(iw, ih, aw, ah);
    assert((aw * ih) / ih == aw) by (nonlinear_arith)
        requires ih >= 1;
    assert((ah * iw) / iw == ah) by (nonlinear_arith)
        requires iw >= 1;
    assert((iw * ih) / ih == iw && (iw * ih) / iw == ih) by (nonlinear_arith)
        requires iw >= 1, ih >= 1;
}

/// The zoom window depends on the work area's size, not on where it lies:
/// two work areas of the same width and height (say on monitors left and
/// right of the primary one) give the same window.
pub proof fn law_zoom_size_ignores_position(iw: int, ih: int, wa: UiRect, wb: UiRect)
    requires
        wa.right - wa.left == wb.right - wb.left,
        wa.bottom - wa.top == wb.bottom - wb.top,
    ensures
        image_zoom_size(iw, ih, wa) == image_zoom_size(iw, ih, wb),
{
}

/// On a work area of at least 330 x 290 pixels the zoom window of any image
/// stays within 80% of the work area's width and height.
pub proof fn law_zoom_within_eighty_percent(iw: int, ih: int, wa: UiRect)
    requires
        iw >= 1,
        ih >= 1,
        wa.right - wa.left >= 330,
        wa.bottom - wa.top >= 290,
    ensures
        image_zoom_size(iw, ih, wa).0 * 10 <= (wa.right - wa.left) * 8,
        image_zoom_size(iw, ih, wa).1 * 10 <= (wa.bottom - wa.top) * 8,
{
    law_zoom_content_bounded(iw, ih, wa);
}

/// The zoom window is never smaller than its minimum size.
pub proof fn law_zoom_window_minimum(iw: int, ih: int, wa: UiRect)
    ensures
        image_zoom_size(iw, ih, wa).0 >= ZOOM_MIN_W,
        image_zoom_size(iw, ih, wa).1 >= ZOOM_MIN_H,
{
}

} // verus!
