use vstd::prelude::*;
use vstd::math::{max, min};

use crate::geometry::{trunc_div, UiPoint};
use crate::strings::chars_of;

verus! {


/// Byte `k` (0 = least significant) of a 32-bit colour value.
pub open spec fn byte_of(v: u32, k: u32) -> u32 {
    (v >> (8 * k)) & 0xFF
}

/// Converts a GDI `COLORREF` (`0x00BBGGRR`) into an opaque GDI+ ARGB value
/// (`0xFFRRGGBB`).
pub fn colorref_to_argb(color: u32) -> (argb: u32)
    ensures
        byte_of(argb, 3) == 0xFF,
        byte_of(argb, 2) == byte_of(color, 0),
        byte_of(argb, 1) == byte_of(color, 1),
        byte_of(argb, 0) == byte_of(color, 2),
{
    let r = color & 0xFF;
    let g = (color >> 8) & 0xFF;
    let b = (color >> 16) & 0xFF;
    let argb = 0xFF00_0000u32 | (r << 16) | (g << 8) | b;
    assert(byte_of(argb, 3) == 0xFF && byte_of(argb, 2) == byte_of(color, 0)
        && byte_of(argb, 1) == byte_of(color, 1) && byte_of(argb, 0) == byte_of(color, 2))
        by (bit_vector)
        requires
            r == color & 0xFF,
            g == (color >> 8) & 0xFF,
            b == (color >> 16) & 0xFF,
            argb == 0xFF00_0000u32 | (r << 16) | (g << 8) | b,
    ;
    argb
}


/// Source images with more pixels than this get no thumbnail.
pub const MAX_THUMBNAIL_SOURCE_PIXELS: u64 = 80_000_000;

// ---------------------------------------------------------------------------
// Thumbnails.
// ---------------------------------------------------------------------------

/// Whether `c` has the Unicode `White_Space` property (what
/// `char::is_whitespace` tells): the 25 code points U+0009 to U+000D, U+0020,
/// U+0085, U+00A0, U+1680, U+2000 to U+200A, U+2028, U+2029, U+202F, U+205F
/// and U+3000.
pub open spec fn unicode_white_space(c: char) -> bool {
    let v = c as u32;
    (0x09 <= v && v <= 0x0D) || v == 0x20 || v == 0x85 || v == 0xA0 || v == 0x1680
        || (0x2000 <= v && v <= 0x200A) || v == 0x2028 || v == 0x2029 || v == 0x202F
        || v == 0x205F || v == 0x3000
}

/// Whether `c` is Unicode white space.
fn char_is_whitespace(c: char) -> (w: bool)
    ensures
        w == unicode_white_space(c),
{
    let v = c as u32;
    (0x09 <= v && v <= 0x0D) || v == 0x20 || v == 0x85 || v == 0xA0 || v == 0x1680
        || (0x2000 <= v && v <= 0x200A) || v == 0x2028 || v == 0x2029 || v == 0x202F
        || v == 0x205F || v == 0x3000
}

/// Whether `s` is empty or white space only (what `s.trim().is_empty()`
/// tells).
pub fn is_blank(s: &str) -> (blank: bool)
    ensures
        blank == forall|i: int| 0 <= i < s@.len() ==> #[trigger] unicode_white_space(s@[i]),
{
    let chars = chars_of(s);
    let mut i: usize = 0;
    while i < chars.len()
        invariant
            i <= chars.len(),
            chars@ == s@,
            forall|k: int| 0 <= k < i ==> #[trigger] unicode_white_space(s@[k]),
        decreases chars.len() - i,
    {
        if !char_is_whitespace(chars[i]) {
            return false;
        }
        i += 1;
    }
    true
}

/// Whether a thumbnail may be asked for: a path that is not blank and a
/// non-zero size.
pub fn thumbnail_request_valid(path: &str, max_side: usize) -> (ok: bool)
    ensures
        ok == (max_side != 0 && !(forall|i: int| 0 <= i < path@.len() ==> #[trigger] unicode_white_space(path@[i]))),
{
    !is_blank(path) && max_side != 0
}

/// `n * num / den`, rounded to the nearest integer (halves up).
pub open spec fn round_div(n: int, num: int, den: int) -> int {
    (n * num + den / 2) / den
}

/// The thumbnail size for a `w` x `h` source and a longest side of at most
/// `max_side`: the longer side becomes `min(max_side, longest)`, the other
/// keeps the aspect ratio, rounded, and at least 1. No thumbnail for an
/// empty or oversized source, or for a size that does not fit `u32`.
pub open spec fn thumbnail_size_spec(w: int, h: int, max_side: int) -> Option<(int, int)> {
    if w == 0 || h == 0 || w * h > MAX_THUMBNAIL_SOURCE_PIXELS || max_side == 0 || max_side > u32::MAX {
        None
    } else {
        let requested = min(max_side, max(w, h));
        if w >= h {
            Some((requested, max(round_div(h, requested, w), 1)))
        } else {
            Some((max(round_div(w, requested, h), 1), requested))
        }
    }
}

/// The size of the thumbnail to request for a `source_width` x
/// `source_height` image whose longer side is to be at most `max_side`.
pub fn thumbnail_size(source_width: u32, source_height: u32, max_side: usize) -> (size: Option<(u32, u32)>)
    ensures
        match thumbnail_size_spec(source_width as int, source_height as int, max_side as int) {
            Some(s) => size matches Some(t) && t.0 == s.0 && t.1 == s.1,
            None => size is None,
        },
{
    if source_width == 0 || source_height == 0 {
        return None;
    }
    proof {
        assert(source_width as int * source_height as int <= u32::MAX as int * u32::MAX as int) by (nonlinear_arith)
            requires source_width <= u32::MAX, source_height <= u32::MAX, source_width >= 0, source_height >= 0;
    }
    let pixels = source_width as u64 * source_height as u64;
    if pixels > MAX_THUMBNAIL_SOURCE_PIXELS || max_side == 0 || max_side > u32::MAX as usize {
        return None;
    }
    let longest = if source_width >= source_height { source_width } else { source_height };
    let requested = if (max_side as u32) < longest { max_side as u32 } else { longest };
    let w = source_width as u64;
    let h = source_height as u64;
    let r = requested as u64;
    if source_width >= source_height {
        proof {
            assert(h * r <= h * w) by (nonlinear_arith)
                requires r <= w, h >= 0;
            assert((h * r + w / 2) / (w as int) <= r) by (nonlinear_arith)
                requires h <= w, w >= 1, r >= 0;
        }
        let mut other = (h * r + w / 2) / w;
        if other < 1 {
            other = 1;
        }
        Some((requested, other as u32))
    } else {
        proof {
            assert(w * r <= w * h) by (nonlinear_arith)
                requires r <= h, w >= 0;
            assert((w * r + h / 2) / (h as int) <= r) by (nonlinear_arith)
                requires w < h, h >= 1, r >= 0;
        }
        let mut other = (w * r + h / 2) / h;
        if other < 1 {
            other = 1;
        }
        Some((other as u32, requested))
    }
}

/// Scaling `n <= den` by `num / den` (with `num <= den`) gives at most `n`
/// and at most `num`.
proof fn lemma_round_div_bounded(n: int, num: int, den: int)
    requires
        0 <= n <= den,
        0 <= num <= den,
        den >= 1,
    ensures
        round_div(n, num, den) <= n,
        round_div(n, num, den) <= num,
{
    let a = n * num;
    assert(a <= n * den && a <= den * num) by (nonlinear_arith)
        requires 0 <= n <= den, 0 <= num <= den, a == n * num;
    lemma_div_below(a + den / 2, den, n);
    lemma_div_below(a + den / 2, den, num);
}

/// `x / d <= q` when `x < (q + 1) * d`.
proof fn lemma_div_below(x: int, d: int, q: int)
    requires
        d >= 1,
        0 <= x,
        x < q * d + d,
    ensures
        x / d <= q,
{
    assert(x / d <= q) by (nonlinear_arith)
        requires d >= 1, 0 <= x, x < q * d + d;
}

/// A thumbnail never enlarges the source: both sides are between 1 and the
/// source's, and the longer side is exactly the requested length.
pub proof fn law_thumbnail_never_upscales(w: int, h: int, max_side: int)
    requires
        max_side >= 0,
        w >= 0,
        h >= 0,
        thumbnail_size_spec(w, h, max_side) is Some,
    ensures
        ({
            let t = thumbnail_size_spec(w, h, max_side)->0;
            &&& 1 <= t.0 <= w
            &&& 1 <= t.1 <= h
            &&& max(t.0, t.1) == min(max_side, max(w, h))
        }),
{
    let t = thumbnail_size_spec(w, h, max_side)->0;
    let r = min(max_side, max(w, h));
    if w >= h {
        lemma_round_div_bounded(h, r, w);
    } else {
        lemma_round_div_bounded(w, r, h);
    }
}

/// The shorter side of a thumbnail is the source's aspect ratio applied to
/// the longer side, rounded to the nearest pixel (and at least 1).
pub proof fn law_thumbnail_rounds_to_nearest(w: int, h: int, max_side: int)
    requires
        max_side >= 0,
        w >= 1,
        h >= 1,
        thumbnail_size_spec(w, h, max_side) is Some,
    ensures
        ({
            let t = thumbnail_size_spec(w, h, max_side)->0;
            let r = min(max_side, max(w, h));
            &&& w >= h ==> t.1 == max(round_div(h, r, w), 1)
                && -w <= 2 * (round_div(h, r, w) * w - h * r) <= w
            &&& w < h ==> t.0 == max(round_div(w, r, h), 1)
                && -h <= 2 * (round_div(w, r, h) * h - w * r) <= h
        }),
{
    let r = min(max_side, max(w, h));
    if w >= h {
        let q = round_div(h, r, w);
        assert(-w <= 2 * (q * w - h * r) <= w) by (nonlinear_arith)
            requires q == (h * r + w / 2) / w, w >= 1;
    } else {
        let q = round_div(w, r, h);
        assert(-h <= 2 * (q * h - w * r) <= h) by (nonlinear_arith)
            requires q == (w * r + h / 2) / h, h >= 1;
    }
}

// ---------------------------------------------------------------------------
// Locked bitmap pixels.
// ---------------------------------------------------------------------------

/// The rectangle to lock, `width` x `height`, as GDI+ takes it (`i32`).
pub fn lock_rect_size(width: usize, height: usize) -> (size: Option<(i32, i32)>)
    ensures
        size matches Some(s) ==> s.0 == width && s.1 == height,
        size is None <==> (width > i32::MAX || height > i32::MAX),
{
    if width > i32::MAX as usize || height > i32::MAX as usize {
        None
    } else {
        Some((width as i32, height as i32))
    }
}

/// The bytes of one pixel row and of the whole picture, for a locked
/// bitmap `width` pixels wide and `height` high with a row stride of
/// `stride` bytes (negative for a bottom-up bitmap). `None` where a size
/// overflows or the stride is shorter than a row.
pub fn locked_copy_layout(width: usize, height: usize, stride: i32) -> (layout: Option<(usize, usize)>)
    ensures
        match layout {
            Some(l) => {
                &&& l.0 == width * 4
                &&& l.1 == width * 4 * height
                &&& width * 4 <= (if stride < 0 { -stride } else { stride as int })
            },
            None => width * 4 > usize::MAX
                || width * 4 > (if stride < 0 { -stride } else { stride as int })
                || width * 4 * height > usize::MAX,
        },
{
    let row_bytes = match width.checked_mul(4) {
        Some(b) => b,
        None => return None,
    };
    let stride_bytes: u64 = if stride < 0 { (-(stride as i64)) as u64 } else { stride as u64 };
    if (stride_bytes as u128) < (row_bytes as u128) {
        return None;
    }
    match row_bytes.checked_mul(height) {
        Some(total) => Some((row_bytes, total)),
        None => None,
    }
}

/// The bytes of BGRA pixels with blue and red swapped: RGBA.
pub open spec fn swap_red_blue(p: Seq<u8>) -> Seq<u8> {
    Seq::new(p.len(), |i: int| if i % 4 == 0 { p[i + 2] } else if i % 4 == 2 { p[i - 2] } else { p[i] })
}

/// The RGBA pixels of BGRA pixels.
pub fn bgra_to_rgba(bgra: &[u8]) -> (rgba: Vec<u8>)
    requires
        bgra@.len() % 4 == 0,
    ensures
        rgba@ == swap_red_blue(bgra@),
{
    let mut out: Vec<u8> = Vec::new();
    let mut i: usize = 0;
    let ghost target = swap_red_blue(bgra@);
    while i < bgra.len()
        invariant
            bgra@.len() % 4 == 0,
            i % 4 == 0,
            i <= bgra.len(),
            target == swap_red_blue(bgra@),
            out@ == target.take(i as int),
        decreases bgra.len() - i,
    {
        let ghost prev = out@;
        out.push(bgra[i + 2]);
        out.push(bgra[i + 1]);
        out.push(bgra[i]);
        out.push(bgra[i + 3]);
        proof {
            assert((i + 0) % 4 == 0 && (i + 1) % 4 == 1 && (i + 2) % 4 == 2 && (i + 3) % 4 == 3);
            assert(target[i + 0] == bgra@[i + 2]);
            assert(target[i + 1] == bgra@[i + 1]);
            assert(target[i + 2] == bgra@[i + 0]);
            assert(target[i + 3] == bgra@[i + 3]);
            assert(out@ =~= target.take(i + 4));
        }
        i += 4;
    }
    assert(out@ =~= target);
    out
}

/// Every pixel's alpha byte is 0.
pub open spec fn all_transparent(p: Seq<u8>) -> bool {
    forall|i: int| 0 <= i < p.len() && i % 4 == 3 ==> #[trigger] p[i] == 0
}

/// A picture whose alpha is 0 everywhere carries no alpha at all: it is
/// made opaque. Any other picture stays as it is.
pub open spec fn opaque_if_transparent(p: Seq<u8>) -> Seq<u8> {
    if all_transparent(p) {
        Seq::new(p.len(), |i: int| if i % 4 == 3 { 255u8 } else { p[i] })
    } else {
        p
    }
}

/// Makes the RGBA `pixels` opaque when every alpha byte is 0.
pub fn force_opaque_if_transparent(pixels: &mut Vec<u8>)
    requires
        old(pixels)@.len() % 4 == 0,
    ensures
        final(pixels)@ == opaque_if_transparent(old(pixels)@),
{
    let n = pixels.len();
    let mut i: usize = 0;
    let mut transparent = true;
    while i < n
        invariant_except_break
            transparent,
        invariant
            n == pixels@.len(),
            n % 4 == 0,
            i % 4 == 0,
            i <= n,
            pixels@ == old(pixels)@,
            forall|k: int| 0 <= k < i && k % 4 == 3 ==> #[trigger] pixels@[k] == 0,
        ensures
            transparent ==> forall|k: int| 0 <= k < n && k % 4 == 3 ==> #[trigger] pixels@[k] == 0,
            !transparent ==> exists|k: int| 0 <= k < n && k % 4 == 3 && #[trigger] pixels@[k] != 0,
        decreases n - i,
    {
        if pixels[i + 3] != 0 {
            transparent = false;
            assert((i + 3) % 4 == 3);
            break;
        }
        assert forall|k: int| 0 <= k < i + 4 && k % 4 == 3 implies #[trigger] pixels@[k] == 0 by {
            if k >= i {
                assert(k == i + 3);
            }
        }
        i += 4;
    }
    if !transparent {
        assert(!all_transparent(old(pixels)@));
        return;
    }
    assert(all_transparent(old(pixels)@));
    let mut j: usize = 0;
    assert(pixels@ =~= alpha_set_below(old(pixels)@, 0));
    while j < n
        invariant
            n == pixels@.len(),
            n % 4 == 0,
            j % 4 == 0,
            j <= n,
            pixels@ == alpha_set_below(old(pixels)@, j as int),
        decreases n - j,
    {
        proof {
            lemma_alpha_set_step(old(pixels)@, j as int);
        }
        pixels.set(j + 3, 255);
        j += 4;
    }
    assert(pixels@ =~= opaque_if_transparent(old(pixels)@));
}

/// `p` with the alpha bytes of the pixels before byte `j` set to 255.
pub open spec fn alpha_set_below(p: Seq<u8>, j: int) -> Seq<u8> {
    Seq::new(p.len(), |k: int| if k % 4 == 3 && k < j { 255u8 } else { p[k] })
}

proof fn lemma_alpha_set_step(p: Seq<u8>, j: int)
    requires
        j % 4 == 0,
        0 <= j,
        j + 4 <= p.len(),
    ensures
        alpha_set_below(p, j).update(j + 3, 255u8) =~= alpha_set_below(p, j + 4),
{
    assert forall|k: int| 0 <= k < p.len() implies #[trigger] alpha_set_below(p, j).update(j + 3, 255u8)[k]
        == alpha_set_below(p, j + 4)[k] by {
        if j <= k < j + 4 && k % 4 == 3 {
            assert(k == j + 3);
        }
    }
}

/// The RGBA picture of locked BGRA pixels: channels swapped, and made
/// opaque when it carries no alpha.
pub fn rgba_from_locked_bgra(bgra: &[u8]) -> (rgba: Vec<u8>)
    requires
        bgra@.len() % 4 == 0,
    ensures
        rgba@ == opaque_if_transparent(swap_red_blue(bgra@)),
{
    let mut out = bgra_to_rgba(bgra);
    force_opaque_if_transparent(&mut out);
    out
}

/// Swapping red and blue twice gives the pixels back.
pub proof fn law_swap_red_blue_involution(p: Seq<u8>)
    requires
        p.len() % 4 == 0,
    ensures
        swap_red_blue(swap_red_blue(p)) == p,
{
    assert forall|i: int| 0 <= i < p.len() implies #[trigger] swap_red_blue(swap_red_blue(p))[i] == p[i] by {
        if i % 4 == 0 {
            assert((i + 2) % 4 == 2);
        } else if i % 4 == 2 {
            assert((i - 2) % 4 == 0);
        }
    }
    assert(swap_red_blue(swap_red_blue(p)) =~= p);
}

/// Making opaque never touches a colour byte, and doing it twice is doing it
/// once.
pub proof fn law_opaque_fix_keeps_colours(p: Seq<u8>)
    ensures
        opaque_if_transparent(p).len() == p.len(),
        forall|i: int| 0 <= i < p.len() && i % 4 != 3 ==> #[trigger] opaque_if_transparent(p)[i] == p[i],
        opaque_if_transparent(opaque_if_transparent(p)) == opaque_if_transparent(p),
{
    let q = opaque_if_transparent(p);
    if all_transparent(p) && p.len() >= 4 {
        assert(q[3] == 255);
        assert(!all_transparent(q));
    } else if all_transparent(p) {
        assert forall|i: int| 0 <= i < q.len() && i % 4 == 3 implies #[trigger] q[i] == 0 by {
            assert(i < 4);
            assert(false);
        }
        assert(opaque_if_transparent(q) =~= q);
    }
}

// ---------------------------------------------------------------------------
// Rounded rectangles.
// ---------------------------------------------------------------------------

/// The corner radius used for a `w` x `h` rectangle: the asked radius, at
/// most half of each side, and at least 1.
pub open spec fn corner_radius(w: int, h: int, radius: int) -> int {
    max(min(min(radius, trunc_div(w, 2)), trunc_div(h, 2)), 1)
}

/// The four corner arcs of a rounded rectangle path: each arc is drawn in a
/// `diameter` x `diameter` box whose top-left corner is given.
#[derive(Clone, Copy, Debug, PartialEq, Eq, Structural)]
pub struct RoundPath {
    pub diameter: i32,
    pub top_left: UiPoint,
    pub top_right: UiPoint,
    pub bottom_right: UiPoint,
    pub bottom_left: UiPoint,
}

pub open spec fn round_path_in_range(left: int, top: int, right: int, bottom: int, radius: int) -> bool {
    let d = 2 * corner_radius(right - left, bottom - top, radius);
    &&& i32::MIN <= right - left <= i32::MAX
    &&& i32::MIN <= bottom - top <= i32::MAX
    &&& d <= i32::MAX
    &&& i32::MIN <= right - d
    &&& i32::MIN <= bottom - d
}

/// Whether `round_path_geometry` stays free of overflow on these inputs.
pub fn round_path_fits(left: i32, top: i32, right: i32, bottom: i32, radius: i32) -> (fits: bool)
    ensures
        fits == round_path_in_range(left as int, top as int, right as int, bottom as int, radius as int),
{
    let w = right as i64 - left as i64;
    let h = bottom as i64 - top as i64;
    if w < i32::MIN as i64 || w > i32::MAX as i64 || h < i32::MIN as i64 || h > i32::MAX as i64 {
        return false;
    }
    let mut r = radius as i64;
    if w / 2 < r {
        r = w / 2;
    }
    if h / 2 < r {
        r = h / 2;
    }
    if r < 1 {
        r = 1;
    }
    let d = r * 2;
    d <= i32::MAX as i64 && i32::MIN as i64 <= right as i64 - d && i32::MIN as i64 <= bottom as i64 - d
}

/// The arcs of the rounded rectangle from `(left, top)` to `(right,
/// bottom)` with corner radius `radius`, clockwise from the top-left corner.
pub fn round_path_geometry(left: i32, top: i32, right: i32, bottom: i32, radius: i32) -> (path: RoundPath)
    requires
        round_path_in_range(left as int, top as int, right as int, bottom as int, radius as int),
    ensures
        path.diameter == 2 * corner_radius(right - left, bottom - top, radius as int),
        path.top_left == (UiPoint { x: left, y: top }),
        path.top_right == (UiPoint { x: (right - path.diameter) as i32, y: top }),
        path.bottom_right == (UiPoint { x: (right - path.diameter) as i32, y: (bottom - path.diameter) as i32 }),
        path.bottom_left == (UiPoint { x: left, y: (bottom - path.diameter) as i32 }),
{
    let w = right - left;
    let h = bottom - top;
    let mut r = radius;
    if w / 2 < r {
        r = w / 2;
    }
    if h / 2 < r {
        r = h / 2;
    }
    if r < 1 {
        r = 1;
    }
    let d = r * 2;
    RoundPath {
        diameter: d,
        top_left: UiPoint { x: left, y: top },
        top_right: UiPoint { x: right - d, y: top },
        bottom_right: UiPoint { x: right - d, y: bottom - d },
        bottom_left: UiPoint { x: left, y: bottom - d },
    }
}

/// In a rectangle at least 2 pixels wide and high, the corner arcs' boxes
/// lie inside the rectangle.
pub proof fn law_round_corners_inside(left: int, top: int, right: int, bottom: int, radius: int)
    requires
        right - left >= 2,
        bottom - top >= 2,
    ensures
        ({
            let d = 2 * corner_radius(right - left, bottom - top, radius);
            2 <= d <= right - left && d <= bottom - top
        }),
{
}

/// What drawing a rounded rectangle takes.
#[derive(Clone, Copy, Debug, PartialEq, Eq, Structural)]
pub enum RoundRectPlan {
    /// An empty rectangle: nothing to draw, which counts as success.
    Empty,
    /// Fill with `fill` (ARGB), outline with `border` (ARGB) where given,
    /// along a path of corner radius `radius`.
    Paint { fill: u32, border: Option<u32>, radius: i32 },
}

/// The plan for a rounded rectangle with `COLORREF` colours `fill` and
/// `border`: a border that is 0 or equal to the fill is not drawn.
pub fn round_rect_plan(left: i32, top: i32, right: i32, bottom: i32, fill: u32, border: u32, radius: i32) -> (plan: RoundRectPlan)
    ensures
        (right <= left || bottom <= top) <==> plan == RoundRectPlan::Empty,
        plan matches RoundRectPlan::Paint { fill: f, border: b, radius: r } ==> {
            &&& byte_of(f, 3) == 0xFF && byte_of(f, 2) == byte_of(fill, 0)
                && byte_of(f, 1) == byte_of(fill, 1) && byte_of(f, 0) == byte_of(fill, 2)
            &&& (b is Some <==> (border != 0 && border != fill))
            &&& (b matches Some(bc) ==> byte_of(bc, 3) == 0xFF && byte_of(bc, 2) == byte_of(border, 0)
                && byte_of(bc, 1) == byte_of(border, 1) && byte_of(bc, 0) == byte_of(border, 2))
            &&& r == max(radius as int, 1)
        },
{
    if right <= left || bottom <= top {
        return RoundRectPlan::Empty;
    }
    let border_argb = if border != 0 && border != fill { Some(colorref_to_argb(border)) } else { None };
    RoundRectPlan::Paint {
        fill: colorref_to_argb(fill),
        border: border_argb,
        radius: if radius < 1 { 1 } else { radius },
    }
}

} // verus!
