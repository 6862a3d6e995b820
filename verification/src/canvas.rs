//! Drawing on the pixel buffers of the live view: face frames, text glyphs and the
//! scaled copy of the camera frame shown in the window.

use vstd::prelude::*;
use vstd::arithmetic::div_mod::{lemma_fundamental_div_mod, lemma_fundamental_div_mod_converse};
use vstd::arithmetic::mul::lemma_mul_is_commutative;

verus! {

// ---------------------------------------------------------------------------
// Pixels
// ---------------------------------------------------------------------------

/// The position of pixel `(x, y)` in a buffer with rows of `width` pixels.
pub open spec fn pixel_index(width: int, x: int, y: int) -> int {
    y * width + x
}

/// An index addresses pixel `(x, y)` exactly when `x` is its column and `y` its row.
pub proof fn lemma_pixel_coords(k: int, width: int, x: int, y: int)
    requires
        width > 0,
        0 <= x < width,
        0 <= k,
    ensures
        k == pixel_index(width, x, y) <==> (k % width == x && k / width == y),
{
    if k == pixel_index(width, x, y) {
        lemma_fundamental_div_mod_converse(k, width, y, x);
    }
    if k % width == x && k / width == y {
        lemma_fundamental_div_mod(k, width);
        lemma_mul_is_commutative(width, y);
    }
}

proof fn lemma_pixel_in_buffer(width: int, height: int, x: int, y: int)
    requires
        0 <= x < width,
        0 <= y < height,
    ensures
        0 <= pixel_index(width, x, y) < width * height,
{
    assert(0 <= y * width + x < width * height) by (nonlinear_arith)
        requires
            0 <= x < width,
            0 <= y < height,
    ;
}

/// Sets pixel `(x, y)` of a `width`-wide buffer of `height` rows to `color`.
pub fn set_pixel(buffer: &mut Vec<u32>, width: usize, height: usize, x: usize, y: usize, color: u32)
    requires
        old(buffer)@.len() == width * height,
        x < width,
        y < height,
    ensures
        final(buffer)@.len() == old(buffer)@.len(),
        forall|k: int|
            0 <= k < final(buffer)@.len() ==> #[trigger] final(buffer)@[k] == if k % (width as int) == x
                && k / (width as int) == y {
                color
            } else {
                old(buffer)@[k]
            },
{
    proof {
        lemma_pixel_in_buffer(width as int, height as int, x as int, y as int);
    }
    let len = buffer.len();
    assert(y * width + x < len);
    let i = y * width + x;
    buffer.set(i, color);
    proof {
        assert forall|k: int| 0 <= k < buffer@.len() implies #[trigger] buffer@[k] == if k % (
        width as int) == x && k / (width as int) == y {
            color
        } else {
            old(buffer)@[k]
        } by {
            lemma_pixel_coords(k, width as int, x as int, y as int);
        }
    }
}

// ---------------------------------------------------------------------------
// Face frames
// ---------------------------------------------------------------------------

/// Thickness of a face frame, in pixels.
pub const FRAME_THICKNESS: usize = 3;

/// Whether pixel `(px, py)` lies on the top or bottom band of the frame
/// `(x1, y1)`–`(x2, y2)` in a buffer of `height` rows; the first `t` rows of each
/// band are counted.
pub open spec fn on_frame_rows(x1: int, y1: int, x2: int, y2: int, height: int, t: int, px: int, py: int) -> bool {
    &&& x1 <= px <= x2
    &&& py < height
    &&& (y1 <= py < y1 + t || (y1 <= py <= y2 && y2 < py + t))
}

/// Whether pixel `(px, py)` lies on the left or right band of the frame in a buffer
/// of `width` columns; the first `t` columns of each band are counted.
pub open spec fn on_frame_columns(x1: int, y1: int, x2: int, y2: int, width: int, t: int, px: int, py: int) -> bool {
    &&& y1 <= py <= y2
    &&& px < width
    &&& (x1 <= px < x1 + t || (x1 <= px <= x2 && x2 < px + t))
}

/// Whether pixel `(px, py)` lies on the frame `(x1, y1)`–`(x2, y2)`, three pixels
/// thick and drawn inside the box, in a `width` × `height` buffer.
pub open spec fn on_frame(x1: int, y1: int, x2: int, y2: int, width: int, height: int, px: int, py: int) -> bool {
    on_frame_rows(x1, y1, x2, y2, height, 3, px, py) || on_frame_columns(x1, y1, x2, y2, width, 3, px, py)
}

/// A frame drawn in a buffer that holds its box stays inside the buffer, and inside
/// the box when the box is at least three pixels wide and high (a narrower box gets
/// bands three pixels thick all the same, which reach past it).
pub proof fn lemma_frame_within_box(
    x1: int,
    y1: int,
    x2: int,
    y2: int,
    width: int,
    height: int,
    px: int,
    py: int,
)
    requires
        x2 < width,
        y2 < height,
        on_frame(x1, y1, x2, y2, width, height, px, py),
    ensures
        px < width && py < height,
        x1 + 2 <= x2 && y1 + 2 <= y2 ==> x1 <= px <= x2 && y1 <= py <= y2,
{
}

/// The buffer `buf` after drawing the part of a frame that `painted` selects in
/// `color` over `old`.
pub open spec fn painted_over(buf: Seq<u32>, old: Seq<u32>, width: int, color: u32, painted: spec_fn(int, int) -> bool) -> bool {
    &&& buf.len() == old.len()
    &&& forall|k: int|
        0 <= k < buf.len() ==> #[trigger] buf[k] == if painted(k % width, k / width) {
            color
        } else {
            old[k]
        }
}

/// Draws the frame `(x1, y1)`–`(x2, y2)` in `color`: bands three pixels thick along
/// its edges, inside the box and within the buffer.
pub fn draw_frame(
    buffer: &mut Vec<u32>,
    width: usize,
    height: usize,
    x1: usize,
    y1: usize,
    x2: usize,
    y2: usize,
    color: u32,
)
    requires
        old(buffer)@.len() == width * height,
        x2 < width,
        y2 < height,
        x1 <= i32::MAX,
        y1 <= i32::MAX,
        height <= i32::MAX,
    ensures
        painted_over(
            final(buffer)@,
            old(buffer)@,
            width as int,
            color,
            |px: int, py: int| on_frame(x1 as int, y1 as int, x2 as int, y2 as int, width as int, height as int, px, py),
        ),
{
    let ghost w = width as int;
    let ghost h = height as int;
    let ghost start = buffer@;
    // Top and bottom bands.
    let mut x = x1;
    while x <= x2
        invariant
            x1 <= x,
            x1 <= x2 + 1 ==> x <= x2 + 1,
            x2 < width,
            y2 < height,
            y1 <= i32::MAX,
            height <= i32::MAX,
            w == width,
            h == height,
            start == old(buffer)@,
            start.len() == width * height,
            painted_over(buffer@, start, w, color, |px: int, py: int| x1 <= px < x && on_frame_rows(x1 as int, y1 as int, x2 as int, y2 as int, h, 3, px, py)),
        decreases x2 + 1 - x,
    {
        let mut t: usize = 0;
        while t < FRAME_THICKNESS
            invariant
                x1 <= x <= x2,
                x2 < width,
                y2 < height,
                y1 <= i32::MAX,
                height <= i32::MAX,
                t <= 3,
                w == width,
                h == height,
                start == old(buffer)@,
            start.len() == width * height,
                painted_over(buffer@, start, w, color, |px: int, py: int| (x1 <= px < x && on_frame_rows(x1 as int, y1 as int, x2 as int, y2 as int, h, 3, px, py))
                    || (px == x && on_frame_rows(x1 as int, y1 as int, x2 as int, y2 as int, h, t as int, px, py))),
            decreases 3 - t,
        {
            let ghost before = buffer@;
            let yt = y1 + t;
            if yt < height {
                set_pixel(buffer, width, height, x, yt, color);
            }
            let ghost mid = buffer@;
            if y2 >= t {
                let yb = y2 - t;
                if yb < height && yb >= y1 {
                    set_pixel(buffer, width, height, x, yb, color);
                }
            }
            t = t + 1;
            proof {
                assert forall|k: int| 0 <= k < buffer@.len() implies #[trigger] buffer@[k] == if (x1 <= k % w < x && on_frame_rows(x1 as int, y1 as int, x2 as int, y2 as int, h, 3, k % w, k / w))
                    || (k % w == x && on_frame_rows(x1 as int, y1 as int, x2 as int, y2 as int, h, t as int, k % w, k / w)) {
                    color
                } else {
                    start[k]
                } by {
                    assert(before[k] == if (x1 <= k % w < x && on_frame_rows(x1 as int, y1 as int, x2 as int, y2 as int, h, 3, k % w, k / w))
                        || (k % w == x && on_frame_rows(x1 as int, y1 as int, x2 as int, y2 as int, h, t - 1, k % w, k / w)) {
                        color
                    } else {
                        start[k]
                    });
                }
            }
        }
        x = x + 1;
        proof {
            assert forall|k: int| 0 <= k < buffer@.len() implies #[trigger] buffer@[k] == if x1 <= k % w < x && on_frame_rows(x1 as int, y1 as int, x2 as int, y2 as int, h, 3, k % w, k / w) {
                color
            } else {
                start[k]
            } by {
            }
        }
    }
    // Left and right bands.
    let mut y = y1;
    while y <= y2
        invariant
            y1 <= y,
            y1 <= y2 + 1 ==> y <= y2 + 1,
            x2 < width,
            y2 < height,
            x1 <= i32::MAX,
            height <= i32::MAX,
            w == width,
            h == height,
            start == old(buffer)@,
            start.len() == width * height,
            painted_over(buffer@, start, w, color, |px: int, py: int| on_frame_rows(x1 as int, y1 as int, x2 as int, y2 as int, h, 3, px, py)
                || (y1 <= py < y && on_frame_columns(x1 as int, y1 as int, x2 as int, y2 as int, w, 3, px, py))),
        decreases y2 + 1 - y,
    {
        let mut t: usize = 0;
        while t < FRAME_THICKNESS
            invariant
                y1 <= y <= y2,
                x2 < width,
                y2 < height,
                x1 <= i32::MAX,
                height <= i32::MAX,
                t <= 3,
                w == width,
                h == height,
                start == old(buffer)@,
            start.len() == width * height,
                painted_over(buffer@, start, w, color, |px: int, py: int| on_frame_rows(x1 as int, y1 as int, x2 as int, y2 as int, h, 3, px, py)
                    || (y1 <= py < y && on_frame_columns(x1 as int, y1 as int, x2 as int, y2 as int, w, 3, px, py))
                    || (py == y && on_frame_columns(x1 as int, y1 as int, x2 as int, y2 as int, w, t as int, px, py))),
            decreases 3 - t,
        {
            let ghost before = buffer@;
            let xl = x1 + t;
            if xl < width {
                set_pixel(buffer, width, height, xl, y, color);
            }
            if x2 >= t {
                let xr = x2 - t;
                if xr < width && xr >= x1 {
                    set_pixel(buffer, width, height, xr, y, color);
                }
            }
            t = t + 1;
            proof {
                assert forall|k: int| 0 <= k < buffer@.len() implies #[trigger] buffer@[k] == if on_frame_rows(x1 as int, y1 as int, x2 as int, y2 as int, h, 3, k % w, k / w)
                    || (y1 <= k / w < y && on_frame_columns(x1 as int, y1 as int, x2 as int, y2 as int, w, 3, k % w, k / w))
                    || (k / w == y && on_frame_columns(x1 as int, y1 as int, x2 as int, y2 as int, w, t as int, k % w, k / w)) {
                    color
                } else {
                    start[k]
                } by {
                    assert(before[k] == if on_frame_rows(x1 as int, y1 as int, x2 as int, y2 as int, h, 3, k % w, k / w)
                        || (y1 <= k / w < y && on_frame_columns(x1 as int, y1 as int, x2 as int, y2 as int, w, 3, k % w, k / w))
                        || (k / w == y && on_frame_columns(x1 as int, y1 as int, x2 as int, y2 as int, w, t - 1, k % w, k / w)) {
                        color
                    } else {
                        start[k]
                    });
                }
            }
        }
        y = y + 1;
        proof {
            assert forall|k: int| 0 <= k < buffer@.len() implies #[trigger] buffer@[k] == if on_frame_rows(x1 as int, y1 as int, x2 as int, y2 as int, h, 3, k % w, k / w)
                || (y1 <= k / w < y && on_frame_columns(x1 as int, y1 as int, x2 as int, y2 as int, w, 3, k % w, k / w)) {
                color
            } else {
                start[k]
            } by {
            }
        }
    }
}

/// Where the labels of a face box are drawn: its ID and name above, its liveness
/// status below.
#[derive(Debug, Clone, Copy)]
pub struct LabelAnchors {
    pub name_x: usize,
    pub name_y: usize,
    pub status_x: usize,
    pub status_y: usize,
}

/// The frame drawn for the face rectangle `rect` in a `width` × `height` buffer:
/// the rectangle with its corners clamped into the buffer (the top-left corner only
/// to non-negative coordinates).
pub open spec fn clamped_frame(rect: (i32, i32, i32, i32), width: int, height: int) -> (int, int, int, int) {
    let x1 = if rect.0 < 0 { 0 } else { rect.0 as int };
    let y1 = if rect.1 < 0 { 0 } else { rect.1 as int };
    let x2 = if rect.2 < 0 { 0 } else if rect.2 > width - 1 { width - 1 } else { rect.2 as int };
    let y2 = if rect.3 < 0 { 0 } else if rect.3 > height - 1 { height - 1 } else { rect.3 as int };
    (x1, y1, x2, y2)
}

/// The frame of a face is its rectangle clamped into the buffer: each corner
/// coordinate that lies in the buffer is kept, and one outside is moved to the
/// nearest edge (the top-left corner only at zero); the horizontal edges depend on
/// the buffer's width only, the vertical ones on its height only.
pub proof fn lemma_clamped_frame(rect: (i32, i32, i32, i32), width: int, height: int, other_width: int, other_height: int)
    requires
        0 < width,
        0 < height,
    ensures
        ({
            let (x1, y1, x2, y2) = clamped_frame(rect, width, height);
            &&& 0 <= x1 && 0 <= y1
            &&& 0 <= x2 < width && 0 <= y2 < height
            &&& rect.0 >= 0 ==> x1 == rect.0
            &&& rect.1 >= 0 ==> y1 == rect.1
            &&& 0 <= rect.2 < width ==> x2 == rect.2
            &&& 0 <= rect.3 < height ==> y2 == rect.3
            &&& rect.2 >= width ==> x2 == width - 1
            &&& rect.3 >= height ==> y2 == height - 1
            &&& rect.2 < 0 ==> x2 == 0
            &&& rect.3 < 0 ==> y2 == 0
        }),
        clamped_frame(rect, width, height).0 == clamped_frame(rect, other_width, other_height).0,
        clamped_frame(rect, width, height).1 == clamped_frame(rect, other_width, other_height).1,
        clamped_frame(rect, width, height).2 == clamped_frame(rect, width, other_height).2,
        clamped_frame(rect, width, height).3 == clamped_frame(rect, other_width, height).3,
{
}

fn clamp_low(v: i32) -> (r: usize)
    ensures
        r == if v < 0 { 0 } else { v as int },
{
    if v < 0 { 0 } else { v as usize }
}

fn clamp_into(v: i32, size: usize) -> (r: usize)
    requires
        0 < size,
        size - 1 <= i32::MAX,
    ensures
        r == if v < 0 { 0 } else if v > size - 1 { size - 1 } else { v as int },
{
    let top = (size - 1) as i32;
    if v < 0 {
        0
    } else if v > top {
        top as usize
    } else {
        v as usize
    }
}

/// Draws the frame of a face with rectangle `rect` in `color`, and returns where
/// its labels go: above the frame (at most 25 rows up, not past the top) and 5 rows
/// below it.
pub fn draw_face_frame(
    buffer: &mut Vec<u32>,
    width: usize,
    height: usize,
    rect: (i32, i32, i32, i32),
    color: u32,
) -> (anchors: LabelAnchors)
    requires
        old(buffer)@.len() == width * height,
        0 < width <= i32::MAX,
        0 < height <= i32::MAX,
    ensures
        ({
            let (x1, y1, x2, y2) = clamped_frame(rect, width as int, height as int);
            &&& painted_over(
                final(buffer)@,
                old(buffer)@,
                width as int,
                color,
                |px: int, py: int| on_frame(x1, y1, x2, y2, width as int, height as int, px, py),
            )
            &&& anchors.name_x == x1
            &&& anchors.name_y == if y1 >= 25 { y1 - 25 } else { 0 }
            &&& anchors.status_x == x1
            &&& anchors.status_y == y2 + 5
        }),
{
    let x1 = clamp_low(rect.0);
    let y1 = clamp_low(rect.1);
    let x2 = clamp_into(rect.2, width);
    let y2 = clamp_into(rect.3, height);
    draw_frame(buffer, width, height, x1, y1, x2, y2, color);
    LabelAnchors {
        name_x: x1,
        name_y: if y1 >= 25 { y1 - 25 } else { 0 },
        status_x: x1,
        status_y: y2 + 5,
    }
}

// ---------------------------------------------------------------------------
// Text
// ---------------------------------------------------------------------------

/// One rasterized character, placed on a line of text: `x` is its left edge,
/// `ymin` the offset of its bottom from the baseline, and `bitmap` its coverage,
/// `width` values per row, top row first.
pub struct Glyph {
    pub x: i32,
    pub ymin: i32,
    pub width: usize,
    pub height: usize,
    pub bitmap: Vec<u8>,
}

/// The 8-bit channel of `color` whose lowest bit has value `unit` (`0x10000` for red,
/// `0x100` for green, `1` for blue).
pub open spec fn channel(color: u32, unit: int) -> int {
    (color as int / unit) % 256
}

/// One channel of `fg` drawn with coverage `alpha` over `bg`.
pub open spec fn blend_channel(fg: int, bg: int, alpha: int) -> int {
    (fg * alpha + bg * (255 - alpha)) / 255
}

/// The pixel `bg` after drawing `color` over it with coverage `alpha`: `color` at
/// full coverage, else each of red, green and blue mixed in proportion (the top byte
/// of the result is zero).
pub open spec fn blended(color: u32, bg: u32, alpha: u8) -> u32 {
    if alpha == 255 {
        color
    } else {
        (blend_channel(channel(color, 0x10000), channel(bg, 0x10000), alpha as int) * 0x10000 + blend_channel(
            channel(color, 0x100),
            channel(bg, 0x100),
            alpha as int,
        ) * 0x100 + blend_channel(channel(color, 1), channel(bg, 1), alpha as int)) as u32
    }
}

fn blend(color: u32, bg: u32, alpha: u8) -> (p: u32)
    requires
        0 < alpha < 255,
    ensures
        p == blended(color, bg, alpha),
{
    let a = alpha as u32;
    let cr = (color >> 16) & 0xFF;
    let cg = (color >> 8) & 0xFF;
    let cb = color & 0xFF;
    let bg_r = (bg >> 16) & 0xFF;
    let bg_g = (bg >> 8) & 0xFF;
    let bg_b = bg & 0xFF;
    proof {
        assert(cr == (color / 0x10000) % 256 && cg == (color / 0x100) % 256 && cb == color % 256
            && cr < 256 && cg < 256 && cb < 256) by (bit_vector)
            requires
                cr == (color >> 16) & 0xFF,
                cg == (color >> 8) & 0xFF,
                cb == color & 0xFF,
        ;
        assert(bg_r == (bg / 0x10000) % 256 && bg_g == (bg / 0x100) % 256 && bg_b == bg % 256
            && bg_r < 256 && bg_g < 256 && bg_b < 256) by (bit_vector)
            requires
                bg_r == (bg >> 16) & 0xFF,
                bg_g == (bg >> 8) & 0xFF,
                bg_b == bg & 0xFF,
        ;
    }
    let inv = 255 - a;
    assert(cr * a <= 255 * 255 && bg_r * inv <= 255 * 255) by (nonlinear_arith)
        requires cr < 256, bg_r < 256, a < 256, inv < 256, a + inv == 255;
    assert(cg * a <= 255 * 255 && bg_g * inv <= 255 * 255) by (nonlinear_arith)
        requires cg < 256, bg_g < 256, a < 256, inv < 256, a + inv == 255;
    assert(cb * a <= 255 * 255 && bg_b * inv <= 255 * 255) by (nonlinear_arith)
        requires cb < 256, bg_b < 256, a < 256, inv < 256, a + inv == 255;
    let out_r = (cr * a + bg_r * inv) / 255;
    let out_g = (cg * a + bg_g * inv) / 255;
    let out_b = (cb * a + bg_b * inv) / 255;
    assert(out_r < 256 && out_g < 256 && out_b < 256) by (nonlinear_arith)
        requires
            out_r == (cr * a + bg_r * inv) / 255,
            out_g == (cg * a + bg_g * inv) / 255,
            out_b == (cb * a + bg_b * inv) / 255,
            cr < 256, cg < 256, cb < 256, bg_r < 256, bg_g < 256, bg_b < 256,
            a + inv == 255,
    ;
    assert((out_r << 16) | (out_g << 8) | out_b == out_r * 0x10000 + out_g * 0x100 + out_b) by (bit_vector)
        requires
            out_r < 256 && out_g < 256 && out_b < 256,
    ;
    (out_r << 16) | (out_g << 8) | out_b
}

proof fn lemma_mix_below_256(fg: int, bg: int, a: int)
    requires
        0 <= fg < 256,
        0 <= bg < 256,
        0 <= a <= 255,
    ensures
        0 <= (fg * a + bg * (255 - a)) / 255 < 256,
{
    assert(0 <= (fg * a + bg * (255 - a)) / 255 < 256) by (nonlinear_arith)
        requires
            0 <= fg < 256,
            0 <= bg < 256,
            0 <= a <= 255,
    {
        assert(fg * a <= 255 * a);
        assert(bg * (255 - a) <= 255 * (255 - a));
        assert(0 <= fg * a + bg * (255 - a) <= 255 * 255);
    }
}

proof fn lemma_pack_channels(r: int, g: int, b: int)
    requires
        0 <= r < 256,
        0 <= g < 256,
        0 <= b < 256,
    ensures
        0 <= r * 0x10000 + g * 0x100 + b < 0x1000000,
        (r * 0x10000 + g * 0x100 + b) / 0x10000 % 256 == r,
        (r * 0x10000 + g * 0x100 + b) / 0x100 % 256 == g,
        (r * 0x10000 + g * 0x100 + b) % 256 == b,
{
    assert(0 <= r * 0x10000 + g * 0x100 + b < 0x1000000) by (nonlinear_arith)
        requires 0 <= r < 256, 0 <= g < 256, 0 <= b < 256;
    assert((r * 0x10000 + g * 0x100 + b) / 0x10000 == r) by (nonlinear_arith)
        requires 0 <= r < 256, 0 <= g < 256, 0 <= b < 256;
    assert((r * 0x10000 + g * 0x100 + b) / 0x100 == r * 0x100 + g) by (nonlinear_arith)
        requires 0 <= r < 256, 0 <= g < 256, 0 <= b < 256;
    assert((r * 0x100 + g) % 256 == g) by (nonlinear_arith)
        requires 0 <= r < 256, 0 <= g < 256;
    assert((r * 0x10000 + g * 0x100 + b) % 256 == b) by (nonlinear_arith)
        requires 0 <= r < 256, 0 <= g < 256, 0 <= b < 256;
}

/// Text is blended channel by channel: at partial coverage `alpha`, the red, green
/// and blue of the result are each `(c * alpha + b * (255 - alpha)) / 255`, where `c`
/// and `b` are the same channel of the text color and of the background; no channel
/// takes anything from another, and the top byte of the result is zero.
pub proof fn lemma_blend_per_channel(color: u32, bg: u32, alpha: u8)
    requires
        0 < alpha < 255,
    ensures
        (blended(color, bg, alpha) as int / 0x10000) % 256 == (((color as int / 0x10000) % 256) * alpha
            + ((bg as int / 0x10000) % 256) * (255 - alpha)) / 255,
        (blended(color, bg, alpha) as int / 0x100) % 256 == (((color as int / 0x100) % 256) * alpha
            + ((bg as int / 0x100) % 256) * (255 - alpha)) / 255,
        blended(color, bg, alpha) as int % 256 == (((color as int) % 256) * alpha + ((bg as int) % 256) * (
        255 - alpha)) / 255,
        blended(color, bg, alpha) < 0x1000000,
{
    let a = alpha as int;
    let r = (((color as int / 0x10000) % 256) * a + ((bg as int / 0x10000) % 256) * (255 - a)) / 255;
    let g = (((color as int / 0x100) % 256) * a + ((bg as int / 0x100) % 256) * (255 - a)) / 255;
    let b = (((color as int) % 256) * a + ((bg as int) % 256) * (255 - a)) / 255;
    lemma_mix_below_256((color as int / 0x10000) % 256, (bg as int / 0x10000) % 256, a);
    lemma_mix_below_256((color as int / 0x100) % 256, (bg as int / 0x100) % 256, a);
    lemma_mix_below_256((color as int) % 256, (bg as int) % 256, a);
    lemma_pack_channels(r, g, b);
    assert(channel(color, 1) == (color as int) % 256);
    assert(channel(bg, 1) == (bg as int) % 256);
    assert(blended(color, bg, alpha) == (r * 0x10000 + g * 0x100 + b) as u32);
}

/// A drawn text mixes each channel between the text color and the background: full
/// coverage gives the text color, and at any coverage each channel lies between the
/// two.
pub proof fn lemma_blend_between(color: u32, bg: u32, alpha: u8, unit: int)
    requires
        unit == 1 || unit == 0x100 || unit == 0x10000,
    ensures
        alpha == 255 ==> blended(color, bg, alpha) == color,
        ({
            let fg = channel(color, unit);
            let b = channel(bg, unit);
            let m = blend_channel(fg, b, alpha as int);
            &&& (fg <= b ==> fg <= m <= b)
            &&& (b <= fg ==> b <= m <= fg)
        }),
{
    let fg = channel(color, unit);
    let b = channel(bg, unit);
    let a = alpha as int;
    assert(fg <= b ==> fg <= blend_channel(fg, b, a) <= b) by (nonlinear_arith)
        requires
            0 <= a <= 255,
            0 <= fg,
            0 <= b,
    {
        assert(fg <= b ==> fg * 255 <= fg * a + b * (255 - a) <= b * 255);
    }
    assert(b <= fg ==> b <= blend_channel(fg, b, a) <= fg) by (nonlinear_arith)
        requires
            0 <= a <= 255,
            0 <= fg,
            0 <= b,
    {
        assert(b <= fg ==> b * 255 <= fg * a + b * (255 - a) <= fg * 255);
    }
}

/// Whether a glyph can be placed on a line with baseline at `y + ascent` without
/// leaving the range of `i32`, and its bitmap holds one value per pixel.
pub open spec fn glyph_fits(g: &Glyph, y: int, ascent: int) -> bool {
    let gy = y + ascent - g.ymin - g.height;
    &&& g.bitmap@.len() == g.width * g.height
    &&& g.width <= i32::MAX
    &&& g.height <= i32::MAX
    &&& i32::MIN <= gy
    &&& gy + g.height <= i32::MAX
    &&& i32::MIN <= g.x
    &&& g.x + g.width <= i32::MAX
    &&& i32::MIN <= y + ascent <= i32::MAX
    &&& i32::MIN <= y + ascent - g.ymin <= i32::MAX
}

/// The top row of a glyph on a line with baseline at `y + ascent`.
pub open spec fn glyph_top(g: &Glyph, y: int, ascent: int) -> int {
    y + ascent - g.ymin - g.height
}

/// The coverage of the glyph pixel that lands on buffer pixel `(px, py)`, if any.
pub open spec fn glyph_alpha(g: &Glyph, gy: int, px: int, py: int) -> Option<u8> {
    let col = px - g.x;
    let row = py - gy;
    if 0 <= col < g.width && 0 <= row < g.height {
        Some(g.bitmap@[row * g.width + col])
    } else {
        None
    }
}

/// The buffer `buf` (rows of `bw` pixels, `bh` full rows) after drawing glyph `g`
/// with top row `gy` in `color`: each covered pixel with non-zero coverage is
/// blended.
pub open spec fn glyph_drawn(buf: Seq<u32>, bw: int, bh: int, g: &Glyph, gy: int, color: u32) -> Seq<u32> {
    Seq::new(
        buf.len(),
        |k: int|
            match glyph_alpha(g, gy, k % bw, k / bw) {
                Some(a) => if k / bw < bh && a != 0 {
                    blended(color, buf[k], a)
                } else {
                    buf[k]
                },
                None => buf[k],
            },
    )
}

/// The buffer `buf` after drawing the glyphs `glyphs`, in order, on a line with
/// baseline at `y + ascent`.
pub open spec fn glyphs_drawn(
    buf: Seq<u32>,
    bw: int,
    bh: int,
    y: int,
    ascent: int,
    glyphs: Seq<Glyph>,
    color: u32,
) -> Seq<u32>
    decreases glyphs.len(),
{
    if glyphs.len() == 0 {
        buf
    } else {
        glyph_drawn(
            glyphs_drawn(buf, bw, bh, y, ascent, glyphs.drop_last(), color),
            bw,
            bh,
            &glyphs.last(),
            glyph_top(&glyphs.last(), y, ascent),
            color,
        )
    }
}

/// Drawing a line of text keeps the buffer's length, and leaves every pixel that no
/// glyph of the line covers as it was.
pub proof fn lemma_text_outside_glyphs_unchanged(
    buf: Seq<u32>,
    bw: int,
    bh: int,
    y: int,
    ascent: int,
    glyphs: Seq<Glyph>,
    color: u32,
    k: int,
)
    requires
        0 <= k < buf.len(),
        forall|i: int|
            0 <= i < glyphs.len() ==> (#[trigger] glyph_alpha(
                &glyphs[i],
                glyph_top(&glyphs[i], y, ascent),
                k % bw,
                k / bw,
            )) is None,
    ensures
        glyphs_drawn(buf, bw, bh, y, ascent, glyphs, color).len() == buf.len(),
        glyphs_drawn(buf, bw, bh, y, ascent, glyphs, color)[k] == buf[k],
    decreases glyphs.len(),
{
    if glyphs.len() > 0 {
        let rest = glyphs.drop_last();
        assert forall|i: int| 0 <= i < rest.len() implies (#[trigger] glyph_alpha(
            &rest[i],
            glyph_top(&rest[i], y, ascent),
            k % bw,
            k / bw,
        )) is None by {
            assert(rest[i] == glyphs[i]);
        }
        lemma_text_outside_glyphs_unchanged(buf, bw, bh, y, ascent, rest, color, k);
        assert(glyph_alpha(&glyphs[glyphs.len() - 1], glyph_top(&glyphs[glyphs.len() - 1], y, ascent), k % bw, k / bw) is None);
    }
}

/// The part of glyph `g` drawn so far: the rows above `row`, and the pixels of row
/// `row` left of `col`.
pub open spec fn glyph_part_drawn(
    start: Seq<u32>,
    bw: int,
    bh: int,
    g: &Glyph,
    gy: int,
    color: u32,
    row: int,
    col: int,
) -> Seq<u32> {
    Seq::new(
        start.len(),
        |k: int|
            match glyph_alpha(g, gy, k % bw, k / bw) {
                Some(a) => if k / bw < bh && a != 0 && ((k / bw - gy) < row || ((k / bw - gy) == row
                    && (k % bw - g.x) < col)) {
                    blended(color, start[k], a)
                } else {
                    start[k]
                },
                None => start[k],
            },
    )
}

/// Draws one glyph with top row `gy` into `buffer`.
fn draw_glyph(buffer: &mut Vec<u32>, bw: usize, bh: usize, g: &Glyph, gy: i32, color: u32)
    requires
        0 < bw <= i32::MAX,
        bh <= i32::MAX,
        bw * bh <= old(buffer)@.len(),
        g.bitmap@.len() == g.width * g.height,
        g.width <= i32::MAX,
        g.height <= i32::MAX,
        gy + g.height <= i32::MAX,
        g.x + g.width <= i32::MAX,
    ensures
        final(buffer)@ == glyph_drawn(old(buffer)@, bw as int, bh as int, g, gy as int, color),
{
    let ghost start = buffer@;
    let ghost w = bw as int;
    let blen = g.bitmap.len();
    let buflen = buffer.len();
    let mut row: usize = 0;
    while row < g.height
        invariant
            0 < bw <= i32::MAX,
            bh <= i32::MAX,
            bw * bh <= start.len(),
            w == bw,
            start == old(buffer)@,
            start.len() == buflen,
            g.bitmap@.len() == blen,
            g.bitmap@.len() == g.width * g.height,
            g.width <= i32::MAX,
            g.height <= i32::MAX,
            gy + g.height <= i32::MAX,
            g.x + g.width <= i32::MAX,
            row <= g.height,
            buffer@ == glyph_part_drawn(start, w, bh as int, g, gy as int, color, row as int, 0),
        decreases g.height - row,
    {
        let py = gy + row as i32;
        if py >= 0 && py < bh as i32 {
            let mut col: usize = 0;
            while col < g.width
                invariant
                    0 < bw <= i32::MAX,
                    bh <= i32::MAX,
                    bw * bh <= start.len(),
                    w == bw,
                    start == old(buffer)@,
                    start.len() == buflen,
                    g.bitmap@.len() == blen,
                    g.bitmap@.len() == g.width * g.height,
                    g.width <= i32::MAX,
                    g.height <= i32::MAX,
                    gy + g.height <= i32::MAX,
                    g.x + g.width <= i32::MAX,
                    row < g.height,
                    py == gy + row,
                    0 <= py < bh,
                    col <= g.width,
                    buffer@ == glyph_part_drawn(start, w, bh as int, g, gy as int, color, row as int, col as int),
                decreases g.width - col,
            {
                assert(row * g.width + col < g.width * g.height) by (nonlinear_arith)
                    requires row < g.height, col < g.width;
                let alpha = g.bitmap[row * g.width + col];
                let px = g.x + col as i32;
                let ghost before = buffer@;
                if alpha != 0 && px >= 0 && px < bw as i32 {
                    proof {
                        lemma_pixel_in_buffer(w, bh as int, px as int, py as int);
                        assert((py as usize) * bw + (px as usize) < buflen);
                    }
                    let idx = (py as usize) * bw + px as usize;
                    let bg = buffer[idx];
                    let value = if alpha == 255 { color } else { blend(color, bg, alpha) };
                    buffer.set(idx, value);
                    proof {
                        assert forall|k: int| 0 <= k < buffer@.len() implies #[trigger] buffer@[k]
                            == glyph_part_drawn(start, w, bh as int, g, gy as int, color, row as int, col + 1)[k] by {
                            lemma_pixel_coords(k, w, px as int, py as int);
                            if k == idx {
                                assert(k % w == px && k / w == py);
                                assert(glyph_alpha(g, gy as int, px as int, py as int) == Some(alpha));
                            }
                        }
                        assert(buffer@ =~= glyph_part_drawn(start, w, bh as int, g, gy as int, color, row as int, col + 1));
                    }
                } else {
                    proof {
                        assert forall|k: int| 0 <= k < buffer@.len() implies #[trigger] buffer@[k]
                            == glyph_part_drawn(start, w, bh as int, g, gy as int, color, row as int, col + 1)[k] by {
                            if k / w < bh && k / w - gy == row && k % w - g.x == col {
                                assert(0 <= k % w < w);
                                assert(glyph_alpha(g, gy as int, k % w, k / w) == Some(alpha));
                            }
                        }
                        assert(buffer@ =~= glyph_part_drawn(start, w, bh as int, g, gy as int, color, row as int, col + 1));
                    }
                }
                col = col + 1;
            }
            proof {
                assert(buffer@ =~= glyph_part_drawn(start, w, bh as int, g, gy as int, color, row + 1, 0)) by {
                    assert forall|k: int| 0 <= k < buffer@.len() implies #[trigger] buffer@[k]
                        == glyph_part_drawn(start, w, bh as int, g, gy as int, color, row + 1, 0)[k] by {
                        if k / w - gy == row {
                            assert(0 <= k % w < w);
                        }
                    }
                }
            }
        } else {
            proof {
                assert(buffer@ =~= glyph_part_drawn(start, w, bh as int, g, gy as int, color, row + 1, 0)) by {
                    assert forall|k: int| 0 <= k < buffer@.len() implies #[trigger] buffer@[k]
                        == glyph_part_drawn(start, w, bh as int, g, gy as int, color, row + 1, 0)[k] by {
                        if k / w - gy == row {
                            assert(0 <= k / w);
                        }
                    }
                }
            }
        }
        row = row + 1;
    }
    proof {
        assert(buffer@ =~= glyph_drawn(start, w, bh as int, g, gy as int, color)) by {
            assert forall|k: int| 0 <= k < buffer@.len() implies #[trigger] buffer@[k]
                == glyph_drawn(start, w, bh as int, g, gy as int, color)[k] by {
                if glyph_alpha(g, gy as int, k % w, k / w) is Some {
                    assert(k / w - gy < g.height);
                }
            }
        }
    }
}

/// Draws a line of glyphs in `color` into a buffer of `bw`-pixel rows, of which the
/// first `bh` are drawn on; the line's baseline is at row `y + ascent`.
pub fn draw_text_pass(
    buffer: &mut Vec<u32>,
    bw: usize,
    bh: usize,
    y: i32,
    ascent: i32,
    glyphs: &Vec<Glyph>,
    color: u32,
)
    requires
        0 < bw <= i32::MAX,
        bh <= i32::MAX,
        bw * bh <= old(buffer)@.len(),
        forall|i: int| 0 <= i < glyphs@.len() ==> glyph_fits(&#[trigger] glyphs@[i], y as int, ascent as int),
    ensures
        final(buffer)@ == glyphs_drawn(old(buffer)@, bw as int, bh as int, y as int, ascent as int, glyphs@, color),
        final(buffer)@.len() == old(buffer)@.len(),
{
    let mut i: usize = 0;
    while i < glyphs.len()
        invariant
            0 < bw <= i32::MAX,
            bh <= i32::MAX,
            bw * bh <= buffer@.len(),
            buffer@.len() == old(buffer)@.len(),
            i <= glyphs@.len(),
            forall|i: int| 0 <= i < glyphs@.len() ==> glyph_fits(&#[trigger] glyphs@[i], y as int, ascent as int),
            buffer@ == glyphs_drawn(old(buffer)@, bw as int, bh as int, y as int, ascent as int, glyphs@.take(i as int), color),
        decreases glyphs@.len() - i,
    {
        let g = &glyphs[i];
        assert(glyph_fits(&glyphs@[i as int], y as int, ascent as int));
        let gy = y + ascent - g.ymin - g.height as i32;
        draw_glyph(buffer, bw, bh, g, gy, color);
        i = i + 1;
        assert(glyphs@.take(i as int).drop_last() == glyphs@.take(i - 1));
        assert(glyphs@.take(i as int).last() == glyphs@[i - 1]);
    }
    assert(glyphs@.take(glyphs@.len() as int) == glyphs@);
}

/// The text color.
pub const TEXT_COLOR: u32 = 0xFFFFFF;

/// The color of the shadow under text.
pub const SHADOW_COLOR: u32 = 0x000000;

/// Renders a line of text into a buffer with rows of `width` pixels: first its
/// shadow in black, laid out one pixel right of and below the text, then the text
/// in white; `y` is the top of the line and `ascent` the height of its baseline.
pub fn draw_text_simple(
    buffer: &mut Vec<u32>,
    width: usize,
    y: usize,
    ascent: i32,
    shadow: &Vec<Glyph>,
    text: &Vec<Glyph>,
)
    requires
        0 < width <= i32::MAX,
        old(buffer)@.len() as int / (width as int) <= i32::MAX,
        y < i32::MAX,
        forall|i: int| 0 <= i < shadow@.len() ==> glyph_fits(&#[trigger] shadow@[i], y + 1, ascent as int),
        forall|i: int| 0 <= i < text@.len() ==> glyph_fits(&#[trigger] text@[i], y as int, ascent as int),
    ensures
        ({
            let bh = old(buffer)@.len() as int / (width as int);
            final(buffer)@ == glyphs_drawn(
                glyphs_drawn(old(buffer)@, width as int, bh, y + 1, ascent as int, shadow@, SHADOW_COLOR),
                width as int,
                bh,
                y as int,
                ascent as int,
                text@,
                TEXT_COLOR,
            )
        }),
{
    let buf_height = buffer.len() / width;
    assert(width * buf_height <= buffer@.len()) by (nonlinear_arith)
        requires
            buf_height == buffer@.len() as int / (width as int),
            width > 0,
    ;
    draw_text_pass(buffer, width, buf_height, y as i32 + 1, ascent, shadow, SHADOW_COLOR);
    draw_text_pass(buffer, width, buf_height, y as i32, ascent, text, TEXT_COLOR);
}

// ---------------------------------------------------------------------------
// Scaling the frame into the window
// ---------------------------------------------------------------------------

/// The pixel of the scaled image at `(x, y)` of a `dw`-wide destination, where the
/// `sw` × `sh` source is shown as `rw` × `rh` pixels from `(ox, oy)` by nearest
/// neighbor, and the rest is black.
pub open spec fn scaled_pixel(
    src: Seq<u32>,
    sw: int,
    sh: int,
    ox: int,
    oy: int,
    rw: int,
    rh: int,
    x: int,
    y: int,
) -> u32 {
    if ox <= x < ox + rw && oy <= y < oy + rh {
        src[((y - oy) * sh / rh) * sw + (x - ox) * sw / rw]
    } else {
        0
    }
}

proof fn lemma_scaled_coordinate(d: int, r: int, s: int)
    requires
        0 <= d < r,
        0 < s,
    ensures
        0 <= d * s / r < s,
{
    assert(0 <= d * s / r < s) by (nonlinear_arith)
        requires
            0 <= d < r,
            0 < s,
    {
        assert(d * s < r * s);
        assert(0 <= d * s);
    }
}

/// Every pixel of the scaled picture comes from the source image, from the pixel
/// whose row and column are the destination's scaled back; every pixel outside the
/// picture is black.
pub proof fn lemma_scaled_pixel_source(
    src: Seq<u32>,
    sw: int,
    sh: int,
    ox: int,
    oy: int,
    rw: int,
    rh: int,
    x: int,
    y: int,
)
    requires
        0 < sw,
        0 < sh,
        sw * sh <= src.len(),
    ensures
        ox <= x < ox + rw && oy <= y < oy + rh ==> {
            let sx = (x - ox) * sw / rw;
            let sy = (y - oy) * sh / rh;
            &&& 0 <= sx < sw
            &&& 0 <= sy < sh
            &&& 0 <= sy * sw + sx < src.len()
            &&& scaled_pixel(src, sw, sh, ox, oy, rw, rh, x, y) == src[sy * sw + sx]
        },
        !(ox <= x < ox + rw && oy <= y < oy + rh) ==> scaled_pixel(src, sw, sh, ox, oy, rw, rh, x, y)
            == 0,
{
    if ox <= x < ox + rw && oy <= y < oy + rh {
        lemma_scaled_coordinate(x - ox, rw, sw);
        lemma_scaled_coordinate(y - oy, rh, sh);
        lemma_pixel_in_buffer(sw, sh, (x - ox) * sw / rw, (y - oy) * sh / rh);
    }
}

/// Scales the `sw` × `sh` image `src` into a `dw` × `dh` destination at the size
/// `fit` (`rw` × `rh`, at most the destination's), centered, with black borders; returns the
/// offset and size of the scaled image `(ox, oy, rw, rh)`. An empty source or
/// destination leaves `dst` empty and returns zeros.
pub fn scale_buffer_proportional(
    src: &Vec<u32>,
    sw: usize,
    sh: usize,
    dw: usize,
    dh: usize,
    fit: (usize, usize),
    dst: &mut Vec<u32>,
) -> (placed: (usize, usize, usize, usize))
    requires
        sw * sh <= src@.len(),
        dw * dh <= usize::MAX,
        fit.0 <= dw,
        fit.1 <= dh,
        (fit.0 - 1) * sw <= usize::MAX,
        (fit.1 - 1) * sh <= usize::MAX,
    ensures
        dw == 0 || dh == 0 || sw == 0 || sh == 0 ==> final(dst)@.len() == 0 && placed == (0usize, 0usize, 0usize, 0usize),
        !(dw == 0 || dh == 0 || sw == 0 || sh == 0) ==> {
            &&& placed.0 == (dw - fit.0) / 2
            &&& placed.1 == (dh - fit.1) / 2
            &&& placed.2 == fit.0
            &&& placed.3 == fit.1
            &&& final(dst)@.len() == dw * dh
            &&& forall|k: int|
                0 <= k < dw * dh ==> #[trigger] final(dst)@[k] == scaled_pixel(
                    src@,
                    sw as int,
                    sh as int,
                    placed.0 as int,
                    placed.1 as int,
                    fit.0 as int,
                    fit.1 as int,
                    k % (dw as int),
                    k / (dw as int),
                )
        },
{
    dst.clear();
    if dw == 0 || dh == 0 || sw == 0 || sh == 0 {
        return (0, 0, 0, 0);
    }
    let n = dw * dh;
    dst.resize(n, 0);
    let (rw, rh) = fit;
    let ox = (dw - rw) / 2;
    let oy = (dh - rh) / 2;
    let ghost w = dw as int;
    let srclen = src.len();
    let mut dy: usize = 0;
    while dy < rh
        invariant
            dst@.len() == n,
            n == dw * dh,
            dw > 0,
            dh > 0,
            sw > 0,
            sh > 0,
            w == dw,
            sw * sh <= src@.len(),
            src@.len() == srclen,
            rw <= dw,
            rh <= dh,
            (rw - 1) * sw <= usize::MAX,
            (rh - 1) * sh <= usize::MAX,
            ox == (dw - rw) / 2,
            oy == (dh - rh) / 2,
            dy <= rh,
            forall|k: int|
                0 <= k < n ==> #[trigger] dst@[k] == if k / w < oy + dy {
                    scaled_pixel(src@, sw as int, sh as int, ox as int, oy as int, rw as int, rh as int, k % w, k / w)
                } else {
                    0u32
                },
        decreases rh - dy,
    {
        assert(dy * sh <= usize::MAX) by (nonlinear_arith)
            requires dy < rh, (rh - 1) * sh <= usize::MAX, sh > 0;
        let sy = dy * sh / rh;
        proof {
            lemma_scaled_coordinate(dy as int, rh as int, sh as int);
        }
        let mut dx: usize = 0;
        while dx < rw
            invariant
                dst@.len() == n,
                n == dw * dh,
                dw > 0,
                dh > 0,
                sw > 0,
                sh > 0,
                w == dw,
                sw * sh <= src@.len(),
                src@.len() == srclen,
                rw <= dw,
                rh <= dh,
                (rw - 1) * sw <= usize::MAX,
                ox == (dw - rw) / 2,
                oy == (dh - rh) / 2,
                dy < rh,
                sy == (dy * sh) as int / (rh as int),
                sy < sh,
                dx <= rw,
                forall|k: int|
                    0 <= k < n ==> #[trigger] dst@[k] == if k / w < oy + dy || (k / w == oy + dy && k % w < ox + dx) {
                        scaled_pixel(src@, sw as int, sh as int, ox as int, oy as int, rw as int, rh as int, k % w, k / w)
                    } else {
                        0u32
                    },
            decreases rw - dx,
        {
            assert(dx * sw <= usize::MAX) by (nonlinear_arith)
                requires dx < rw, (rw - 1) * sw <= usize::MAX, sw > 0;
            let sx = dx * sw / rw;
            proof {
                lemma_scaled_coordinate(dx as int, rw as int, sw as int);
                lemma_pixel_in_buffer(sw as int, sh as int, sx as int, sy as int);
                lemma_pixel_in_buffer(w, dh as int, (ox + dx) as int, (oy + dy) as int);
            }
            let value = src[sy * sw + sx];
            let idx = (oy + dy) * dw + ox + dx;
            dst.set(idx, value);
            proof {
                assert forall|k: int| 0 <= k < n implies #[trigger] dst@[k] == if k / w < oy + dy || (k / w == oy + dy && k % w < ox + dx + 1) {
                    scaled_pixel(src@, sw as int, sh as int, ox as int, oy as int, rw as int, rh as int, k % w, k / w)
                } else {
                    0u32
                } by {
                    lemma_pixel_coords(k, w, (ox + dx) as int, (oy + dy) as int);
                    assert(0 <= k % w < w) by {
                        vstd::arithmetic::div_mod::lemma_mod_bound(k, w);
                    }
                }
            }
            dx = dx + 1;
        }
        dy = dy + 1;
        proof {
            assert forall|k: int| 0 <= k < n implies #[trigger] dst@[k] == if k / w < oy + dy {
                scaled_pixel(src@, sw as int, sh as int, ox as int, oy as int, rw as int, rh as int, k % w, k / w)
            } else {
                0u32
            } by {
                assert(0 <= k % w < w) by {
                    vstd::arithmetic::div_mod::lemma_mod_bound(k, w);
                }
                if k / w == oy + dy - 1 && k % w >= ox + rw {
                    assert(scaled_pixel(src@, sw as int, sh as int, ox as int, oy as int, rw as int, rh as int, k % w, k / w) == 0);
                }
            }
        }
    }
    proof {
        assert forall|k: int| 0 <= k < n implies #[trigger] dst@[k] == scaled_pixel(src@, sw as int, sh as int, ox as int, oy as int, rw as int, rh as int, k % w, k / w) by {
            if k / w >= oy + rh {
                assert(scaled_pixel(src@, sw as int, sh as int, ox as int, oy as int, rw as int, rh as int, k % w, k / w) == 0);
            }
        }
    }
    (ox, oy, rw, rh)
}

} // verus!
