//! The integer geometry of screenshot beautification: the canvas around the content,
//! the corner radius, rounded corners and the border ring.

use vstd::prelude::*;

use crate::raster::{pixel_offset, Color, Raster};

verus! {

/// A border drawn along the content's rounded edge.
#[derive(Debug, Clone, Copy, PartialEq, Eq, Structural)]
pub struct Border {
    /// Width in pixels.
    pub width: u32,
    /// Colour.
    pub color: Color,
}

/// Direction of a gradient background.
#[derive(Debug, Clone, Copy, PartialEq, Eq, Structural)]
pub enum GradientDirection {
    /// Left to right.
    Horizontal,
    /// Top to bottom.
    Vertical,
    /// Top left to bottom right.
    Diagonal,
}

/// Background of a beautified screenshot.
#[derive(Debug, Clone, Copy, PartialEq, Eq, Structural)]
pub enum Background {
    /// Fully transparent.
    Transparent,
    /// One colour.
    Solid(Color),
    /// A linear gradient from `start` to `end`.
    Gradient { start: Color, end: Color, direction: GradientDirection },
}

/// The canvas around a `width` × `height` content with `padding` on every side.
pub open spec fn spec_canvas_size(width: u32, height: u32, padding: u32) -> (int, int) {
    (width + 2 * padding, height + 2 * padding)
}

/// The canvas size: the content plus the padding on both sides, in each direction.
pub fn canvas_size(width: u32, height: u32, padding: u32) -> (size: (u32, u32))
    requires
        width + 2 * padding <= u32::MAX,
        height + 2 * padding <= u32::MAX,
    ensures
        size.0 == spec_canvas_size(width, height, padding).0,
        size.1 == spec_canvas_size(width, height, padding).1,
{
    (width + 2 * padding, height + 2 * padding)
}

/// The corner radius actually used: the requested one, at most half of each side of the
/// content and of the canvas.
pub open spec fn spec_corner_radius(radius: u32, width: u32, height: u32, padding: u32) -> u32 {
    let (cw, ch) = spec_canvas_size(width, height, padding);
    let m1 = if radius <= width / 2 { radius } else { width / 2 };
    let m2 = if m1 <= height / 2 { m1 } else { height / 2 };
    let m3 = if m2 <= cw / 2 { m2 } else { (cw / 2) as u32 };
    if m3 <= ch / 2 { m3 } else { (ch / 2) as u32 }
}

/// The corner radius for a `width` × `height` content with `padding`.
pub fn corner_radius(radius: u32, width: u32, height: u32, padding: u32) -> (r: u32)
    requires
        width + 2 * padding <= u32::MAX,
        height + 2 * padding <= u32::MAX,
    ensures
        r == spec_corner_radius(radius, width, height, padding),
        r <= width / 2 && r <= height / 2,
{
    let (cw, ch) = canvas_size(width, height, padding);
    let mut r = radius;
    if width / 2 < r {
        r = width / 2;
    }
    if height / 2 < r {
        r = height / 2;
    }
    if cw / 2 < r {
        r = cw / 2;
    }
    if ch / 2 < r {
        r = ch / 2;
    }
    r
}

/// Whether (`px`, `py`) lies inside the `rw` × `rh` rectangle at (`rx`, `ry`) whose
/// corners are rounded with `radius` (edges included; a radius of 0 keeps square corners).
pub open spec fn spec_inside_rounded(px: int, py: int, rx: int, ry: int, rw: int, rh: int, radius: int) -> bool {
    if px < rx || py < ry || px >= rx + rw || py >= ry + rh {
        false
    } else if radius <= 0 {
        true
    } else {
        let lx = px - rx;
        let ly = py - ry;
        let left = lx < radius;
        let right = lx >= rw - radius;
        let top = ly < radius;
        let bottom = ly >= rh - radius;
        if (left || right) && (top || bottom) {
            let cx = if left { rx + radius } else { rx + rw - radius };
            let cy = if top { ry + radius } else { ry + rh - radius };
            (px - cx) * (px - cx) + (py - cy) * (py - cy) <= radius * radius
        } else {
            true
        }
    }
}

/// Squares of numbers of equal size are equal; a number within `r` of zero has a square
/// of at most `r²`; one beyond it, a larger square.
proof fn lemma_square_facts(a: int, b: int, r: int)
    ensures
        (a == b || a == -b) ==> a * a == b * b,
        (-r <= a <= r) ==> a * a <= r * r,
        (a < -r || a > r) && r >= 0 ==> a * a > r * r,
        a * a >= 0,
        a == 0 ==> a * a == 0,
{
    assert((a == b || a == -b) ==> a * a == b * b) by (nonlinear_arith);
    assert((-r <= a <= r) ==> a * a <= r * r) by (nonlinear_arith);
    assert((a < -r || a > r) && r >= 0 ==> a * a > r * r) by (nonlinear_arith);
    assert(a * a >= 0) by (nonlinear_arith);
    assert(a == 0 ==> a * a == 0) by (nonlinear_arith);
}

/// The rounded outline is the same at the top and at the bottom, and on the left and on
/// the right: with the radius fitting twice into each side, a pixel row (or column) at
/// offset `d` from the top (left) edge, `0 < d < height` (`width`), is cut exactly where
/// the row (column) at offset `d` from the bottom (right) edge is.
pub proof fn law_rounded_outline_is_symmetric(
    px: int,
    py: int,
    rx: int,
    ry: int,
    rw: int,
    rh: int,
    radius: int,
)
    requires
        2 * radius <= rw,
        2 * radius <= rh,
    ensures
        ry < py < ry + rh ==> (spec_inside_rounded(px, py, rx, ry, rw, rh, radius) == spec_inside_rounded(
            px,
            2 * ry + rh - py,
            rx,
            ry,
            rw,
            rh,
            radius,
        )),
        rx < px < rx + rw ==> (spec_inside_rounded(px, py, rx, ry, rw, rh, radius) == spec_inside_rounded(
            2 * rx + rw - px,
            py,
            rx,
            ry,
            rw,
            rh,
            radius,
        )),
{
    let qy = 2 * ry + rh - py;
    let qx = 2 * rx + rw - px;
    lemma_square_facts(py - (ry + radius), qy - (ry + rh - radius), radius);
    lemma_square_facts(py - (ry + rh - radius), qy - (ry + radius), radius);
    lemma_square_facts(qy - (ry + radius), py - (ry + rh - radius), radius);
    lemma_square_facts(qy - (ry + rh - radius), py - (ry + radius), radius);
    lemma_square_facts(px - (rx + radius), qx - (rx + rw - radius), radius);
    lemma_square_facts(px - (rx + rw - radius), qx - (rx + radius), radius);
    lemma_square_facts(qx - (rx + radius), px - (rx + rw - radius), radius);
    lemma_square_facts(qx - (rx + rw - radius), px - (rx + radius), radius);
}

/// With a radius of at least 2 that fits twice into each side, the top-left, top-right and
/// bottom-left corner pixels are cut away, and with a radius of at least 4 the
/// bottom-right one too.
pub proof fn law_rounded_outline_cuts_corners(rx: int, ry: int, rw: int, rh: int, radius: int)
    requires
        2 <= radius,
        2 * radius <= rw,
        2 * radius <= rh,
    ensures
        !spec_inside_rounded(rx, ry, rx, ry, rw, rh, radius),
        !spec_inside_rounded(rx + rw - 1, ry, rx, ry, rw, rh, radius),
        !spec_inside_rounded(rx, ry + rh - 1, rx, ry, rw, rh, radius),
        radius >= 4 ==> !spec_inside_rounded(rx + rw - 1, ry + rh - 1, rx, ry, rw, rh, radius),
{
    let (l, t) = (rx - (rx + radius), ry - (ry + radius));
    let (r, b) = (rx + rw - 1 - (rx + rw - radius), ry + rh - 1 - (ry + rh - radius));
    assert(l * l + t * t > radius * radius) by (nonlinear_arith)
        requires
            radius >= 2,
            l == -radius,
            t == -radius,
    ;
    assert(r * r + t * t > radius * radius) by (nonlinear_arith)
        requires
            radius >= 2,
            r == radius - 1,
            t == -radius,
    ;
    assert(l * l + b * b > radius * radius) by (nonlinear_arith)
        requires
            radius >= 2,
            l == -radius,
            b == radius - 1,
    ;
    assert(radius >= 4 ==> r * r + b * b > radius * radius) by (nonlinear_arith)
        requires
            r == radius - 1,
            b == radius - 1,
    ;
}

/// Only the corners are cut: a pixel outside the rectangle is never inside, and a pixel of
/// the rectangle at least `radius` away from the left and right edges, or from the top and
/// bottom edges, always is.
pub proof fn law_rounded_outline_keeps_all_but_corners(
    px: int,
    py: int,
    rx: int,
    ry: int,
    rw: int,
    rh: int,
    radius: int,
)
    requires
        2 * radius <= rw,
        2 * radius <= rh,
    ensures
        !(rx <= px < rx + rw && ry <= py < ry + rh) ==> !spec_inside_rounded(px, py, rx, ry, rw, rh, radius),
        rx <= px < rx + rw && ry <= py < ry + rh && (rx + radius <= px < rx + rw - radius || ry + radius <= py
            < ry + rh - radius) ==> spec_inside_rounded(px, py, rx, ry, rw, rh, radius),
{
}

/// Bound on every coordinate handed to [`inside_rounded`].
pub open spec fn coordinate_ok(v: i64) -> bool {
    -0x1_0000_0000 <= v <= 0x3_0000_0000
}

/// Whether a pixel lies inside a rounded rectangle (see [`spec_inside_rounded`]).
pub fn inside_rounded(px: i64, py: i64, rx: i64, ry: i64, rw: i64, rh: i64, radius: i64) -> (inside: bool)
    requires
        coordinate_ok(px),
        coordinate_ok(py),
        coordinate_ok(rx),
        coordinate_ok(ry),
        coordinate_ok(rw),
        coordinate_ok(rh),
        coordinate_ok(radius),
    ensures
        inside == spec_inside_rounded(px as int, py as int, rx as int, ry as int, rw as int, rh as int, radius as int),
{
    if px < rx || py < ry || px >= rx + rw || py >= ry + rh {
        return false;
    }
    if radius <= 0 {
        return true;
    }
    let lx = px - rx;
    let ly = py - ry;
    let left = lx < radius;
    let right = lx >= rw - radius;
    let top = ly < radius;
    let bottom = ly >= rh - radius;
    if (left || right) && (top || bottom) {
        let cx: i128 = if left { (rx + radius) as i128 } else { (rx + rw - radius) as i128 };
        let cy: i128 = if top { (ry + radius) as i128 } else { (ry + rh - radius) as i128 };
        let dx: i128 = px as i128 - cx;
        let dy: i128 = py as i128 - cy;
        let r: i128 = radius as i128;
        proof {
            assert(-0x10_0000_0000 <= dx <= 0x10_0000_0000);
            assert(-0x10_0000_0000 <= dy <= 0x10_0000_0000);
            assert(dx * dx <= 0x100_0000_0000_0000_0000) by (nonlinear_arith)
                requires -0x10_0000_0000 <= dx <= 0x10_0000_0000;
            assert(dy * dy <= 0x100_0000_0000_0000_0000) by (nonlinear_arith)
                requires -0x10_0000_0000 <= dy <= 0x10_0000_0000;
            assert(r * r <= 0x100_0000_0000_0000_0000) by (nonlinear_arith)
                requires 0 < r <= 0x3_0000_0000;
            assert(dx * dx >= 0 && dy * dy >= 0) by (nonlinear_arith);
        }
        dx * dx + dy * dy <= r * r
    } else {
        true
    }
}

/// Offsets of the pixels of a `w` × `h` image lie inside its buffer, and pixels before
/// (`x`, `y`) in row-major order come earlier.
pub(crate) proof fn lemma_offset(w: int, h: int, x: int, y: int)
    requires
        0 <= x < w,
        0 <= y < h,
    ensures
        pixel_offset(w, x, y) + 4 <= 4 * (w * h),
        pixel_offset(w, x, y) == 4 * (y * w + x),
{
    assert(y * w + x + 1 <= w * h) by (nonlinear_arith)
        requires
            0 <= x < w,
            0 <= y < h,
    ;
}

/// Pixels before (`x`, `y`) in row-major order have offsets below its offset.
pub(crate) proof fn lemma_offset_before(w: int, xx: int, yy: int, k: int, x: int, y: int)
    requires
        0 <= x,
        0 <= xx < w,
        0 <= yy,
        0 <= k < 4,
        yy < y || (yy == y && xx < x),
    ensures
        pixel_offset(w, xx, yy) + k < 4 * (y * w + x),
{
    if yy < y {
        assert(yy * w + xx < y * w) by (nonlinear_arith)
            requires
                0 <= xx < w,
                0 <= yy < y,
        ;
    }
    assert(4 * (yy * w + xx) + k < 4 * (y * w + x));
}

/// The colour channel written at (`x`, `y`): `paint` where `painted` holds, else the old one.
pub open spec fn painted_channel(old: u8, painted: bool, paint: u8) -> u8 {
    if painted {
        paint
    } else {
        old
    }
}

/// Whether pixel (`x`, `y`) of a `w` × `h` image lies outside its rounded outline.
pub open spec fn outside_corner(x: int, y: int, w: u32, h: u32, radius: u32) -> bool {
    !spec_inside_rounded(x, y, 0, 0, w as int, h as int, radius as int)
}

/// `img` with every pixel outside its rounded outline made fully transparent; colours and
/// pixels inside are kept.
pub fn round_corners(img: &Raster, radius: u32) -> (out: Raster)
    requires
        img.wf(),
    ensures
        out.wf(),
        out.width == img.width,
        out.height == img.height,
        forall|x: int, y: int, k: int|
            0 <= x < img.width && 0 <= y < img.height && 0 <= k < 4 ==> #[trigger] out@.at(x, y, k)
                == painted_channel(img@.at(x, y, k), k == 3 && outside_corner(x, y, img.width, img.height, radius), 0),
{
    let w = img.width;
    let h = img.height;
    let mut pixels: Vec<u8> = Vec::new();
    let mut y: u32 = 0;
    while y < h
        invariant
            img.wf(),
            w == img.width,
            h == img.height,
            y <= h,
            pixels.len() == 4 * (y * w),
            forall|xx: int, yy: int, k: int|
                0 <= xx < w && 0 <= yy < y && 0 <= k < 4 ==> #[trigger] pixels@[pixel_offset(w as int, xx, yy) + k]
                    == painted_channel(img@.at(xx, yy, k), k == 3 && outside_corner(xx, yy, w, h, radius), 0),
        decreases h - y,
    {
        let mut x: u32 = 0;
        while x < w
            invariant
                img.wf(),
                w == img.width,
                h == img.height,
                y < h,
                x <= w,
                pixels.len() == 4 * (y * w + x),
                forall|xx: int, yy: int, k: int|
                    0 <= xx < w && 0 <= yy < h && 0 <= k < 4 && (yy < y || (yy == y && xx < x))
                        ==> #[trigger] pixels@[pixel_offset(w as int, xx, yy) + k] == painted_channel(
                        img@.at(xx, yy, k),
                        k == 3 && outside_corner(xx, yy, w, h, radius),
                        0,
                    ),
            decreases w - x,
        {
            proof {
                lemma_offset(w as int, h as int, x as int, y as int);
            }
            let base: usize = 4 * ((y as usize) * (w as usize) + (x as usize));
            let inside = inside_rounded(x as i64, y as i64, 0, 0, w as i64, h as i64, radius as i64);
            let ghost start = pixels.len() as int;
            pixels.push(img.pixels[base]);
            pixels.push(img.pixels[base + 1]);
            pixels.push(img.pixels[base + 2]);
            pixels.push(if inside { img.pixels[base + 3] } else { 0 });
            proof {
                assert forall|xx: int, yy: int, k: int|
                    0 <= xx < w && 0 <= yy < h && 0 <= k < 4 && (yy < y || (yy == y && xx < x + 1))
                        implies #[trigger] pixels@[pixel_offset(w as int, xx, yy) + k] == painted_channel(
                        img@.at(xx, yy, k),
                        k == 3 && outside_corner(xx, yy, w, h, radius),
                        0,
                    ) by {
                    if !(yy == y && xx == x) {
                        lemma_offset_before(w as int, xx, yy, k, x as int, y as int);
                    }
                }
                assert(pixels.len() == 4 * (y * w + (x + 1))) by (nonlinear_arith)
                    requires pixels.len() == 4 * (y * w + x) + 4;
            }
            x = x + 1;
        }
        proof {
            assert(4 * (y * w + w) == 4 * ((y + 1) * w)) by (nonlinear_arith);
        }
        y = y + 1;
    }
    proof {
        assert(4 * (h * w) == 4 * (w * h)) by (nonlinear_arith);
    }
    Raster { width: w, height: h, pixels }
}

/// Whether canvas pixel (`gx`, `gy`) belongs to the border ring of a `iw` × `ih` content
/// placed at (`ox`, `oy`) with corner `radius`: inside the rounded outline but not inside
/// it shrunk by the border width.
pub open spec fn in_border_ring(gx: int, gy: int, ox: int, oy: int, iw: int, ih: int, radius: int, bw: int) -> bool {
    &&& ox <= gx < ox + iw && oy <= gy < oy + ih
    &&& spec_inside_rounded(gx, gy, ox, oy, iw, ih, radius)
    &&& !spec_inside_rounded(gx, gy, ox + bw, oy + bw, iw - 2 * bw, ih - 2 * bw, if radius - bw > 0 { radius - bw } else { 0 })
}

/// The border width actually drawn: the requested one, at most the largest width that
/// still leaves some content uncovered (so a one-pixel content gets no border).
pub open spec fn effective_border_width(width: u32, iw: u32, ih: u32) -> int {
    let side: int = if iw <= ih { iw as int } else { ih as int };
    let limit: int = if side == 0 { 0 } else { (side - 1) / 2 };
    if width <= limit { width as int } else { limit }
}

/// `canvas` with the border ring around the `iw` × `ih` content at (`ox`, `oy`) painted
/// in the border colour (its width limited as [`effective_border_width`] says); every
/// other pixel is kept.
pub fn draw_border(canvas: &Raster, ox: u32, oy: u32, iw: u32, ih: u32, radius: u32, border: Border) -> (out: Raster)
    requires
        canvas.wf(),
        ox + iw <= canvas.width,
        oy + ih <= canvas.height,
    ensures
        out.wf(),
        out.width == canvas.width,
        out.height == canvas.height,
        forall|x: int, y: int, k: int|
            0 <= x < canvas.width && 0 <= y < canvas.height && 0 <= k < 4 ==> #[trigger] out@.at(x, y, k)
                == painted_channel(
                canvas@.at(x, y, k),
                in_border_ring(x, y, ox as int, oy as int, iw as int, ih as int, radius as int, effective_border_width(border.width, iw, ih)),
                if k == 0 {
                    border.color.r
                } else if k == 1 {
                    border.color.g
                } else if k == 2 {
                    border.color.b
                } else {
                    border.color.a
                },
            ),
{
    let w = canvas.width;
    let h = canvas.height;
    let side = if iw <= ih { iw } else { ih };
    let limit = if side == 0 { 0 } else { (side - 1) / 2 };
    let bw: i64 = if border.width <= limit { border.width as i64 } else { limit as i64 };
    let inner_radius: i64 = if (radius as i64) - bw > 0 { (radius as i64) - bw } else { 0 };
    let c = border.color;
    let mut pixels: Vec<u8> = Vec::new();
    let mut y: u32 = 0;
    while y < h
        invariant
            canvas.wf(),
            w == canvas.width,
            h == canvas.height,
            ox + iw <= w,
            oy + ih <= h,
            bw == effective_border_width(border.width, iw, ih),
            0 <= bw <= u32::MAX / 2,
            inner_radius == (if radius - bw > 0 { radius - bw } else { 0 }),
            c == border.color,
            y <= h,
            pixels.len() == 4 * (y * w),
            forall|xx: int, yy: int, k: int|
                0 <= xx < w && 0 <= yy < y && 0 <= k < 4 ==> #[trigger] pixels@[pixel_offset(w as int, xx, yy) + k]
                    == painted_channel(
                    canvas@.at(xx, yy, k),
                    in_border_ring(xx, yy, ox as int, oy as int, iw as int, ih as int, radius as int, effective_border_width(border.width, iw, ih)),
                    if k == 0 { c.r } else if k == 1 { c.g } else if k == 2 { c.b } else { c.a },
                ),
        decreases h - y,
    {
        let mut x: u32 = 0;
        while x < w
            invariant
                canvas.wf(),
                w == canvas.width,
                h == canvas.height,
                ox + iw <= w,
                oy + ih <= h,
                bw == effective_border_width(border.width, iw, ih),
                0 <= bw <= u32::MAX / 2,
                inner_radius == (if radius - bw > 0 { radius - bw } else { 0 }),
                c == border.color,
                y < h,
                x <= w,
                pixels.len() == 4 * (y * w + x),
                forall|xx: int, yy: int, k: int|
                    0 <= xx < w && 0 <= yy < h && 0 <= k < 4 && (yy < y || (yy == y && xx < x))
                        ==> #[trigger] pixels@[pixel_offset(w as int, xx, yy) + k] == painted_channel(
                        canvas@.at(xx, yy, k),
                        in_border_ring(xx, yy, ox as int, oy as int, iw as int, ih as int, radius as int, effective_border_width(border.width, iw, ih)),
                        if k == 0 { c.r } else if k == 1 { c.g } else if k == 2 { c.b } else { c.a },
                    ),
            decreases w - x,
        {
            proof {
                lemma_offset(w as int, h as int, x as int, y as int);
            }
            let base: usize = 4 * ((y as usize) * (w as usize) + (x as usize));
            let gx = x as i64;
            let gy = y as i64;
            let in_content = ox <= x && x < ox + iw && oy <= y && y < oy + ih;
            let ring = in_content && inside_rounded(gx, gy, ox as i64, oy as i64, iw as i64, ih as i64, radius as i64)
                && !inside_rounded(gx, gy, ox as i64 + bw, oy as i64 + bw, iw as i64 - 2 * bw, ih as i64 - 2 * bw, inner_radius);
            let ghost start = pixels.len() as int;
            pixels.push(if ring { c.r } else { canvas.pixels[base] });
            pixels.push(if ring { c.g } else { canvas.pixels[base + 1] });
            pixels.push(if ring { c.b } else { canvas.pixels[base + 2] });
            pixels.push(if ring { c.a } else { canvas.pixels[base + 3] });
            proof {
                assert(ring == in_border_ring(x as int, y as int, ox as int, oy as int, iw as int, ih as int, radius as int, effective_border_width(border.width, iw, ih)));
                assert forall|xx: int, yy: int, k: int|
                    0 <= xx < w && 0 <= yy < h && 0 <= k < 4 && (yy < y || (yy == y && xx < x + 1))
                        implies #[trigger] pixels@[pixel_offset(w as int, xx, yy) + k] == painted_channel(
                        canvas@.at(xx, yy, k),
                        in_border_ring(xx, yy, ox as int, oy as int, iw as int, ih as int, radius as int, effective_border_width(border.width, iw, ih)),
                        if k == 0 { c.r } else if k == 1 { c.g } else if k == 2 { c.b } else { c.a },
                    ) by {
                    if !(yy == y && xx == x) {
                        lemma_offset_before(w as int, xx, yy, k, x as int, y as int);
                    }
                }
                assert(pixels.len() == 4 * (y * w + (x + 1))) by (nonlinear_arith)
                    requires pixels.len() == 4 * (y * w + x) + 4;
            }
            x = x + 1;
        }
        proof {
            assert(4 * (y * w + w) == 4 * ((y + 1) * w)) by (nonlinear_arith);
        }
        y = y + 1;
    }
    proof {
        assert(4 * (h * w) == 4 * (w * h)) by (nonlinear_arith);
    }
    Raster { width: w, height: h, pixels }
}

} // verus!
