//! An owned RGBA raster: four bytes per pixel, rows top to bottom.

use vstd::prelude::*;

use vstd::arithmetic::div_mod::lemma_fundamental_div_mod_converse;

verus! {

/// An RGBA colour.
#[derive(Debug, Clone, Copy, PartialEq, Eq, Structural)]
pub struct Color {
    /// Red.
    pub r: u8,
    /// Green.
    pub g: u8,
    /// Blue.
    pub b: u8,
    /// Alpha; 0 is fully transparent.
    pub a: u8,
}

/// A decoded RGBA image held as plain values.
#[derive(Debug, Clone, PartialEq, Eq)]
pub struct Raster {
    /// Width in pixels.
    pub width: u32,
    /// Height in pixels.
    pub height: u32,
    /// Row-major RGBA bytes, `4 * width * height` of them.
    pub pixels: Vec<u8>,
}

/// The mathematical content of a raster: its dimensions and bytes.
pub struct RasterView {
    /// Width in pixels.
    pub width: u32,
    /// Height in pixels.
    pub height: u32,
    /// Row-major RGBA bytes.
    pub pixels: Seq<u8>,
}

impl RasterView {
    /// Channel `k` of pixel (`x`, `y`).
    pub open spec fn at(self, x: int, y: int, k: int) -> u8 {
        self.pixels[pixel_offset(self.width as int, x, y) + k]
    }
}

impl View for Raster {
    type V = RasterView;

    open spec fn view(&self) -> RasterView {
        RasterView { width: self.width, height: self.height, pixels: self.pixels@ }
    }
}

/// Number of bytes of a `width` × `height` RGBA buffer.
pub open spec fn rgba_len(width: int, height: int) -> int {
    4 * (width * height)
}

/// Offset of the first byte of pixel (`x`, `y`) in a buffer of the given width.
pub open spec fn pixel_offset(width: int, x: int, y: int) -> int {
    4 * (y * width + x)
}

impl Raster {
    /// The buffer holds exactly one RGBA quadruple per pixel.
    pub open spec fn wf(&self) -> bool {
        self.pixels.len() == rgba_len(self.width as int, self.height as int)
    }

    /// Channel `k` of pixel (`x`, `y`).
    pub open spec fn channel(&self, x: int, y: int, k: int) -> u8 {
        self.pixels@[pixel_offset(self.width as int, x, y) + k]
    }

    /// The four channels of pixel (`x`, `y`).
    pub open spec fn pixel(&self, x: int, y: int) -> [u8; 4] {
        [self.channel(x, y, 0), self.channel(x, y, 1), self.channel(x, y, 2), self.channel(x, y, 3)]
    }

    /// A copy with the same dimensions and bytes.
    pub fn clone_raster(&self) -> (copy: Raster)
        ensures
            copy@ == self@,
    {
        let pixels = self.pixels.clone();
        assert(pixels@ =~= self.pixels@);
        Raster { width: self.width, height: self.height, pixels }
    }
}

/// `out` is the `out.width` × `out.height` region of `img` whose top-left corner is
/// (`x`, `y`): every channel of every pixel is copied unchanged.
pub open spec fn is_region_of(out: RasterView, img: RasterView, x: int, y: int) -> bool {
    forall|px: int, py: int, k: int|
        0 <= px < out.width && 0 <= py < out.height && 0 <= k < 4 ==> #[trigger] out.at(px, py, k)
            == img.at(x + px, y + py, k)
}

/// Byte `i`, in row-major order, of the `w`-pixel-wide region of `img` at (`x`, `y`).
spec fn region_byte(img: RasterView, x: int, y: int, w: int, i: int) -> u8 {
    img.pixels[4 * ((y + i / (4 * w)) * img.width + x) + i % (4 * w)]
}

proof fn lemma_row_bounds(width: int, height: int, x: int, y: int, w: int, row: int)
    by (nonlinear_arith)
    requires
        0 <= x,
        0 <= w,
        x + w <= width,
        0 <= y,
        0 <= row,
        y + row < height,
    ensures
        0 <= (y + row) * width,
        (y + row) * width + x + w <= height * width,
{
}

proof fn lemma_region_offset(w: int, h: int, px: int, py: int, k: int)
    by (nonlinear_arith)
    requires
        0 <= px < w,
        0 <= py < h,
        0 <= k < 4,
    ensures
        pixel_offset(w, px, py) + k == py * (4 * w) + (4 * px + k),
        0 <= 4 * px + k < 4 * w,
        pixel_offset(w, px, py) + k < 4 * w * h,
        0 <= pixel_offset(w, px, py) + k,
{
}

impl Raster {
    /// The `w` × `h` region whose top-left corner is (`x`, `y`), as a new raster.
    pub fn region(&self, x: u32, y: u32, w: u32, h: u32) -> (out: Raster)
        requires
            self.wf(),
            x + w <= self.width,
            y + h <= self.height,
        ensures
            out.wf(),
            out.width == w,
            out.height == h,
            is_region_of(out@, self@, x as int, y as int),
    {
        let mut pixels: Vec<u8> = Vec::new();
        let mut row: u32 = 0;
        while row < h
            invariant
                self.wf(),
                x + w <= self.width,
                y + h <= self.height,
                row <= h,
                pixels.len() == 4 * w * row,
                forall|i: int|
                    0 <= i < pixels.len() ==> #[trigger] pixels@[i] == region_byte(
                        self@,
                        x as int,
                        y as int,
                        w as int,
                        i,
                    ),
            decreases h - row,
        {
            proof {
                lemma_row_bounds(
                    self.width as int,
                    self.height as int,
                    x as int,
                    y as int,
                    w as int,
                    row as int,
                );
                assert(4 * ((y + row) * self.width + x + w) <= 4 * (self.height * self.width));
                assert(self.height * self.width == self.width * self.height) by (nonlinear_arith);
            }
            let start: usize = 4 * ((y as usize + row as usize) * (self.width as usize) + x as usize);
            let len: usize = 4 * (w as usize);
            let ghost base = pixels.len() as int;
            let mut b: usize = 0;
            while b < len
                invariant
                    self.wf(),
                    b <= len,
                    len == 4 * w,
                    base == 4 * w * row,
                    pixels.len() == base + b,
                    start == 4 * ((y + row) * self.width + x),
                    start + len <= self.pixels.len(),
                    forall|i: int|
                        0 <= i < pixels.len() ==> #[trigger] pixels@[i] == region_byte(
                            self@,
                            x as int,
                            y as int,
                            w as int,
                            i,
                        ),
                decreases len - b,
            {
                let v = self.pixels[start + b];
                proof {
                    let i = base + b;
                    assert(i == row * (4 * w) + b) by (nonlinear_arith)
                        requires
                            i == base + b,
                            base == 4 * w * row,
                    ;
                    lemma_fundamental_div_mod_converse(i, 4 * w, row as int, b as int);
                }
                pixels.push(v);
                b = b + 1;
            }
            proof {
                assert(4 * w * row + 4 * w == 4 * w * (row + 1)) by (nonlinear_arith);
            }
            row = row + 1;
        }
        let out = Raster { width: w, height: h, pixels };
        proof {
            assert(4 * w * h == rgba_len(w as int, h as int)) by (nonlinear_arith);
            assert forall|px: int, py: int, k: int|
                0 <= px < out.width && 0 <= py < out.height && 0 <= k < 4 implies #[trigger] out@.at(
                px,
                py,
                k,
            ) == self@.at(x + px, y + py, k) by {
                let i = pixel_offset(w as int, px, py) + k;
                lemma_region_offset(w as int, h as int, px, py, k);
                lemma_fundamental_div_mod_converse(i, 4 * w, py, 4 * px + k);
                assert(out.pixels@[i] == region_byte(self@, x as int, y as int, w as int, i));
                assert(4 * ((y + py) * self.width + x) + (4 * px + k) == pixel_offset(
                    self.width as int,
                    x + px,
                    y + py,
                ) + k) by (nonlinear_arith);
            }
        }
        out
    }
}

/// Two views with the same dimensions, full buffers and channels are equal.
pub proof fn lemma_view_ext(a: RasterView, b: RasterView)
    requires
        a.width == b.width,
        a.height == b.height,
        a.pixels.len() == rgba_len(a.width as int, a.height as int),
        b.pixels.len() == rgba_len(b.width as int, b.height as int),
        forall|x: int, y: int, k: int|
            0 <= x < a.width && 0 <= y < a.height && 0 <= k < 4 ==> #[trigger] a.at(x, y, k) == b.at(x, y, k),
    ensures
        a == b,
{
    let w = a.width as int;
    let h = a.height as int;
    assert forall|i: int| 0 <= i < a.pixels.len() implies a.pixels[i] == b.pixels[i] by {
        let p = i / 4;
        let k = i % 4;
        lemma_fundamental_div_mod_converse(i, 4, p, k);
        vstd::arithmetic::div_mod::lemma_fundamental_div_mod(i, 4);
        vstd::arithmetic::div_mod::lemma_mod_bound(i, 4);
        assert(w > 0) by (nonlinear_arith)
            requires
                0 <= i < 4 * (w * h),
                0 <= w,
                0 <= h,
        ;
        let x = p % w;
        let y = p / w;
        vstd::arithmetic::div_mod::lemma_fundamental_div_mod(p, w);
        vstd::arithmetic::div_mod::lemma_mod_bound(p, w);
        assert(0 <= p < w * h) by (nonlinear_arith)
            requires
                i == 4 * p + k,
                0 <= k < 4,
                0 <= i < 4 * (w * h),
        ;
        assert(0 <= y < h) by (nonlinear_arith)
            requires
                p == w * y + x,
                0 <= x < w,
                0 <= p < w * h,
        ;
        assert(i == pixel_offset(w, x, y) + k) by (nonlinear_arith)
            requires
                i == 4 * p + k,
                p == w * y + x,
        ;
        assert(a.at(x, y, k) == b.at(x, y, k));
    }
    assert(a.pixels =~= b.pixels);
}

/// Distinct pixels of a `w`-wide image have disjoint channel offsets.
pub proof fn lemma_offsets_disjoint(w: int, x: int, y: int, k: int, xx: int, yy: int, kk: int)
    requires
        0 <= x < w,
        0 <= xx < w,
        0 <= y,
        0 <= yy,
        0 <= k < 4,
        0 <= kk < 4,
        x != xx || y != yy,
    ensures
        pixel_offset(w, x, y) + k != pixel_offset(w, xx, yy) + kk,
{
    if y == yy {
        assert(pixel_offset(w, x, y) + k != pixel_offset(w, xx, yy) + kk);
    } else if y < yy {
        assert(y * w + x < yy * w + xx) by (nonlinear_arith)
            requires
                0 <= x < w,
                0 <= xx,
                y < yy,
        ;
    } else {
        assert(yy * w + xx < y * w + x) by (nonlinear_arith)
            requires
                0 <= xx < w,
                0 <= x,
                yy < y,
        ;
    }
}

/// The offset of a pixel of a `w` × `h` image leaves room for its four channels.
pub proof fn lemma_offset_in_buffer(w: int, h: int, x: int, y: int)
    requires
        0 <= x < w,
        0 <= y < h,
    ensures
        pixel_offset(w, x, y) + 4 <= rgba_len(w, h),
{
    assert(y * w + x + 1 <= w * h) by (nonlinear_arith)
        requires
            0 <= x < w,
            0 <= y < h,
    ;
}

impl Raster {
    /// Paints pixel (`x`, `y`) with `color`; every other pixel is kept.
    pub fn set_pixel(&mut self, x: u32, y: u32, color: Color)
        requires
            old(self).wf(),
            x < old(self).width,
            y < old(self).height,
        ensures
            final(self).wf(),
            final(self).width == old(self).width,
            final(self).height == old(self).height,
            final(self)@.at(x as int, y as int, 0) == color.r,
            final(self)@.at(x as int, y as int, 1) == color.g,
            final(self)@.at(x as int, y as int, 2) == color.b,
            final(self)@.at(x as int, y as int, 3) == color.a,
            forall|xx: int, yy: int, k: int|
                0 <= xx < old(self).width && 0 <= yy < old(self).height && 0 <= k < 4 && (xx != x || yy != y)
                    ==> #[trigger] final(self)@.at(xx, yy, k) == old(self)@.at(xx, yy, k),
    {
        proof {
            lemma_offset_in_buffer(self.width as int, self.height as int, x as int, y as int);
        }
        let base: usize = 4 * ((y as usize) * (self.width as usize) + (x as usize));
        let ghost before = self.pixels@;
        assert(base as int == pixel_offset(self.width as int, x as int, y as int));
        self.pixels.set(base, color.r);
        self.pixels.set(base + 1, color.g);
        self.pixels.set(base + 2, color.b);
        self.pixels.set(base + 3, color.a);
        assert(self.pixels@ == before.update(base as int, color.r).update(base + 1, color.g).update(base + 2, color.b).update(base + 3, color.a));
        proof {
            assert forall|xx: int, yy: int, k: int|
                0 <= xx < old(self).width && 0 <= yy < old(self).height && 0 <= k < 4 && (xx != x || yy != y)
                    implies #[trigger] self@.at(xx, yy, k) == old(self)@.at(xx, yy, k) by {
                lemma_offsets_disjoint(self.width as int, xx, yy, k, x as int, y as int, 0);
                lemma_offsets_disjoint(self.width as int, xx, yy, k, x as int, y as int, 1);
                lemma_offsets_disjoint(self.width as int, xx, yy, k, x as int, y as int, 2);
                lemma_offsets_disjoint(self.width as int, xx, yy, k, x as int, y as int, 3);
                let o = pixel_offset(self.width as int, xx, yy) + k;
                lemma_offset_in_buffer(self.width as int, self.height as int, xx, yy);
                assert(o != base && o != base + 1 && o != base + 2 && o != base + 3);
                assert(self.pixels@[o] == before[o]);
            }
        }
    }
}

} // verus!
