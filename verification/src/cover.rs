//! Fitting an image to exact output dimensions without stretching: the largest centred
//! region of the target's proportions is cut out and resampled to the target size.

use vstd::prelude::*;

use crate::error::CoreError;
use crate::raster::{is_region_of, lemma_view_ext, rgba_len, Raster, RasterView};
use crate::transform::{crop, resampled, resize, CropRect, ResizeFilter};

verus! {

/// `a / b` rounded to the nearest whole number, halves rounding up (`b > 0`).
pub open spec fn div_round(a: nat, b: nat) -> nat {
    (2 * a + b) / (2 * b)
}

/// The centred region of a `sw` × `sh` image with the proportions of `w` × `h`: when the
/// source is wider, the full height and a width of `sh·w/h` (rounded); otherwise the full
/// width and a height of `sw·h/w` (rounded).
pub open spec fn cover_rect(sw: nat, sh: nat, w: nat, h: nat) -> CropRect {
    if sw * h > w * sh {
        let cw = div_round(sh * w, h);
        CropRect { x: ((sw - cw) / 2) as u32, y: 0, width: cw as u32, height: sh as u32 }
    } else {
        let ch = div_round(sw * h, w);
        CropRect { x: 0, y: ((sh - ch) / 2) as u32, width: sw as u32, height: ch as u32 }
    }
}

/// A rounded quotient stays below `q + 1` when `2a + b < 2b(q + 1)`.
proof fn lemma_round_bound(a: nat, b: nat, q: nat)
    requires
        b > 0,
        2 * a + b < 2 * b * (q + 1),
    ensures
        div_round(a, b) <= q,
{
    let c = div_round(a, b);
    vstd::arithmetic::div_mod::lemma_fundamental_div_mod((2 * a + b) as int, (2 * b) as int);
    assert(c <= q) by (nonlinear_arith)
        requires
            (2 * b) * c <= 2 * a + b,
            2 * a + b < 2 * b * (q + 1),
            b > 0,
    ;
}

proof fn lemma_cover_rect_fits(sw: nat, sh: nat, w: nat, h: nat)
    requires
        sw > 0,
        sh > 0,
        w > 0,
        h > 0,
    ensures
        sw * h > w * sh ==> div_round(sh * w, h) <= sw,
        !(sw * h > w * sh) ==> div_round(sw * h, w) <= sh,
{
    if sw * h > w * sh {
        assert(2 * (sh * w) + h < 2 * h * (sw + 1)) by (nonlinear_arith)
            requires
                sw * h > w * sh,
        ;
        lemma_round_bound(sh * w, h, sw);
    } else {
        assert(2 * (sw * h) + w < 2 * w * (sh + 1)) by (nonlinear_arith)
            requires
                sw * h <= w * sh,
                w > 0,
        ;
        lemma_round_bound(sw * h, w, sh);
    }
}

/// A rounded quotient `q = (2a + b) / 2b` is within half of `b` of `a` once multiplied
/// back.
proof fn lemma_round_close(a: nat, b: nat)
    requires
        b > 0,
    ensures
        2 * (div_round(a, b) * b - a) <= b,
        2 * (a - div_round(a, b) * b) < b,
{
    let x = (2 * a + b) as int;
    let d = (2 * b) as int;
    vstd::arithmetic::div_mod::lemma_fundamental_div_mod(x, d);
    let q = x / d;
    assert(q == div_round(a, b));
    assert(d * q == 2 * (q * b)) by (nonlinear_arith)
        requires
            d == 2 * b,
    ;
}

/// The region a cover cuts out is centred in the source and lies inside it, filling it
/// along one side: `x = (source width - region width) / 2`, `y = (source height - region
/// height) / 2`. A source relatively wider than the target keeps its full height and is
/// cut to the target's proportions in width (rounded to the nearest pixel); otherwise
/// it keeps its full width and is cut in height.
pub proof fn law_cover_rect_is_centred(sw: nat, sh: nat, w: nat, h: nat)
    requires
        0 < sw <= u32::MAX,
        0 < sh <= u32::MAX,
        w > 0,
        h > 0,
    ensures
        cover_rect(sw, sh, w, h).width <= sw,
        cover_rect(sw, sh, w, h).height <= sh,
        cover_rect(sw, sh, w, h).width == sw || cover_rect(sw, sh, w, h).height == sh,
        cover_rect(sw, sh, w, h).x == (sw - cover_rect(sw, sh, w, h).width) / 2,
        cover_rect(sw, sh, w, h).y == (sh - cover_rect(sw, sh, w, h).height) / 2,
        sw * h > w * sh ==> cover_rect(sw, sh, w, h).height == sh && 2 * (cover_rect(sw, sh, w, h).width * h
            - sh * w) <= h && 2 * (sh * w - cover_rect(sw, sh, w, h).width * h) < h,
        sw * h <= w * sh ==> cover_rect(sw, sh, w, h).width == sw && 2 * (cover_rect(sw, sh, w, h).height * w
            - sw * h) <= w && 2 * (sw * h - cover_rect(sw, sh, w, h).height * w) < w,
{
    lemma_cover_rect_fits(sw, sh, w, h);
    lemma_round_close(sh * w, h);
    lemma_round_close(sw * h, w);
}

/// Whether a `sw` × `sh` image can be fitted to `w` × `h`: no side is zero and the
/// centred region does not round to nothing.
pub open spec fn cover_possible(sw: nat, sh: nat, w: nat, h: nat) -> bool {
    sw > 0 && sh > 0 && w > 0 && h > 0 && cover_rect(sw, sh, w, h).width > 0 && cover_rect(sw, sh, w, h).height > 0
}

/// `r` is `img` cut to its centred region with the proportions of `width` × `height`
/// and resampled (Lanczos3) to exactly that size.
pub open spec fn is_cover_of(r: RasterView, img: RasterView, width: u32, height: u32) -> bool {
    let rect = cover_rect(img.width as nat, img.height as nat, width as nat, height as nat);
    &&& r.width == width
    &&& r.height == height
    &&& exists|c: RasterView| #[trigger] is_region_of(c, img, rect.x as int, rect.y as int) && c.width
        == rect.width && c.height == rect.height && c.pixels.len() == rgba_len(c.width as int, c.height as int)
        && r.pixels == resampled(c.pixels, c.width, c.height, width, height, ResizeFilter::Lanczos3)
}

/// An image has one cover of each size.
pub proof fn lemma_cover_unique(r1: RasterView, r2: RasterView, img: RasterView, width: u32, height: u32)
    requires
        is_cover_of(r1, img, width, height),
        is_cover_of(r2, img, width, height),
    ensures
        r1 == r2,
{
    let rect = cover_rect(img.width as nat, img.height as nat, width as nat, height as nat);
    let c1 = choose|c: RasterView| #[trigger] is_region_of(c, img, rect.x as int, rect.y as int) && c.width
        == rect.width && c.height == rect.height && c.pixels.len() == rgba_len(c.width as int, c.height as int)
        && r1.pixels == resampled(c.pixels, c.width, c.height, width, height, ResizeFilter::Lanczos3);
    let c2 = choose|c: RasterView| #[trigger] is_region_of(c, img, rect.x as int, rect.y as int) && c.width
        == rect.width && c.height == rect.height && c.pixels.len() == rgba_len(c.width as int, c.height as int)
        && r2.pixels == resampled(c.pixels, c.width, c.height, width, height, ResizeFilter::Lanczos3);
    assert forall|x: int, y: int, k: int|
        0 <= x < c1.width && 0 <= y < c1.height && 0 <= k < 4 implies #[trigger] c1.at(x, y, k) == c2.at(x, y, k) by {
        assert(c1.at(x, y, k) == img.at(rect.x + x, rect.y + y, k));
        assert(c2.at(x, y, k) == img.at(rect.x + x, rect.y + y, k));
    }
    lemma_view_ext(c1, c2);
    assert(r1.pixels =~= r2.pixels);
}

/// A resample of the centred region of `img` is a cover of it.
proof fn lemma_cover_witness(r: RasterView, img: RasterView, c: RasterView, width: u32, height: u32)
    requires
        is_region_of(
            c,
            img,
            cover_rect(img.width as nat, img.height as nat, width as nat, height as nat).x as int,
            cover_rect(img.width as nat, img.height as nat, width as nat, height as nat).y as int,
        ),
        c.width == cover_rect(img.width as nat, img.height as nat, width as nat, height as nat).width,
        c.height == cover_rect(img.width as nat, img.height as nat, width as nat, height as nat).height,
        c.pixels.len() == rgba_len(c.width as int, c.height as int),
        r.width == width,
        r.height == height,
        r.pixels == resampled(c.pixels, c.width, c.height, width, height, ResizeFilter::Lanczos3),
    ensures
        is_cover_of(r, img, width, height),
{
}

/// `img` cut to the centred region with the proportions of `width` × `height` and
/// resampled (Lanczos3) to exactly that size. Refused when the image or the target has a
/// zero side, or when the region rounds to nothing.
pub fn exact_cover(img: &Raster, width: u32, height: u32) -> (out: Result<Raster, CoreError>)
    requires
        img.wf(),
        rgba_len(width as int, height as int) <= usize::MAX,
    ensures
        out is Ok <==> (img.width > 0 && img.height > 0 && width > 0 && height > 0 && cover_rect(
            img.width as nat,
            img.height as nat,
            width as nat,
            height as nat,
        ).width > 0 && cover_rect(img.width as nat, img.height as nat, width as nat, height as nat).height > 0),
        out is Ok <==> cover_possible(img.width as nat, img.height as nat, width as nat, height as nat),
        out matches Ok(r) ==> r.wf() && r.width == width && r.height == height && is_cover_of(r@, img@, width, height),
        out matches Err(e) ==> e is InvalidArgument,
{
    if img.width == 0 || img.height == 0 || width == 0 || height == 0 {
        return Err(CoreError::InvalidArgument(String::from_str("cover dimensions must be positive")));
    }
    let sw = img.width as u128;
    let sh = img.height as u128;
    let w = width as u128;
    let h = height as u128;
    proof {
        lemma_cover_rect_fits(sw as nat, sh as nat, w as nat, h as nat);
        assert(sw * h <= u32::MAX * u32::MAX) by (nonlinear_arith)
            requires sw <= u32::MAX, h <= u32::MAX;
        assert(w * sh <= u32::MAX * u32::MAX) by (nonlinear_arith)
            requires w <= u32::MAX, sh <= u32::MAX;
    }
    let rect = if sw * h > w * sh {
        assert(2 * (sh * w) + h <= 2 * (u32::MAX as int) * (u32::MAX as int) + (u32::MAX as int)) by (nonlinear_arith)
            requires sh <= u32::MAX, w <= u32::MAX, h <= u32::MAX;
        let cw = (2 * (sh * w) + h) / (2 * h);
        CropRect { x: ((sw - cw) / 2) as u32, y: 0, width: cw as u32, height: img.height }
    } else {
        assert(2 * (sw * h) + w <= 2 * (u32::MAX as int) * (u32::MAX as int) + (u32::MAX as int)) by (nonlinear_arith)
            requires sw <= u32::MAX, h <= u32::MAX, w <= u32::MAX;
        let ch = (2 * (sw * h) + w) / (2 * w);
        CropRect { x: 0, y: ((sh - ch) / 2) as u32, width: img.width, height: ch as u32 }
    };
    assert(rect == cover_rect(sw as nat, sh as nat, w as nat, h as nat));
    let cropped = match crop(img, rect) {
        Ok(cropped) => cropped,
        Err(e) => return Err(e),
    };
    let out = resize(&cropped, width, height, ResizeFilter::Lanczos3);
    proof {
        if out is Ok {
            let r = out->Ok_0;
            let c = cropped@;
            assert(rect == cover_rect(img.width as nat, img.height as nat, width as nat, height as nat));
            assert(is_region_of(c, img@, rect.x as int, rect.y as int));
            assert(c.width == rect.width && c.height == rect.height);
            assert(c.pixels.len() == rgba_len(c.width as int, c.height as int));
            assert(r.pixels@ == resampled(c.pixels, c.width, c.height, width, height, ResizeFilter::Lanczos3));
            lemma_cover_witness(r@, img@, c, width, height);
        }
    }
    out
}

/// Whether `w` × `h` has nearly the proportions of `sw` × `sh`: the ratios differ by at
/// most 8% of the target ratio (zero heights count as one).
pub open spec fn spec_ratio_is_close(sw: nat, sh: nat, w: nat, h: nat) -> bool {
    let shh = if sh == 0 { 1nat } else { sh };
    let hh = if h == 0 { 1nat } else { h };
    let a = sw * hh;
    let b = w * shh;
    let diff = if a >= b { a - b } else { b - a };
    w > 0 && 25 * diff <= 2 * b
}

/// Whether an output of `width` × `height` keeps the proportions of a `source_width` ×
/// `source_height` image closely enough to be made by cropping alone (within 8%).
pub fn aspect_ratio_is_close(source_width: u32, source_height: u32, width: u32, height: u32) -> (close: bool)
    ensures
        close == spec_ratio_is_close(source_width as nat, source_height as nat, width as nat, height as nat),
{
    let sh: u128 = if source_height == 0 { 1 } else { source_height as u128 };
    let h: u128 = if height == 0 { 1 } else { height as u128 };
    proof {
        assert((source_width as u128) * h <= u32::MAX * u32::MAX) by (nonlinear_arith)
            requires h <= u32::MAX;
        assert((width as u128) * sh <= u32::MAX * u32::MAX) by (nonlinear_arith)
            requires sh <= u32::MAX;
    }
    let a = (source_width as u128) * h;
    let b = (width as u128) * sh;
    let diff = if a >= b { a - b } else { b - a };
    width > 0 && 25 * diff <= 2 * b
}

} // verus!
