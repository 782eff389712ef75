//! Geometric edits: aspect-ratio crops, quarter-turn rotations and resampling.

use vstd::prelude::*;

use vstd::arithmetic::div_mod::lemma_fundamental_div_mod_converse;

use crate::error::CoreError;
use crate::raster::{is_region_of, pixel_offset, rgba_len, Raster, RasterView};
use crate::text::{push_decimal, push_str};
use crate::text::decimal;

verus! {

/// A width:height ratio with positive terms.
#[derive(Debug, Clone, Copy, PartialEq, Eq, Structural)]
pub struct AspectRatio {
    /// Horizontal term.
    pub width: u32,
    /// Vertical term.
    pub height: u32,
}

/// The five crop presets, in the order they are offered.
pub open spec fn spec_preset(index: int) -> Option<AspectRatio> {
    if index == 0 {
        Some(AspectRatio { width: 1, height: 1 })
    } else if index == 1 {
        Some(AspectRatio { width: 4, height: 5 })
    } else if index == 2 {
        Some(AspectRatio { width: 4, height: 3 })
    } else if index == 3 {
        Some(AspectRatio { width: 16, height: 9 })
    } else if index == 4 {
        Some(AspectRatio { width: 9, height: 16 })
    } else {
        None
    }
}

/// Number of crop presets.
pub const PRESET_COUNT: usize = 5;

impl AspectRatio {
    /// Both terms are positive.
    pub open spec fn wf(self) -> bool {
        self.width > 0 && self.height > 0
    }

    /// 1:1.
    pub fn square() -> (r: AspectRatio)
        ensures
            r == (AspectRatio { width: 1, height: 1 }),
    {
        AspectRatio { width: 1, height: 1 }
    }

    /// 4:5.
    pub fn portrait_4_5() -> (r: AspectRatio)
        ensures
            r == (AspectRatio { width: 4, height: 5 }),
    {
        AspectRatio { width: 4, height: 5 }
    }

    /// 16:9.
    pub fn widescreen_16_9() -> (r: AspectRatio)
        ensures
            r == (AspectRatio { width: 16, height: 9 }),
    {
        AspectRatio { width: 16, height: 9 }
    }

    /// The preset at `index` of the offered list, or `None` past its end.
    pub fn preset(index: usize) -> (r: Option<AspectRatio>)
        ensures
            r == spec_preset(index as int),
            r matches Some(ratio) ==> ratio.wf(),
    {
        if index == 0 {
            Some(AspectRatio { width: 1, height: 1 })
        } else if index == 1 {
            Some(AspectRatio { width: 4, height: 5 })
        } else if index == 2 {
            Some(AspectRatio { width: 4, height: 3 })
        } else if index == 3 {
            Some(AspectRatio { width: 16, height: 9 })
        } else if index == 4 {
            Some(AspectRatio { width: 9, height: 16 })
        } else {
            None
        }
    }

    /// The `width:height` label, such as `16:9`.
    pub fn label(self) -> (text: String)
        ensures
            text@ == decimal(self.width as nat) + seq![':'] + decimal(self.height as nat),
    {
        let mut text = String::new();
        push_decimal(&mut text, self.width as u64);
        proof {
            reveal_strlit(":");
        }
        push_str(&mut text, ":");
        push_decimal(&mut text, self.height as u64);
        assert(text@ =~= decimal(self.width as nat) + seq![':'] + decimal(self.height as nat));
        text
    }
}

/// A pixel rectangle inside an image.
#[derive(Debug, Clone, Copy, PartialEq, Eq, Structural)]
pub struct CropRect {
    /// Left edge.
    pub x: u32,
    /// Top edge.
    pub y: u32,
    /// Width in pixels.
    pub width: u32,
    /// Height in pixels.
    pub height: u32,
}

/// The largest rectangle of ratio `ratio` that fits a `w` × `h` image, centred.
pub open spec fn spec_largest_centered(w: nat, h: nat, ratio: AspectRatio) -> CropRect {
    let k = if w / (ratio.width as nat) <= h / (ratio.height as nat) {
        w / (ratio.width as nat)
    } else {
        h / (ratio.height as nat)
    };
    let cw = k * ratio.width;
    let ch = k * ratio.height;
    CropRect {
        x: ((w - cw) / 2) as u32,
        y: ((h - ch) / 2) as u32,
        width: cw as u32,
        height: ch as u32,
    }
}

/// The rectangle lies inside a `w` × `h` image and is not empty.
pub open spec fn fits_inside(rect: CropRect, w: nat, h: nat) -> bool {
    rect.width > 0 && rect.height > 0 && rect.x + rect.width <= w && rect.y + rect.height <= h
}

impl CropRect {
    /// A rectangle with a non-empty area.
    pub fn new(x: u32, y: u32, width: u32, height: u32) -> (rect: Result<CropRect, CoreError>)
        ensures
            rect is Ok <==> width > 0 && height > 0,
            rect matches Ok(r) ==> r == (CropRect { x, y, width, height }),
            rect matches Err(e) ==> e is InvalidArgument,
    {
        if width == 0 || height == 0 {
            return Err(CoreError::InvalidArgument(String::from_str("crop size must be positive")));
        }
        Ok(CropRect { x, y, width, height })
    }

    /// The largest centred rectangle of exactly `ratio` inside a `w` × `h` image; its sides
    /// are whole multiples of the ratio's terms. Refused when not even one multiple fits.
    pub fn largest_centered(w: u32, h: u32, ratio: AspectRatio) -> (rect: Result<CropRect, CoreError>)
        requires
            ratio.wf(),
        ensures
            rect is Ok <==> w >= ratio.width && h >= ratio.height,
            rect matches Ok(r) ==> r == spec_largest_centered(w as nat, h as nat, ratio),
            rect matches Err(e) ==> e is InvalidArgument,
    {
        let kw = w / ratio.width;
        let kh = h / ratio.height;
        let k = if kw <= kh {
            kw
        } else {
            kh
        };
        if k == 0 {
            proof {
                if w >= ratio.width {
                    vstd::arithmetic::div_mod::lemma_div_is_ordered(
                        ratio.width as int,
                        w as int,
                        ratio.width as int,
                    );
                    vstd::arithmetic::div_mod::lemma_div_by_self(ratio.width as int);
                }
                if h >= ratio.height {
                    vstd::arithmetic::div_mod::lemma_div_is_ordered(
                        ratio.height as int,
                        h as int,
                        ratio.height as int,
                    );
                    vstd::arithmetic::div_mod::lemma_div_by_self(ratio.height as int);
                }
            }
            return Err(
                CoreError::InvalidArgument(String::from_str("the image is smaller than the ratio")),
            );
        }
        proof {
            lemma_multiple_fits(w as int, ratio.width as int, k as int);
            lemma_multiple_fits(h as int, ratio.height as int, k as int);
            if w < ratio.width {
                vstd::arithmetic::div_mod::lemma_basic_div(w as int, ratio.width as int);
            }
            if h < ratio.height {
                vstd::arithmetic::div_mod::lemma_basic_div(h as int, ratio.height as int);
            }
        }
        let cw = k * ratio.width;
        let ch = k * ratio.height;
        Ok(CropRect { x: (w - cw) / 2, y: (h - ch) / 2, width: cw, height: ch })
    }
}

proof fn lemma_multiple_fits(total: int, term: int, k: int)
    requires
        term > 0,
        total >= 0,
        0 <= k <= total / term,
    ensures
        k * term <= total,
{
    vstd::arithmetic::div_mod::lemma_fundamental_div_mod(total, term);
    assert(k * term <= (total / term) * term) by (nonlinear_arith)
        requires
            k <= total / term,
            term > 0,
    ;
    assert((total / term) * term == term * (total / term)) by (nonlinear_arith);
}

/// Every centred crop has exactly the requested ratio, lies inside the image, and no
/// larger multiple of the ratio would fit.
pub proof fn law_largest_centered_is_exact(w: nat, h: nat, ratio: AspectRatio)
    requires
        ratio.wf(),
        w >= ratio.width,
        h >= ratio.height,
        w <= u32::MAX,
        h <= u32::MAX,
    ensures
        spec_largest_centered(w, h, ratio).width * ratio.height == spec_largest_centered(
            w,
            h,
            ratio,
        ).height * ratio.width,
        fits_inside(spec_largest_centered(w, h, ratio), w, h),
        (spec_largest_centered(w, h, ratio).width + ratio.width > w
            || spec_largest_centered(w, h, ratio).height + ratio.height > h),
{
    let kw = w / (ratio.width as nat);
    let kh = h / (ratio.height as nat);
    let k = if kw <= kh {
        kw
    } else {
        kh
    };
    vstd::arithmetic::div_mod::lemma_div_is_ordered(ratio.width as int, w as int, ratio.width as int);
    vstd::arithmetic::div_mod::lemma_div_by_self(ratio.width as int);
    vstd::arithmetic::div_mod::lemma_div_is_ordered(ratio.height as int, h as int, ratio.height as int);
    vstd::arithmetic::div_mod::lemma_div_by_self(ratio.height as int);
    lemma_multiple_fits(w as int, ratio.width as int, k as int);
    lemma_multiple_fits(h as int, ratio.height as int, k as int);
    assert((k * ratio.width) * ratio.height == (k * ratio.height) * ratio.width) by (nonlinear_arith);
    assert(k * ratio.width > 0 && k * ratio.height > 0) by (nonlinear_arith)
        requires
            k >= 1,
            ratio.width > 0,
            ratio.height > 0,
    ;
    vstd::arithmetic::div_mod::lemma_fundamental_div_mod(w as int, ratio.width as int);
    vstd::arithmetic::div_mod::lemma_fundamental_div_mod(h as int, ratio.height as int);
    if kw <= kh {
        assert(k * ratio.width + ratio.width == (kw + 1) * ratio.width) by (nonlinear_arith)
            requires
                k == kw,
        ;
        assert((kw + 1) * ratio.width > w) by (nonlinear_arith)
            requires
                w as int == ratio.width * kw + (w as int) % (ratio.width as int),
                (w as int) % (ratio.width as int) < ratio.width,
        ;
    } else {
        assert(k * ratio.height + ratio.height == (kh + 1) * ratio.height) by (nonlinear_arith)
            requires
                k == kh,
        ;
        assert((kh + 1) * ratio.height > h) by (nonlinear_arith)
            requires
                h as int == ratio.height * kh + (h as int) % (ratio.height as int),
                (h as int) % (ratio.height as int) < ratio.height,
        ;
    }
}

/// The pixels of `img` inside `rect`. A rectangle that is empty or reaches past the image
/// is refused.
pub fn crop(img: &Raster, rect: CropRect) -> (cropped: Result<Raster, CoreError>)
    requires
        img.wf(),
    ensures
        cropped is Ok <==> fits_inside(rect, img.width as nat, img.height as nat),
        cropped matches Ok(out) ==> out.wf() && out.width == rect.width && out.height
            == rect.height && is_region_of(out@, img@, rect.x as int, rect.y as int),
        cropped matches Err(e) ==> e is InvalidArgument,
{
    if rect.width == 0 || rect.height == 0 || (rect.x as u64) + (rect.width as u64)
        > (img.width as u64) || (rect.y as u64) + (rect.height as u64) > (img.height as u64) {
        return Err(
            CoreError::InvalidArgument(String::from_str("the crop rectangle leaves the image")),
        );
    }
    Ok(img.region(rect.x, rect.y, rect.width, rect.height))
}

/// A clockwise quarter-turn rotation.
#[derive(Debug, Clone, Copy, PartialEq, Eq, Structural)]
pub enum Rotation {
    /// 90° clockwise.
    Cw90,
    /// 180°.
    Cw180,
    /// 270° clockwise (90° counter-clockwise).
    Cw270,
}

/// Width and height of a `w` × `h` image after `rotation`.
pub open spec fn rotated_size(rotation: Rotation, w: int, h: int) -> (int, int) {
    match rotation {
        Rotation::Cw180 => (w, h),
        _ => (h, w),
    }
}

/// The source pixel of output pixel (`x`, `y`) when a `w` × `h` image is rotated.
pub open spec fn rotation_source(rotation: Rotation, w: int, h: int, x: int, y: int) -> (int, int) {
    match rotation {
        Rotation::Cw90 => (y, h - 1 - x),
        Rotation::Cw180 => (w - 1 - x, h - 1 - y),
        Rotation::Cw270 => (w - 1 - y, x),
    }
}

/// `out` is `img` rotated by `rotation`, pixel for pixel.
pub open spec fn is_rotation_of(out: RasterView, img: RasterView, rotation: Rotation) -> bool {
    &&& out.pixels.len() == rgba_len(out.width as int, out.height as int)
    &&& (out.width as int, out.height as int) == rotated_size(
        rotation,
        img.width as int,
        img.height as int,
    )
    &&& forall|x: int, y: int, k: int|
        0 <= x < out.width && 0 <= y < out.height && 0 <= k < 4 ==> #[trigger] out.at(x, y, k)
            == img.at(
            rotation_source(rotation, img.width as int, img.height as int, x, y).0,
            rotation_source(rotation, img.width as int, img.height as int, x, y).1,
            k,
        )
}

proof fn lemma_pixel_decompose(w: int, h: int, i: int) -> (xyk: (int, int, int))
    requires
        w > 0,
        h >= 0,
        0 <= i < 4 * (w * h),
    ensures
        0 <= xyk.0 < w,
        0 <= xyk.1 < h,
        0 <= xyk.2 < 4,
        i == pixel_offset(w, xyk.0, xyk.1) + xyk.2,
{
    let p = i / 4;
    let k = i % 4;
    vstd::arithmetic::div_mod::lemma_fundamental_div_mod(i, 4);
    let y = p / w;
    let x = p % w;
    vstd::arithmetic::div_mod::lemma_fundamental_div_mod(p, w);
    assert(p < w * h);
    assert(y < h) by (nonlinear_arith)
        requires
            p == w * y + x,
            0 <= x,
            p < w * h,
            w > 0,
    ;
    assert(i == 4 * (y * w + x) + k) by (nonlinear_arith)
        requires
            i == 4 * p + k,
            p == w * y + x,
    ;
    (x, y, k)
}

proof fn lemma_views_equal(a: RasterView, b: RasterView)
    requires
        a.width == b.width,
        a.height == b.height,
        a.pixels.len() == rgba_len(a.width as int, a.height as int),
        b.pixels.len() == rgba_len(b.width as int, b.height as int),
        forall|x: int, y: int, k: int|
            0 <= x < a.width && 0 <= y < a.height && 0 <= k < 4 ==> #[trigger] a.at(x, y, k)
                == b.at(x, y, k),
    ensures
        a == b,
{
    assert forall|i: int| 0 <= i < a.pixels.len() implies a.pixels[i] == b.pixels[i] by {
        let (x, y, k) = lemma_pixel_decompose(a.width as int, a.height as int, i);
        assert(a.at(x, y, k) == b.at(x, y, k));
    }
    assert(a.pixels =~= b.pixels);
}

proof fn lemma_rotation_index(ow: int, oh: int, w: int, h: int, rotation: Rotation, x: int, y: int, k: int)
    requires
        (ow, oh) == rotated_size(rotation, w, h),
        0 <= x < ow,
        0 <= y < oh,
        0 <= k < 4,
    ensures
        0 <= pixel_offset(w, rotation_source(rotation, w, h, x, y).0, rotation_source(rotation, w, h, x, y).1) + k,
        pixel_offset(w, rotation_source(rotation, w, h, x, y).0, rotation_source(rotation, w, h, x, y).1) + k < 4 * (w * h),
        0 <= rotation_source(rotation, w, h, x, y).0 < w,
        0 <= rotation_source(rotation, w, h, x, y).1 < h,
{
    let (sx, sy) = rotation_source(rotation, w, h, x, y);
    assert(0 <= sx < w && 0 <= sy < h);
    assert(0 <= 4 * (sy * w + sx) + k < 4 * (w * h)) by (nonlinear_arith)
        requires
            0 <= sx < w,
            0 <= sy < h,
            0 <= k < 4,
    ;
}

/// Rotates `img` clockwise by a quarter-turn multiple; no pixel is resampled.
pub fn rotate(img: &Raster, rotation: Rotation) -> (out: Raster)
    requires
        img.wf(),
    ensures
        out.wf(),
        is_rotation_of(out@, img@, rotation),
{
    let w = img.width;
    let h = img.height;
    let (ow, oh) = match rotation {
        Rotation::Cw180 => (w, h),
        _ => (h, w),
    };
    let mut pixels: Vec<u8> = Vec::new();
    let mut y: u32 = 0;
    proof {
        assert(ow * oh == w * h) by (nonlinear_arith)
            requires
                (ow == w && oh == h) || (ow == h && oh == w),
        ;
    }
    while y < oh
        invariant
            img.wf(),
            w == img.width,
            h == img.height,
            (ow as int, oh as int) == rotated_size(rotation, w as int, h as int),
            ow * oh == w * h,
            y <= oh,
            pixels.len() == 4 * (y * ow),
            forall|xx: int, yy: int, k: int|
                0 <= xx < ow && 0 <= yy < y && 0 <= k < 4 ==> #[trigger] pixels@[pixel_offset(
                    ow as int,
                    xx,
                    yy,
                ) + k] == img@.at(
                    rotation_source(rotation, w as int, h as int, xx, yy).0,
                    rotation_source(rotation, w as int, h as int, xx, yy).1,
                    k,
                ),
        decreases oh - y,
    {
        let mut x: u32 = 0;
        while x < ow
            invariant
                img.wf(),
                w == img.width,
                h == img.height,
                (ow as int, oh as int) == rotated_size(rotation, w as int, h as int),
                ow * oh == w * h,
                y < oh,
                x <= ow,
                pixels.len() == 4 * (y * ow + x),
                forall|xx: int, yy: int, k: int|
                    0 <= xx < ow && 0 <= yy < oh && 0 <= k < 4 && (yy < y || (yy == y && xx < x))
                        ==> #[trigger] pixels@[pixel_offset(ow as int, xx, yy) + k] == img@.at(
                        rotation_source(rotation, w as int, h as int, xx, yy).0,
                        rotation_source(rotation, w as int, h as int, xx, yy).1,
                        k,
                    ),
            decreases ow - x,
        {
            let (sx, sy) = match rotation {
                Rotation::Cw90 => (y, h - 1 - x),
                Rotation::Cw180 => (w - 1 - x, h - 1 - y),
                Rotation::Cw270 => (w - 1 - y, x),
            };
            proof {
                lemma_rotation_index(ow as int, oh as int, w as int, h as int, rotation, x as int, y as int, 3);
                assert(4 * (w * h) == img.pixels.len());
                assert(4 * (sy * w + sx) + 3 < 4 * (w * h));
            }
            let base: usize = 4 * ((sy as usize) * (w as usize) + (sx as usize));
            let ghost start = pixels.len() as int;
            pixels.push(img.pixels[base]);
            pixels.push(img.pixels[base + 1]);
            pixels.push(img.pixels[base + 2]);
            pixels.push(img.pixels[base + 3]);
            proof {
                assert(start == pixel_offset(ow as int, x as int, y as int));
                assert forall|xx: int, yy: int, k: int|
                    0 <= xx < ow && 0 <= yy < oh && 0 <= k < 4 && (yy < y || (yy == y && xx < x + 1))
                        implies #[trigger] pixels@[pixel_offset(ow as int, xx, yy) + k] == img@.at(
                        rotation_source(rotation, w as int, h as int, xx, yy).0,
                        rotation_source(rotation, w as int, h as int, xx, yy).1,
                        k,
                    ) by {
                    if yy == y && xx == x {
                        assert(pixel_offset(ow as int, xx, yy) + k == start + k);
                    } else {
                        assert(pixel_offset(ow as int, xx, yy) + k < start) by (nonlinear_arith)
                            requires
                                0 <= xx < ow,
                                0 <= yy,
                                0 <= k < 4,
                                yy < y || (yy == y && xx < x),
                                start == 4 * (y * ow + x),
                        ;
                    }
                }
                assert(pixels.len() == 4 * (y * ow + (x + 1)));
            }
            x = x + 1;
        }
        proof {
            assert(4 * (y * ow + ow) == 4 * ((y + 1) * ow)) by (nonlinear_arith);
        }
        y = y + 1;
    }
    let out = Raster { width: ow, height: oh, pixels };
    proof {
        assert(4 * (oh * ow) == rgba_len(ow as int, oh as int)) by (nonlinear_arith);
    }
    out
}

/// Four clockwise quarter-turns give back the original image exactly.
pub proof fn law_four_quarter_turns_restore(
    img0: RasterView,
    img1: RasterView,
    img2: RasterView,
    img3: RasterView,
    img4: RasterView,
)
    requires
        img0.pixels.len() == rgba_len(img0.width as int, img0.height as int),
        is_rotation_of(img1, img0, Rotation::Cw90),
        is_rotation_of(img2, img1, Rotation::Cw90),
        is_rotation_of(img3, img2, Rotation::Cw90),
        is_rotation_of(img4, img3, Rotation::Cw90),
    ensures
        img4 == img0,
{
    assert forall|x: int, y: int, k: int|
        0 <= x < img4.width && 0 <= y < img4.height && 0 <= k < 4 implies #[trigger] img4.at(x, y, k)
            == img0.at(x, y, k) by {
        assert(img4.at(x, y, k) == img3.at(y, img3.height - 1 - x, k));
        assert(img3.at(y, img3.height - 1 - x, k) == img2.at(img3.height - 1 - x, img2.height - 1 - y, k));
        assert(img2.at(img3.height - 1 - x, img2.height - 1 - y, k) == img1.at(img2.height - 1 - y, img1.height - 1 - (img3.height - 1 - x), k));
        assert(img1.at(img2.height - 1 - y, img1.height - 1 - (img3.height - 1 - x), k) == img0.at(img1.height - 1 - (img3.height - 1 - x), img0.height - 1 - (img2.height - 1 - y), k));
    }
    lemma_views_equal(img4, img0);
}

/// A resampling filter.
#[derive(Debug, Clone, Copy, PartialEq, Eq, Structural)]
pub enum ResizeFilter {
    /// Nearest neighbour.
    Nearest,
    /// Linear interpolation.
    Bilinear,
    /// Cubic (Catmull-Rom).
    CatmullRom,
    /// Gaussian.
    Gaussian,
    /// Lanczos with window 3, the sharpest.
    Lanczos3,
}

impl Default for ResizeFilter {
    fn default() -> (filter: Self)
        ensures
            filter == ResizeFilter::Lanczos3,
    {
        ResizeFilter::Lanczos3
    }
}

/// The RGBA pixels that `image::imageops::resize` computes when resampling a
/// `width` × `height` image to `new_width` × `new_height` with `filter`.
pub uninterp spec fn resampled(
    pixels: Seq<u8>,
    width: u32,
    height: u32,
    new_width: u32,
    new_height: u32,
    filter: ResizeFilter,
) -> Seq<u8>;

/// `image::imageops::resize`: the result always has the requested dimensions and four bytes
/// per pixel.
#[verifier::external_body]
fn resample(img: &Raster, new_width: u32, new_height: u32, filter: ResizeFilter) -> (out: Raster)
    requires
        img.wf(),
        rgba_len(new_width as int, new_height as int) <= usize::MAX,
    ensures
        out.wf(),
        out.width == new_width,
        out.height == new_height,
        out.pixels@ == resampled(img.pixels@, img.width, img.height, new_width, new_height, filter),
{
    let kind = match filter {
        ResizeFilter::Nearest => image::imageops::FilterType::Nearest,
        ResizeFilter::Bilinear => image::imageops::FilterType::Triangle,
        ResizeFilter::CatmullRom => image::imageops::FilterType::CatmullRom,
        ResizeFilter::Gaussian => image::imageops::FilterType::Gaussian,
        ResizeFilter::Lanczos3 => image::imageops::FilterType::Lanczos3,
    };
    let source = image::RgbaImage::from_raw(img.width, img.height, img.pixels.clone()).expect("an RGBA buffer of four bytes per pixel");
    let resized = image::imageops::resize(&source, new_width, new_height, kind);
    Raster { width: new_width, height: new_height, pixels: resized.into_raw() }
}

/// Resamples `img` to `width` × `height`; a zero dimension is refused.
pub fn resize(img: &Raster, width: u32, height: u32, filter: ResizeFilter) -> (out: Result<Raster, CoreError>)
    requires
        img.wf(),
        rgba_len(width as int, height as int) <= usize::MAX,
    ensures
        out is Ok <==> width > 0 && height > 0,
        out matches Ok(r) ==> r.wf() && r.width == width && r.height == height && r.pixels@
            == resampled(img.pixels@, img.width, img.height, width, height, filter),
        out matches Err(e) ==> e is InvalidArgument,
{
    if width == 0 || height == 0 {
        return Err(CoreError::InvalidArgument(String::from_str("resize dimensions must be positive")));
    }
    Ok(resample(img, width, height, filter))
}

} // verus!
