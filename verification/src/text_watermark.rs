//! The text of a text watermark: what may be rendered, before any font is loaded.

use vstd::prelude::*;

use crate::presets::{trim, trim_ws};
use crate::raster::{is_region_of, rgba_len, Color, Raster, RasterView};
use crate::text::push_chars;

verus! {

/// The longest watermark text, in characters (after trimming).
pub const MAX_CHARS: usize = 256;

/// Why a watermark text is refused.
#[derive(Debug, Clone, Copy, PartialEq, Eq, Structural)]
pub enum WatermarkTextError {
    /// Nothing is left once white space is trimmed.
    Empty,
    /// More than [`MAX_CHARS`] characters are left.
    TooLong,
}

/// What becomes of a watermark text: the trimmed text, or why it is refused.
pub open spec fn spec_prepare_text(text: Seq<char>) -> Result<Seq<char>, WatermarkTextError> {
    let trimmed = trim_ws(text);
    if trimmed.len() == 0 {
        Err(WatermarkTextError::Empty)
    } else if trimmed.len() > MAX_CHARS {
        Err(WatermarkTextError::TooLong)
    } else {
        Ok(trimmed)
    }
}

/// The text to render for a watermark: `text` with white space trimmed from both ends,
/// refused when nothing or more than [`MAX_CHARS`] characters are left.
pub fn prepare_text(text: &str) -> (prepared: Result<String, WatermarkTextError>)
    ensures
        match (prepared, spec_prepare_text(text@)) {
            (Ok(s), Ok(t)) => s@ == t,
            (Err(e), Err(f)) => e == f,
            _ => false,
        },
{
    let trimmed = trim(text);
    if trimmed.len() == 0 {
        Err(WatermarkTextError::Empty)
    } else if trimmed.len() > MAX_CHARS {
        Err(WatermarkTextError::TooLong)
    } else {
        let mut out = String::new();
        push_chars(&mut out, &trimmed);
        assert(Seq::<char>::empty() + trimmed@ =~= trimmed@);
        Ok(out)
    }
}

impl WatermarkTextError {
    /// The message shown for this refusal.
    pub fn message(self) -> (text: &'static str)
        ensures
            text@ == match self {
                WatermarkTextError::Empty => "text watermark is empty"@,
                WatermarkTextError::TooLong => "text watermark exceeds 256 characters"@,
            },
    {
        match self {
            WatermarkTextError::Empty => {
                proof {
                    reveal_strlit("text watermark is empty");
                }
                "text watermark is empty"
            },
            WatermarkTextError::TooLong => {
                proof {
                    reveal_strlit("text watermark exceeds 256 characters");
                }
                "text watermark exceeds 256 characters"
            },
        }
    }
}

/// A transparent canvas that glyph coverage is painted onto, remembering the smallest
/// rectangle that holds every painted pixel.
pub struct GlyphCanvas {
    canvas: Raster,
    bounds: Option<(u32, u32, u32, u32)>,
}

/// The clipped span `[max(start, 0), min(start + len, limit))` of a glyph row or column.
pub open spec fn clip_span(start: int, len: int, limit: int) -> (int, int) {
    let lo = if start < 0 { 0 } else { start };
    let hi = if start + len > limit { limit } else { start + len };
    (lo, hi)
}

/// Whether canvas pixel (`px`, `py`) is painted by a glyph span of `w` × `h` at (`x`, `y`)
/// in `color` on a `cw` × `ch` canvas: inside both the span and the canvas, and not fully
/// transparent.
pub open spec fn painted_by(px: int, py: int, x: int, y: int, w: int, h: int, color: Color, cw: int, ch: int) -> bool {
    color.a != 0 && x <= px < x + w && y <= py < y + h && 0 <= px < cw && 0 <= py < ch
}

/// The smallest rectangle (inclusive corners) holding `b` and `r`.
pub open spec fn union_bounds(b: Option<(u32, u32, u32, u32)>, r: (u32, u32, u32, u32)) -> (u32, u32, u32, u32) {
    match b {
        None => r,
        Some(o) => (
            if o.0 <= r.0 { o.0 } else { r.0 },
            if o.1 <= r.1 { o.1 } else { r.1 },
            if o.2 >= r.2 { o.2 } else { r.2 },
            if o.3 >= r.3 { o.3 } else { r.3 },
        ),
    }
}

impl GlyphCanvas {
    /// The canvas is well formed and the bounds lie on it.
    pub closed spec fn wf(&self) -> bool {
        &&& self.canvas.wf()
        &&& self.bounds matches Some(b) ==> b.0 <= b.2 < self.canvas.width && b.1 <= b.3 < self.canvas.height
    }

    /// The pixels painted so far.
    pub closed spec fn spec_canvas(&self) -> RasterView {
        self.canvas@
    }

    /// The rectangle holding every painted pixel (inclusive corners).
    pub closed spec fn spec_bounds(&self) -> Option<(u32, u32, u32, u32)> {
        self.bounds
    }

    /// A fully transparent `width` × `height` canvas with nothing painted.
    pub fn new(width: u32, height: u32) -> (canvas: GlyphCanvas)
        requires
            rgba_len(width as int, height as int) <= usize::MAX,
        ensures
            canvas.wf(),
            canvas.spec_canvas().width == width,
            canvas.spec_canvas().height == height,
            forall|i: int| 0 <= i < canvas.spec_canvas().pixels.len() ==> #[trigger] canvas.spec_canvas().pixels[i] == 0,
            canvas.spec_bounds() is None,
    {
        let n: usize = 4 * ((width as usize) * (height as usize));
        let mut pixels: Vec<u8> = Vec::new();
        while pixels.len() < n
            invariant
                pixels.len() <= n,
                forall|i: int| 0 <= i < pixels.len() ==> #[trigger] pixels@[i] == 0,
            decreases n - pixels.len(),
        {
            pixels.push(0);
        }
        GlyphCanvas { canvas: Raster { width, height, pixels }, bounds: None }
    }

    /// Paints a `w` × `h` span of glyph coverage at (`x`, `y`) in `color`: pixels of the span
    /// on the canvas take the colour unless it is fully transparent, and the bounds grow to
    /// hold them; everything else is kept.
    pub fn plot(&mut self, x: i32, y: i32, w: u32, h: u32, color: Color)
        requires
            old(self).wf(),
        ensures
            final(self).wf(),
            final(self).spec_canvas().width == old(self).spec_canvas().width,
            final(self).spec_canvas().height == old(self).spec_canvas().height,
            forall|px: int, py: int, k: int|
                0 <= px < old(self).spec_canvas().width && 0 <= py < old(self).spec_canvas().height && 0 <= k < 4
                    ==> #[trigger] final(self).spec_canvas().at(px, py, k) == if painted_by(
                    px,
                    py,
                    x as int,
                    y as int,
                    w as int,
                    h as int,
                    color,
                    old(self).spec_canvas().width as int,
                    old(self).spec_canvas().height as int,
                ) {
                    if k == 0 { color.r } else if k == 1 { color.g } else if k == 2 { color.b } else { color.a }
                } else {
                    old(self).spec_canvas().at(px, py, k)
                },
            ({
                let (lx, hx) = clip_span(x as int, w as int, old(self).spec_canvas().width as int);
                let (ly, hy) = clip_span(y as int, h as int, old(self).spec_canvas().height as int);
                if color.a != 0 && lx < hx && ly < hy {
                    final(self).spec_bounds() == Some(union_bounds(
                        old(self).spec_bounds(),
                        (lx as u32, ly as u32, (hx - 1) as u32, (hy - 1) as u32),
                    ))
                } else {
                    final(self).spec_bounds() == old(self).spec_bounds()
                }
            }),
    {
        let cw = self.canvas.width as i64;
        let ch = self.canvas.height as i64;
        let lx: i64 = if (x as i64) < 0 { 0 } else { x as i64 };
        let hx: i64 = if (x as i64) + (w as i64) > cw { cw } else { (x as i64) + (w as i64) };
        let ly: i64 = if (y as i64) < 0 { 0 } else { y as i64 };
        let hy: i64 = if (y as i64) + (h as i64) > ch { ch } else { (y as i64) + (h as i64) };
        if color.a == 0 || lx >= hx || ly >= hy {
            return;
        }
        let ghost before = self.canvas@;
        assert(before == old(self).canvas@);
        let mut py: i64 = ly;
        while py < hy
            invariant
                self.bounds == old(self).bounds,
                self.canvas.wf(),
                self.canvas.width == before.width && self.canvas.height == before.height,
                cw == before.width && ch == before.height,
                0 <= lx < hx <= cw,
                0 <= ly < hy <= ch,
                ly <= py <= hy,
                color.a != 0,
                forall|px: int, qy: int, k: int|
                    0 <= px < cw && 0 <= qy < ch && 0 <= k < 4 ==> #[trigger] self.canvas@.at(px, qy, k) == if lx <= px < hx
                        && ly <= qy < py {
                        if k == 0 { color.r } else if k == 1 { color.g } else if k == 2 { color.b } else { color.a }
                    } else {
                        before.at(px, qy, k)
                    },
            decreases hy - py,
        {
            let mut px: i64 = lx;
            while px < hx
                invariant
                    self.bounds == old(self).bounds,
                    self.canvas.wf(),
                    self.canvas.width == before.width && self.canvas.height == before.height,
                    cw == before.width && ch == before.height,
                    0 <= lx < hx <= cw,
                    0 <= ly <= py < hy <= ch,
                    lx <= px <= hx,
                    color.a != 0,
                    forall|qx: int, qy: int, k: int|
                        0 <= qx < cw && 0 <= qy < ch && 0 <= k < 4 ==> #[trigger] self.canvas@.at(qx, qy, k) == if lx <= qx < hx
                            && (ly <= qy < py || (qy == py && qx < px)) {
                            if k == 0 { color.r } else if k == 1 { color.g } else if k == 2 { color.b } else { color.a }
                        } else {
                            before.at(qx, qy, k)
                        },
                decreases hx - px,
            {
                self.canvas.set_pixel(px as u32, py as u32, color);
                px = px + 1;
            }
            py = py + 1;
        }
        let r = (lx as u32, ly as u32, (hx - 1) as u32, (hy - 1) as u32);
        self.bounds = match self.bounds {
            None => Some(r),
            Some(o) => Some(
                (
                    if o.0 <= r.0 { o.0 } else { r.0 },
                    if o.1 <= r.1 { o.1 } else { r.1 },
                    if o.2 >= r.2 { o.2 } else { r.2 },
                    if o.3 >= r.3 { o.3 } else { r.3 },
                ),
            ),
        };
    }

    /// The painted part of the canvas: the bounding rectangle of every painted pixel, or
    /// `None` when nothing was painted (no font could render the text).
    pub fn finish(&self) -> (image: Option<Raster>)
        requires
            self.wf(),
        ensures
            match self.spec_bounds() {
                None => image is None,
                Some(b) => image matches Some(r) && r.wf() && r.width == b.2 - b.0 + 1 && r.height == b.3 - b.1 + 1
                    && is_region_of(r@, self.spec_canvas(), b.0 as int, b.1 as int),
            },
    {
        match self.bounds {
            None => None,
            Some(b) => Some(self.canvas.region(b.0, b.1, b.2 - b.0 + 1, b.3 - b.1 + 1)),
        }
    }
}

} // verus!
