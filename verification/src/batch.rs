//! Applying the same processing to a batch of images.
//!
//! Every input is processed on its own: a failing item is recorded with its reason and the
//! others go on. Inputs are decoded images; outputs are encoded bytes.

use vstd::prelude::*;

use crate::error::CoreError;
use crate::format::{encodable, encode, spec_encode, spec_settings_format, EncodeSettings, OutputFormat, PngCompression, WEBP_MAX_DIMENSION};
use crate::raster::{rgba_len, Raster, RasterView};
use crate::transform::{resampled, resize, ResizeFilter};

verus! {

/// How the target size of a resize step is found for each input.
#[derive(Debug, Clone, Copy, PartialEq, Eq, Structural)]
pub enum BatchResizeMode {
    /// Exact dimensions, or the largest size inside the box that keeps the input's ratio.
    Pixels {
        /// Box or exact width.
        width: u32,
        /// Box or exact height.
        height: u32,
        /// Fit inside the box without distortion.
        preserve_aspect: bool,
    },
    /// Both sides scaled by a whole percentage.
    Percentage(u32),
    /// Scaled so the longest side has this many pixels.
    LongestSide(u32),
}

/// `value × numerator / denominator`, rounded half up, at least 1 and at most `u32::MAX`
/// (a zero denominator counts as 1).
pub open spec fn scaled(value: nat, numerator: nat, denominator: nat) -> nat {
    let d: nat = if denominator == 0 {
        1
    } else {
        denominator
    };
    let q = (value * numerator + denominator / 2) / d;
    if q < 1 {
        1
    } else if q > u32::MAX {
        u32::MAX as nat
    } else {
        q
    }
}

/// The size a resize step gives a `source_width` × `source_height` input.
pub open spec fn spec_resize_dimensions(source_width: nat, source_height: nat, mode: BatchResizeMode) -> (
    nat,
    nat,
) {
    match mode {
        BatchResizeMode::Pixels { width, height, preserve_aspect } => if !preserve_aspect || width
            == 0 || height == 0 {
            (width as nat, height as nat)
        } else if width * source_height <= height * source_width {
            (width as nat, scaled(width as nat, source_height, source_width))
        } else {
            (scaled(height as nat, source_width, source_height), height as nat)
        },
        BatchResizeMode::Percentage(percent) => (
            scaled(source_width, percent as nat, 100),
            scaled(source_height, percent as nat, 100),
        ),
        BatchResizeMode::LongestSide(longest) => if source_width >= source_height {
            (longest as nat, scaled(longest as nat, source_height, source_width))
        } else {
            (scaled(longest as nat, source_width, source_height), longest as nat)
        },
    }
}

/// A half-up rounded quotient `(a + d/2) / d` does not exceed `b` when `a <= b·d`.
proof fn lemma_rounded_quotient_at_most(a: nat, b: nat, d: nat)
    requires
        d > 0,
        a <= b * d,
    ensures
        (a + d / 2) / d <= b,
{
    vstd::arithmetic::div_mod::lemma_div_is_ordered((a + d / 2) as int, (b * d + d / 2) as int, d as int);
    vstd::arithmetic::div_mod::lemma_fundamental_div_mod_converse(
        (b * d + d / 2) as int,
        d as int,
        b as int,
        (d / 2) as int,
    );
}

/// A half-up rounded quotient `q = (a + d/2) / d` is within half of `d` of `a` once
/// multiplied back, and is zero only when `2a < d`.
proof fn lemma_rounded_quotient_close(a: nat, d: nat)
    requires
        d > 0,
    ensures
        2 * (((a + d / 2) / d) * d - a) <= d,
        2 * (a - ((a + d / 2) / d) * d) <= d,
        (a + d / 2) / d == 0 ==> 2 * a < d,
{
    let x = (a + d / 2) as int;
    let di = d as int;
    vstd::arithmetic::div_mod::lemma_fundamental_div_mod(x, di);
    assert(x == di * (x / di) + x % di);
    assert(0 <= x % di < di);
    assert((x / di) * di == di * (x / di)) by (nonlinear_arith);
    assert(x / di == 0 ==> di * (x / di) == 0) by (nonlinear_arith);
}

/// With the ratio kept, a pixel box with positive sides is fitted, never covered: the
/// resized image lies inside the box and fills it along one side, and the other side is
/// the proportional one rounded to the nearest pixel (at least one pixel).
pub proof fn law_kept_ratio_fits_inside_box(source_width: nat, source_height: nat, width: u32, height: u32)
    requires
        width > 0,
        height > 0,
    ensures
        ({
            let (w, h) = spec_resize_dimensions(
                source_width,
                source_height,
                BatchResizeMode::Pixels { width, height, preserve_aspect: true },
            );
            &&& w <= width
            &&& h <= height
            &&& w == width || h == height
            &&& (w == width && (2 * (h * source_width - width * source_height) <= source_width && 2 * (width
                * source_height - h * source_width) <= source_width || h == 1 && 2 * (width * source_height)
                < source_width)) || (h == height && (2 * (w * source_height - height * source_width)
                <= source_height && 2 * (height * source_width - w * source_height) <= source_height || w == 1
                && 2 * (height * source_width) < source_height))
        }),
{
    let (sw, sh) = (source_width, source_height);
    if width * sh <= height * sw {
        if sw > 0 {
            assert(width * sh <= height * sw);
            lemma_rounded_quotient_at_most(width as nat * sh, height as nat, sw);
            lemma_rounded_quotient_close(width as nat * sh, sw);
        }
    } else {
        assert(sh > 0) by (nonlinear_arith)
            requires
                width * sh > height * sw,
                sw >= 0,
                height > 0,
        ;
        assert(height * sw <= width * sh);
        lemma_rounded_quotient_at_most(height as nat * sw, width as nat, sh);
        lemma_rounded_quotient_close(height as nat * sw, sh);
    }
}

/// `v` is `a / d` rounded to the nearest whole number, kept at least 1 and at most
/// `u32::MAX`.
pub open spec fn nearest_whole(v: nat, a: nat, d: nat) -> bool {
    ||| 2 * (v * d - a) <= d && 2 * (a - v * d) <= d
    ||| v == 1 && 2 * a < d
    ||| v == u32::MAX && a >= d * u32::MAX
}

/// A percentage scales both sides by that percentage, and a longest-side target sets the
/// longer side of the source to the target and the other one in proportion; each
/// computed side is the exact proportion rounded to the nearest pixel (at least one).
pub proof fn law_resize_keeps_proportions(source_width: nat, source_height: nat, percent: u32, longest: u32)
    requires
        source_width > 0,
        source_height > 0,
        longest > 0,
    ensures
        ({
            let (w, h) = spec_resize_dimensions(source_width, source_height, BatchResizeMode::Percentage(percent));
            nearest_whole(w, source_width * (percent as nat), 100) && nearest_whole(h, source_height * (percent as nat), 100)
        }),
        ({
            let (w, h) = spec_resize_dimensions(source_width, source_height, BatchResizeMode::LongestSide(longest));
            &&& source_width >= source_height ==> w == longest && h <= longest && nearest_whole(
                h,
                (longest as nat) * source_height,
                source_width,
            )
            &&& source_width < source_height ==> h == longest && w <= longest && nearest_whole(
                w,
                (longest as nat) * source_width,
                source_height,
            )
        }),
{
    let (sw, sh) = (source_width, source_height);
    lemma_rounded_quotient_close(sw * (percent as nat), 100);
    lemma_rounded_quotient_close(sh * (percent as nat), 100);
    if sw >= sh {
        assert(longest * sh <= longest * sw) by (nonlinear_arith)
            requires
                sh <= sw,
        ;
        lemma_rounded_quotient_at_most(longest as nat * sh, longest as nat, sw);
        lemma_rounded_quotient_close(longest as nat * sh, sw);
    } else {
        assert(longest * sw <= longest * sh) by (nonlinear_arith)
            requires
                sw < sh,
        ;
        lemma_rounded_quotient_at_most(longest as nat * sw, longest as nat, sh);
        lemma_rounded_quotient_close(longest as nat * sw, sh);
    }
}

proof fn lemma_product_fits(a: u32, b: u32, c: u32)
    ensures
        0 <= a * b + c / 2 <= 0xffff_ffff_ffff_ffff,
{
    assert(0 <= a * b <= 0xffff_ffff * 0xffff_ffff) by (nonlinear_arith)
        requires
            a <= 0xffff_ffff,
            b <= 0xffff_ffff,
    ;
}

fn scale(value: u32, numerator: u32, denominator: u32) -> (r: u32)
    ensures
        r == scaled(value as nat, numerator as nat, denominator as nat),
{
    proof {
        lemma_product_fits(value, numerator, denominator);
    }
    let d: u64 = if denominator == 0 {
        1
    } else {
        denominator as u64
    };
    let q = ((value as u64) * (numerator as u64) + (denominator as u64) / 2) / d;
    if q < 1 {
        1
    } else if q > u32::MAX as u64 {
        u32::MAX
    } else {
        q as u32
    }
}

/// The size a resize step gives a `source_width` × `source_height` input (zero sides
/// included).
pub fn resize_dimensions_of(source_width: u32, source_height: u32, mode: BatchResizeMode) -> (dims: (u32, u32))
    ensures
        dims.0 == spec_resize_dimensions(source_width as nat, source_height as nat, mode).0,
        dims.1 == spec_resize_dimensions(source_width as nat, source_height as nat, mode).1,
{
    match mode {
        BatchResizeMode::Pixels { width, height, preserve_aspect } => {
            if !preserve_aspect || width == 0 || height == 0 {
                (width, height)
            } else {
                proof {
                    lemma_product_fits(width, source_height, 0);
                    lemma_product_fits(height, source_width, 0);
                }
                if (width as u64) * (source_height as u64) <= (height as u64) * (source_width as u64) {
                    (width, scale(width, source_height, source_width))
                } else {
                    (scale(height, source_width, source_height), height)
                }
            }
        },
        BatchResizeMode::Percentage(percent) => (
            scale(source_width, percent, 100),
            scale(source_height, percent, 100),
        ),
        BatchResizeMode::LongestSide(longest) => {
            if source_width >= source_height {
                (longest, scale(longest, source_height, source_width))
            } else {
                (scale(longest, source_width, source_height), longest)
            }
        },
    }
}

/// The size a resize step gives `image`; a zero side is refused.
pub fn resolve_resize_dimensions(image: &Raster, mode: BatchResizeMode) -> (dims: Result<
    (u32, u32),
    CoreError,
>)
    ensures
        ({
            let (w, h) = spec_resize_dimensions(image.width as nat, image.height as nat, mode);
            &&& dims is Ok <==> w > 0 && h > 0
            &&& dims matches Ok(d) ==> d.0 == w && d.1 == h
            &&& dims matches Err(e) ==> e is InvalidArgument
        }),
{
    let dimensions = resize_dimensions_of(image.width, image.height, mode);
    if dimensions.0 == 0 || dimensions.1 == 0 {
        return Err(
            CoreError::InvalidArgument(String::from_str("batch resize dimensions must be non-zero")),
        );
    }
    Ok(dimensions)
}

/// One ordered pixel step of a batch pipeline.
#[derive(Debug, Clone, Copy, PartialEq, Eq, Structural)]
pub enum BatchStep {
    /// Resize; with `prevent_enlarge`, an input that already fits inside the target in both
    /// dimensions passes through unchanged.
    Resize {
        /// Per-input size rule.
        mode: BatchResizeMode,
        /// Resampling filter.
        filter: ResizeFilter,
        /// Keep inputs that already fit.
        prevent_enlarge: bool,
    },
}

/// Ordered steps, then one encoding of the result.
#[derive(Debug, Clone)]
pub struct BatchPipeline {
    /// Pixel steps in execution order.
    pub steps: Vec<BatchStep>,
    /// Encoding applied once after the last step.
    pub output: EncodeSettings,
}

/// What one step does to an image: the new image, or `None` when the step refuses it.
pub open spec fn spec_step(img: RasterView, step: BatchStep) -> Option<RasterView> {
    match step {
        BatchStep::Resize { mode, filter, prevent_enlarge } => {
            let (w, h) = spec_resize_dimensions(img.width as nat, img.height as nat, mode);
            if w == 0 || h == 0 {
                None
            } else if prevent_enlarge && w >= img.width && h >= img.height {
                Some(img)
            } else {
                Some(
                    RasterView {
                        width: w as u32,
                        height: h as u32,
                        pixels: resampled(img.pixels, img.width, img.height, w as u32, h as u32, filter),
                    },
                )
            }
        },
    }
}

/// What a sequence of steps does to an image.
pub open spec fn spec_run_steps(img: RasterView, steps: Seq<BatchStep>) -> Option<RasterView>
    decreases steps.len(),
{
    if steps.len() == 0 {
        Some(img)
    } else {
        match spec_run_steps(img, steps.drop_last()) {
            Some(before) => spec_step(before, steps.last()),
            None => None,
        }
    }
}

/// Every image a run of the steps can pass through fits in memory.
pub open spec fn steps_fit(img: RasterView, steps: Seq<BatchStep>) -> bool {
    forall|k: int|
        0 <= k < steps.len() ==> match #[trigger] spec_run_steps(img, steps.take(k)) {
            Some(before) => match steps[k] {
                BatchStep::Resize { mode, .. } => {
                    let (w, h) = spec_resize_dimensions(before.width as nat, before.height as nat, mode);
                    rgba_len(w as int, h as int) <= usize::MAX
                },
            },
            None => true,
        }
}

/// The output of one processed input.
#[derive(Debug, Clone)]
pub struct BatchOutput {
    /// Encoded bytes.
    pub bytes: Vec<u8>,
    /// Format actually written.
    pub format: OutputFormat,
    /// Final width after every step.
    pub width: u32,
    /// Final height after every step.
    pub height: u32,
}

/// A failed input.
#[derive(Debug, Clone)]
pub struct BatchFailure {
    /// Position in the input list.
    pub index: usize,
    /// Why it failed.
    pub error: CoreError,
}

/// Outcome of a batch: successes in input order with their positions, and failures.
#[derive(Debug, Clone)]
pub struct BatchResult {
    /// Successful items, in input order, with their input positions.
    pub successes: Vec<(usize, BatchOutput)>,
    /// Failed items.
    pub failures: Vec<BatchFailure>,
}

impl BatchResult {
    /// Input `n` is among the successes or among the failures.
    pub open spec fn accounts_for(self, n: int) -> bool {
        (exists|i: int| 0 <= i < self.successes.len() && #[trigger] self.successes[i].0 == n)
            || (exists|i: int| 0 <= i < self.failures.len() && #[trigger] self.failures[i].index == n)
    }

    /// An empty result.
    pub fn new() -> (result: BatchResult)
        ensures
            result.successes.len() == 0,
            result.failures.len() == 0,
    {
        BatchResult { successes: Vec::new(), failures: Vec::new() }
    }

    /// Successes plus failures; for a processed batch this is the number of inputs.
    pub fn total(&self) -> (n: usize)
        requires
            self.successes.len() + self.failures.len() <= usize::MAX,
        ensures
            n == self.successes.len() + self.failures.len(),
    {
        self.successes.len() + self.failures.len()
    }
}

/// What processing one input gives: its output image and encoded bytes, or `None` when a
/// step or the encoder refuses it.
pub open spec fn spec_pipeline_output(img: RasterView, steps: Seq<BatchStep>, output: EncodeSettings) -> Option<
    (RasterView, Seq<u8>),
> {
    match spec_run_steps(img, steps) {
        Some(done) => match spec_encode(done, output) {
            Ok(bytes) => Some((done, bytes)),
            Err(_) => None,
        },
        None => None,
    }
}

/// The encoder can take whatever image the steps produce from `img`.
pub open spec fn pipeline_encodable(img: RasterView, steps: Seq<BatchStep>, output: EncodeSettings) -> bool {
    match spec_run_steps(img, steps) {
        Some(done) => encodable(output, done.width, done.height),
        None => true,
    }
}

/// `out` is what processing `img` gives, labelled with `format`.
pub open spec fn is_output_with(
    out: BatchOutput,
    img: RasterView,
    steps: Seq<BatchStep>,
    output: EncodeSettings,
    format: OutputFormat,
) -> bool {
    match spec_pipeline_output(img, steps, output) {
        Some((done, bytes)) => out.bytes@ == bytes && out.width == done.width && out.height
            == done.height && out.format == format,
        None => false,
    }
}

/// `out` is what processing `img` gives.
pub open spec fn is_output_of(out: BatchOutput, img: RasterView, steps: Seq<BatchStep>, output: EncodeSettings) -> bool {
    is_output_with(out, img, steps, output, spec_settings_format(output))
}

/// Runs every step in order on one input, then encodes the result once.
fn apply_pipeline_one(input: &Raster, pipeline: &BatchPipeline, format: OutputFormat) -> (out: Result<BatchOutput, CoreError>)
    requires
        input.wf(),
        steps_fit(input@, pipeline.steps@),
        pipeline_encodable(input@, pipeline.steps@, pipeline.output),
    ensures
        out is Ok <==> spec_pipeline_output(input@, pipeline.steps@, pipeline.output) is Some,
        out matches Ok(o) ==> is_output_with(o, input@, pipeline.steps@, pipeline.output, format),
{
    let mut image = input.clone_raster();
    let mut k: usize = 0;
    while k < pipeline.steps.len()
        invariant
            input.wf(),
            image.wf(),
            k <= pipeline.steps.len(),
            steps_fit(input@, pipeline.steps@),
            spec_run_steps(input@, pipeline.steps@.take(k as int)) == Some(image@),
        decreases pipeline.steps.len() - k,
    {
        let step = pipeline.steps[k];
        proof {
            assert(pipeline.steps@.take(k + 1).drop_last() =~= pipeline.steps@.take(k as int));
            assert(pipeline.steps@.take(k + 1).last() == step);
            let _ = spec_run_steps(input@, pipeline.steps@.take(k as int));
        }
        match step {
            BatchStep::Resize { mode, filter, prevent_enlarge } => {
                let (width, height) = match resolve_resize_dimensions(&image, mode) {
                    Ok(d) => d,
                    Err(e) => {
                        proof {
                            lemma_run_steps_fails_after(input@, pipeline.steps@, k as int);
                        }
                        return Err(e);
                    },
                };
                if !(prevent_enlarge && width >= image.width && height >= image.height) {
                    image = match resize(&image, width, height, filter) {
                        Ok(r) => r,
                        Err(e) => {
                            return Err(e);
                        },
                    };
                }
            },
        }
        k = k + 1;
    }
    proof {
        assert(pipeline.steps@.take(k as int) =~= pipeline.steps@);
    }
    let bytes = encode(&image, pipeline.output)?;
    Ok(BatchOutput { bytes, format, width: image.width, height: image.height })
}

proof fn lemma_run_steps_fails_after(img: RasterView, steps: Seq<BatchStep>, k: int)
    requires
        0 <= k < steps.len(),
        spec_run_steps(img, steps.take(k + 1)) is None,
    ensures
        spec_run_steps(img, steps) is None,
    decreases steps.len() - k,
{
    if k + 1 == steps.len() {
        assert(steps.take(k + 1) =~= steps);
    } else {
        assert(steps.take(k + 2).drop_last() =~= steps.take(k + 1));
        lemma_run_steps_fails_after(img, steps, k + 1);
    }
}

/// `img` can go through the pipeline without an encoder or allocation abort.
pub open spec fn ready_for(img: Raster, steps: Seq<BatchStep>, output: EncodeSettings) -> bool {
    img.wf() && steps_fit(img@, steps) && pipeline_encodable(img@, steps, output)
}

/// Once a run of steps has failed, running more steps does not bring it back.
proof fn lemma_run_steps_stays_failed(img: RasterView, steps: Seq<BatchStep>, k: int, j: int)
    requires
        0 <= k <= j <= steps.len(),
        spec_run_steps(img, steps.take(k)) is None,
    ensures
        spec_run_steps(img, steps.take(j)) is None,
    decreases j - k,
{
    if j > k {
        lemma_run_steps_stays_failed(img, steps, k, j - 1);
        assert(steps.take(j).drop_last() =~= steps.take(j - 1));
    }
}

/// Whether `img` can go through `pipeline` without exceeding memory or the encoder's
/// limits (see [`ready_for`]); inputs that cannot are reported as failures instead of
/// being processed.
pub fn pipeline_ready(img: &Raster, pipeline: &BatchPipeline) -> (ready: bool)
    ensures
        ready == ready_for(*img, pipeline.steps@, pipeline.output),
{
    proof {
        assert((img.width as u128) * (img.height as u128) <= 0xffff_ffff_ffff_ffff_ffff_ffff) by (nonlinear_arith)
            requires img.width <= u32::MAX, img.height <= u32::MAX;
    }
    if (img.pixels.len() as u128) != 4 * ((img.width as u128) * (img.height as u128)) {
        assert(!img.wf());
        return false;
    }
    assert(img.wf());
    let ghost steps = pipeline.steps@;
    let mut w = img.width;
    let mut h = img.height;
    let mut k: usize = 0;
    assert(steps.take(0) =~= Seq::<BatchStep>::empty());
    while k < pipeline.steps.len()
        invariant
            k <= pipeline.steps.len(),
            steps == pipeline.steps@,
            img.wf(),
            spec_run_steps(img@, steps.take(k as int)) matches Some(cur) && cur.width == w && cur.height == h,
            forall|j: int| 0 <= j < k ==> match #[trigger] spec_run_steps(img@, steps.take(j)) {
                Some(before) => match steps[j] {
                    BatchStep::Resize { mode, .. } => {
                        let (dw, dh) = spec_resize_dimensions(before.width as nat, before.height as nat, mode);
                        rgba_len(dw as int, dh as int) <= usize::MAX
                    },
                },
                None => true,
            },
        decreases pipeline.steps.len() - k,
    {
        let step = pipeline.steps[k];
        let ghost cur = spec_run_steps(img@, steps.take(k as int))->0;
        proof {
            assert(steps.take(k + 1).drop_last() =~= steps.take(k as int));
            assert(steps.take(k + 1).last() == step);
        }
        match step {
            BatchStep::Resize { mode, prevent_enlarge, .. } => {
                let (nw, nh) = resize_dimensions_of(w, h, mode);
                proof {
                    assert((nw as u128) * (nh as u128) <= 0xffff_ffff_ffff_ffff_ffff_ffff) by (nonlinear_arith)
                        requires nw <= u32::MAX, nh <= u32::MAX;
                }
                let bytes: u128 = 4 * ((nw as u128) * (nh as u128));
                if bytes > usize::MAX as u128 {
                    proof {
                        assert(!steps_fit(img@, steps)) by {
                            assert(spec_run_steps(img@, steps.take(k as int)) == Some(cur));
                        }
                    }
                    return false;
                }
                if nw == 0 || nh == 0 {
                    proof {
                        assert(spec_run_steps(img@, steps.take(k + 1)) is None);
                        assert forall|j: int| 0 <= j < steps.len() implies match #[trigger] spec_run_steps(img@, steps.take(j)) {
                            Some(before) => match steps[j] {
                                BatchStep::Resize { mode, .. } => {
                                    let (dw, dh) = spec_resize_dimensions(before.width as nat, before.height as nat, mode);
                                    rgba_len(dw as int, dh as int) <= usize::MAX
                                },
                            },
                            None => true,
                        } by {
                            if j > k {
                                lemma_run_steps_stays_failed(img@, steps, k + 1, j);
                            }
                        }
                        lemma_run_steps_stays_failed(img@, steps, k + 1, steps.len() as int);
                        assert(steps.take(steps.len() as int) =~= steps);
                    }
                    return true;
                }
                if !(prevent_enlarge && nw >= w && nh >= h) {
                    w = nw;
                    h = nh;
                }
            },
        }
        k = k + 1;
    }
    proof {
        assert(steps.take(k as int) =~= steps);
    }
    match pipeline.output {
        EncodeSettings::WebpLossy { .. } | EncodeSettings::WebpLossless => {
            1 <= w && w <= WEBP_MAX_DIMENSION && 1 <= h && h <= WEBP_MAX_DIMENSION
        },
        _ => true,
    }
}

/// Processes every input through all steps in order, then encodes it once; a failure stays
/// with its own item and the rest go on. Successes keep input order.
fn process_items(images: &Vec<Raster>, pipeline: &BatchPipeline, format: OutputFormat) -> (result: BatchResult)
    requires
        forall|i: int|
            0 <= i < images.len() ==> #[trigger] ready_for(images[i], pipeline.steps@, pipeline.output),
    ensures
        result.successes.len() + result.failures.len() == images.len(),
        forall|i: int|
            0 <= i < result.successes.len() ==> #[trigger] is_output_with(
                result.successes[i].1,
                images[result.successes[i].0 as int]@,
                pipeline.steps@,
                pipeline.output,
                format,
            ),
        forall|i: int|
            0 <= i < result.failures.len() ==> spec_pipeline_output(
                images[#[trigger] result.failures[i].index as int]@,
                pipeline.steps@,
                pipeline.output,
            ) is None,
        forall|i: int, j: int|
            0 <= i < j < result.successes.len() ==> #[trigger] result.successes[i].0
                < #[trigger] result.successes[j].0,
        forall|i: int, j: int|
            0 <= i < j < result.failures.len() ==> #[trigger] result.failures[i].index
                < #[trigger] result.failures[j].index,
        forall|n: int| 0 <= n < images.len() ==> #[trigger] result.accounts_for(n),
{
    let mut result = BatchResult::new();
    let mut index: usize = 0;
    while index < images.len()
        invariant
            index <= images.len(),
            forall|i: int|
                0 <= i < images.len() ==> #[trigger] ready_for(images[i], pipeline.steps@, pipeline.output),
            result.successes.len() + result.failures.len() == index,
            forall|i: int|
                0 <= i < result.successes.len() ==> #[trigger] result.successes[i].0 < index,
            forall|i: int|
                0 <= i < result.failures.len() ==> #[trigger] result.failures[i].index < index,
            forall|i: int|
                0 <= i < result.successes.len() ==> #[trigger] is_output_with(
                    result.successes[i].1,
                    images[result.successes[i].0 as int]@,
                    pipeline.steps@,
                    pipeline.output,
                    format,
                ),
            forall|i: int|
                0 <= i < result.failures.len() ==> spec_pipeline_output(
                    images[#[trigger] result.failures[i].index as int]@,
                    pipeline.steps@,
                    pipeline.output,
                ) is None,
            forall|i: int, j: int|
                0 <= i < j < result.successes.len() ==> #[trigger] result.successes[i].0
                    < #[trigger] result.successes[j].0,
            forall|i: int, j: int|
                0 <= i < j < result.failures.len() ==> #[trigger] result.failures[i].index
                    < #[trigger] result.failures[j].index,
            forall|n: int| 0 <= n < index ==> #[trigger] result.accounts_for(n),
        decreases images.len() - index,
    {
        proof {
            assert(ready_for(images[index as int], pipeline.steps@, pipeline.output));
        }
        match apply_pipeline_one(&images[index], pipeline, format) {
            Ok(output) => {
                let ghost old_result = result;
                let ghost before = result.successes@;
                result.successes.push((index, output));
                proof {
                    assert forall|n: int| 0 <= n < index + 1 implies #[trigger] result.accounts_for(n) by {
                        if n == index {
                            assert(result.successes[before.len() as int].0 == n);
                        } else {
                            assert(old_result.accounts_for(n));
                        }
                        if n != index && exists|i: int| 0 <= i < before.len() && #[trigger] before[i].0 == n {
                            let i = choose|i: int| 0 <= i < before.len() && #[trigger] before[i].0 == n;
                            assert(result.successes[i].0 == n);
                        }
                    }
                }
            },
            Err(error) => {
                let ghost old_result = result;
                let ghost before = result.failures@;
                result.failures.push(BatchFailure { index, error });
                proof {
                    assert forall|n: int| 0 <= n < index + 1 implies #[trigger] result.accounts_for(n) by {
                        if n == index {
                            assert(result.failures[before.len() as int].index == n);
                        } else {
                            assert(old_result.accounts_for(n));
                        }
                        if n != index && exists|i: int|
                            0 <= i < before.len() && #[trigger] before[i].index == n {
                            let i = choose|i: int|
                                0 <= i < before.len() && #[trigger] before[i].index == n;
                            assert(result.failures[i].index == n);
                        }
                        if n != index && exists|i: int|
                            0 <= i < old_result.successes.len()
                                && #[trigger] old_result.successes[i].0 == n {
                            let i = choose|i: int|
                                0 <= i < old_result.successes.len()
                                    && #[trigger] old_result.successes[i].0 == n;
                            assert(result.successes[i].0 == n);
                        }
                    }
                }
            },
        }
        index = index + 1;
    }
    result
}

/// Processes every input through all steps in order, then encodes it once; a failure stays
/// with its own item and the rest go on. Successes keep input order.
pub fn process_pipeline(images: &Vec<Raster>, pipeline: &BatchPipeline) -> (result: BatchResult)
    requires
        forall|i: int|
            0 <= i < images.len() ==> #[trigger] ready_for(images[i], pipeline.steps@, pipeline.output),
    ensures
        result.successes.len() + result.failures.len() == images.len(),
        forall|i: int|
            0 <= i < result.successes.len() ==> #[trigger] is_output_of(
                result.successes[i].1,
                images[result.successes[i].0 as int]@,
                pipeline.steps@,
                pipeline.output,
            ),
        forall|i: int|
            0 <= i < result.failures.len() ==> spec_pipeline_output(
                images[#[trigger] result.failures[i].index as int]@,
                pipeline.steps@,
                pipeline.output,
            ) is None,
        forall|i: int, j: int|
            0 <= i < j < result.successes.len() ==> #[trigger] result.successes[i].0
                < #[trigger] result.successes[j].0,
        forall|i: int, j: int|
            0 <= i < j < result.failures.len() ==> #[trigger] result.failures[i].index
                < #[trigger] result.failures[j].index,
        forall|n: int| 0 <= n < images.len() ==> #[trigger] result.accounts_for(n),
{
    process_items(images, pipeline, pipeline.output.format())
}

/// One operation applied to every input of a batch.
#[derive(Debug, Clone, Copy)]
pub enum BatchOp {
    /// Re-encode (format conversion or compression); the output is labelled `format`.
    Convert { format: OutputFormat, settings: EncodeSettings },
    /// Resample to `width` × `height`, then write lossless PNG.
    Resize { width: u32, height: u32, filter: ResizeFilter },
}

/// The steps an operation runs.
pub open spec fn op_steps(op: BatchOp) -> Seq<BatchStep> {
    match op {
        BatchOp::Convert { .. } => Seq::empty(),
        BatchOp::Resize { width, height, filter } => seq![
            BatchStep::Resize {
                mode: BatchResizeMode::Pixels { width, height, preserve_aspect: false },
                filter,
                prevent_enlarge: false,
            },
        ],
    }
}

/// The encoding an operation ends with.
pub open spec fn op_output(op: BatchOp) -> EncodeSettings {
    match op {
        BatchOp::Convert { settings, .. } => settings,
        BatchOp::Resize { .. } => EncodeSettings::Png { compression: PngCompression::Default },
    }
}

/// The format an operation's outputs are labelled with.
pub open spec fn op_format(op: BatchOp) -> OutputFormat {
    match op {
        BatchOp::Convert { format, .. } => format,
        BatchOp::Resize { .. } => OutputFormat::Png,
    }
}

/// Applies one operation to every input; a failure stays with its own item and successes
/// keep input order. Resizing to a zero side fails.
pub fn process(images: &Vec<Raster>, op: &BatchOp) -> (result: BatchResult)
    requires
        forall|i: int| 0 <= i < images.len() ==> #[trigger] ready_for(images[i], op_steps(*op), op_output(*op)),
    ensures
        result.successes.len() + result.failures.len() == images.len(),
        forall|i: int|
            0 <= i < result.successes.len() ==> #[trigger] is_output_with(
                result.successes[i].1,
                images[result.successes[i].0 as int]@,
                op_steps(*op),
                op_output(*op),
                op_format(*op),
            ),
        forall|i: int|
            0 <= i < result.failures.len() ==> spec_pipeline_output(
                images[#[trigger] result.failures[i].index as int]@,
                op_steps(*op),
                op_output(*op),
            ) is None,
        forall|i: int, j: int|
            0 <= i < j < result.successes.len() ==> #[trigger] result.successes[i].0
                < #[trigger] result.successes[j].0,
        forall|n: int| 0 <= n < images.len() ==> #[trigger] result.accounts_for(n),
{
    let (pipeline, format) = match *op {
        BatchOp::Convert { format, settings } => (BatchPipeline { steps: Vec::new(), output: settings }, format),
        BatchOp::Resize { width, height, filter } => {
            let mut steps = Vec::new();
            steps.push(
                BatchStep::Resize {
                    mode: BatchResizeMode::Pixels { width, height, preserve_aspect: false },
                    filter,
                    prevent_enlarge: false,
                },
            );
            (BatchPipeline { steps, output: EncodeSettings::Png { compression: PngCompression::Default } }, OutputFormat::Png)
        },
    };
    assert(pipeline.steps@ =~= op_steps(*op));
    process_items(images, &pipeline, format)
}

} // verus!
