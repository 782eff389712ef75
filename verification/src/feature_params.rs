//! Adjustable parameters of the editing pages.
//!
//! Every step, mode switch and range is plain data, so all of it is checked without a
//! window system.

use vstd::prelude::*;

use crate::animation::{GifParams, Playback};
use crate::collage::{CollageLayout, CollageOptions};
use crate::format::{EncodeSettings, OutputFormat, PngCompression, Quality};
use crate::qr::{ErrorCorrection, QrOptions};
use crate::raster::Color;
use crate::slice::SliceGrid;
use crate::transform::{spec_preset, AspectRatio};

verus! {

/// A change requested from a parameter control.
#[derive(Debug, Clone, Copy, PartialEq, Eq, Structural)]
pub enum ParamAction {
    SetEditRatio(usize),
    SetEditWidth(u32),
    SetEditHeight(u32),
    SetEditResizeMode(ResizeMode),
    SetEditAspectLock(bool),
    SetEditPercentage(u32),
    SetEditLongestSide(u32),
    SetEditPreventEnlarge(bool),
    SetCollageMode(CollageMode),
    SetCollageColumns(u32),
    SetCollageSpacing(u32),
    SetCollageBackground(usize),
    SetBatchResizeEnabled(bool),
    SetBatchResizeMode(ResizeMode),
    SetBatchAspectLock(bool),
    SetBatchPercentage(u32),
    SetBatchLongestSide(u32),
    SetBatchWatermarkEnabled(bool),
    SetBatchResizeFirst(bool),
    SetBatchPreventEnlarge(bool),
    SetBatchFormat(OutputFormat),
    SetBatchPngCompression(PngCompression),
    SetBatchWidth(u32),
    SetBatchHeight(u32),
    SetBatchWatermarkSource(WatermarkSource),
    SetBatchOpacity(u8),
    SetBatchPosition(WatermarkPlacement),
    SetSliceRows(u32),
    SetSliceColumns(u32),
    SetQrSize(u32),
    SetQrCorrection(ErrorCorrection),
    SetBeautifyRadius(u32),
    SetBeautifyPadding(u32),
    SetBeautifyBackground(BeautifyBackground),
    SetBeautifyBorder(u32),
    SetBeautifyShadow(bool),
    SetGifDelay(u32),
    SetGifWidth(u32),
    SetGifHeight(u32),
    SetGifCustomSize(bool),
    SetGifPlayback(Playback),
}

/// Index of the free-ratio choice, after the five presets.
pub const FREE_RATIO_INDEX: usize = 5;

/// What the page must refresh after a parameter change.
#[derive(Debug, Clone, Copy, PartialEq, Eq, Structural)]
pub enum ParamEffect {
    Unchanged,
    CropRatioChanged,
    ResizePreview,
    BeautifyPreview,
}

/// How a resize target is given.
#[derive(Debug, Clone, Copy, PartialEq, Eq, Structural)]
pub enum ResizeMode {
    Pixels,
    Percentage,
    LongestSide,
}

impl ResizeMode {
    /// Message key of the mode's label.
    pub fn label_key(self) -> (key: &'static str)
        ensures
            key@ == (match self {
                ResizeMode::Pixels => "option.resize_pixels"@,
                ResizeMode::Percentage => "option.resize_percentage"@,
                ResizeMode::LongestSide => "option.resize_longest_side"@,
            }),
    {
        match self {
            ResizeMode::Pixels => "option.resize_pixels",
            ResizeMode::Percentage => "option.resize_percentage",
            ResizeMode::LongestSide => "option.resize_longest_side",
        }
    }
}

/// Collage arrangement chosen on the page.
#[derive(Debug, Clone, Copy, PartialEq, Eq, Structural)]
pub enum CollageMode {
    Vertical,
    Horizontal,
    Grid,
}

impl CollageMode {
    /// Message key of the mode's label.
    pub fn label_key(self) -> (key: &'static str)
        ensures
            key@ == (match self {
                CollageMode::Vertical => "option.vertical"@,
                CollageMode::Horizontal => "option.horizontal"@,
                CollageMode::Grid => "option.grid"@,
            }),
    {
        match self {
            CollageMode::Vertical => "option.vertical",
            CollageMode::Horizontal => "option.horizontal",
            CollageMode::Grid => "option.grid",
        }
    }
}

/// Where a batch watermark comes from.
#[derive(Debug, Clone, Copy, PartialEq, Eq, Structural)]
pub enum WatermarkSource {
    Text,
    Image,
}

impl WatermarkSource {
    /// Message key of the source's label.
    pub fn label_key(self) -> (key: &'static str)
        ensures
            key@ == (match self {
                WatermarkSource::Text => "option.text_watermark"@,
                WatermarkSource::Image => "option.image_watermark"@,
            }),
    {
        match self {
            WatermarkSource::Text => "option.text_watermark",
            WatermarkSource::Image => "option.image_watermark",
        }
    }
}

/// Where a batch watermark is placed.
#[derive(Debug, Clone, Copy, PartialEq, Eq, Structural)]
pub enum WatermarkPlacement {
    BottomRight,
    Tiled,
}

impl WatermarkPlacement {
    /// Message key of the placement's label.
    pub fn label_key(self) -> (key: &'static str)
        ensures
            key@ == (match self {
                WatermarkPlacement::BottomRight => "option.bottom_right"@,
                WatermarkPlacement::Tiled => "option.tiled"@,
            }),
    {
        match self {
            WatermarkPlacement::BottomRight => "option.bottom_right",
            WatermarkPlacement::Tiled => "option.tiled",
        }
    }
}

/// Background style offered by the beautify page.
#[derive(Debug, Clone, Copy, PartialEq, Eq, Structural)]
pub enum BeautifyBackground {
    Gradient,
    Solid,
    Transparent,
}

impl BeautifyBackground {
    /// Message key of the background's label.
    pub fn label_key(self) -> (key: &'static str)
        ensures
            key@ == (match self {
                BeautifyBackground::Gradient => "option.gradient"@,
                BeautifyBackground::Solid => "option.solid"@,
                BeautifyBackground::Transparent => "option.transparent"@,
            }),
    {
        match self {
            BeautifyBackground::Gradient => "option.gradient",
            BeautifyBackground::Solid => "option.solid",
            BeautifyBackground::Transparent => "option.transparent",
        }
    }
}

/// `v` limited to `lo..=hi`.
pub open spec fn clamped(v: int, lo: int, hi: int) -> int {
    if v < lo {
        lo
    } else if v > hi {
        hi
    } else {
        v
    }
}

fn clamp_u32(v: u32, lo: u32, hi: u32) -> (r: u32)
    requires
        lo <= hi,
    ensures
        r == clamped(v as int, lo as int, hi as int),
{
    if v < lo {
        lo
    } else if v > hi {
        hi
    } else {
        v
    }
}

/// `value × numerator / denominator`, rounded half up, kept within 1–16384 (a zero
/// denominator counts as 1).
pub open spec fn proportional(value: nat, numerator: nat, denominator: nat) -> nat {
    let d: nat = if denominator == 0 {
        1
    } else {
        denominator
    };
    clamped(((value * numerator + denominator / 2) / d) as int, 1, 16384) as nat
}

fn proportional_dimension(value: u32, numerator: u32, denominator: u32) -> (r: u32)
    ensures
        r == proportional(value as nat, numerator as nat, denominator as nat),
{
    proof {
        assert(0 <= value * numerator <= 0xffff_ffff * 0xffff_ffff) by (nonlinear_arith)
            requires
                value <= 0xffff_ffff,
                numerator <= 0xffff_ffff,
        ;
    }
    let d: u64 = if denominator == 0 {
        1
    } else {
        denominator as u64
    };
    let q = ((value as u64) * (numerator as u64) + (denominator as u64) / 2) / d;
    if q < 1 {
        1
    } else if q > 16384 {
        16384
    } else {
        q as u32
    }
}

/// Crop ratio and resize parameters of the edit page.
#[derive(Debug, Clone, Copy, PartialEq, Eq, Structural)]
pub struct EditParams {
    pub ratio_index: usize,
    pub width: u32,
    pub height: u32,
    pub source_width: u32,
    pub source_height: u32,
    pub aspect_locked: bool,
    pub mode: ResizeMode,
    pub percentage: u32,
    pub longest_side: u32,
    pub prevent_enlarge: bool,
}

/// The edit parameters after the source image becomes `width` × `height`.
pub open spec fn spec_with_source(e: EditParams, width: u32, height: u32) -> EditParams {
    let sw = if width < 1 {
        1u32
    } else {
        width
    };
    let sh = if height < 1 {
        1u32
    } else {
        height
    };
    EditParams {
        source_width: sw,
        source_height: sh,
        width: sw,
        height: sh,
        longest_side: if sw >= sh {
            sw
        } else {
            sh
        },
        percentage: 100,
        ..e
    }
}

/// The edit parameters after the width control is set to `width`.
pub open spec fn spec_with_width(e: EditParams, width: u32) -> EditParams {
    let w = clamped(width as int, 16, 16384) as u32;
    EditParams {
        width: w,
        height: if e.aspect_locked {
            proportional(w as nat, e.source_height as nat, e.source_width as nat) as u32
        } else {
            e.height
        },
        ..e
    }
}

/// The edit parameters after the height control is set to `height`.
pub open spec fn spec_with_height(e: EditParams, height: u32) -> EditParams {
    let h = clamped(height as int, 16, 16384) as u32;
    EditParams {
        height: h,
        width: if e.aspect_locked {
            proportional(h as nat, e.source_width as nat, e.source_height as nat) as u32
        } else {
            e.width
        },
        ..e
    }
}

/// The size a resize on the edit page produces.
pub open spec fn spec_output_dimensions(e: EditParams) -> (u32, u32) {
    let d: (u32, u32) = match e.mode {
        ResizeMode::Pixels => (e.width, e.height),
        ResizeMode::Percentage => (
            proportional(e.percentage as nat, e.source_width as nat, 100) as u32,
            proportional(e.percentage as nat, e.source_height as nat, 100) as u32,
        ),
        ResizeMode::LongestSide => if e.source_width >= e.source_height {
            (
                e.longest_side,
                proportional(e.longest_side as nat, e.source_height as nat, e.source_width as nat)
                    as u32,
            )
        } else {
            (
                proportional(e.longest_side as nat, e.source_width as nat, e.source_height as nat)
                    as u32,
                e.longest_side,
            )
        },
    };
    if e.prevent_enlarge && d.0 >= e.source_width && d.1 >= e.source_height {
        (e.source_width, e.source_height)
    } else {
        d
    }
}

impl Default for EditParams {
    fn default() -> (e: Self)
        ensures
            e == (EditParams {
                ratio_index: 0,
                width: 1024,
                height: 1024,
                source_width: 1024,
                source_height: 1024,
                aspect_locked: true,
                mode: ResizeMode::Pixels,
                percentage: 100,
                longest_side: 1024,
                prevent_enlarge: true,
            }),
    {
        EditParams {
            ratio_index: 0,
            width: 1024,
            height: 1024,
            source_width: 1024,
            source_height: 1024,
            aspect_locked: true,
            mode: ResizeMode::Pixels,
            percentage: 100,
            longest_side: 1024,
            prevent_enlarge: true,
        }
    }
}

impl EditParams {
    /// The selected crop preset; `None` for the free ratio.
    pub fn ratio(self) -> (r: Option<AspectRatio>)
        ensures
            r == spec_preset(self.ratio_index as int),
    {
        AspectRatio::preset(self.ratio_index)
    }

    /// Adopts a new source image: target and longest side follow it, percentage resets to
    /// 100. Zero sides count as 1.
    pub fn set_source_dimensions(&mut self, width: u32, height: u32)
        ensures
            *final(self) == spec_with_source(*old(self), width, height),
    {
        self.source_width = if width < 1 {
            1
        } else {
            width
        };
        self.source_height = if height < 1 {
            1
        } else {
            height
        };
        self.width = self.source_width;
        self.height = self.source_height;
        self.longest_side = if self.source_width >= self.source_height {
            self.source_width
        } else {
            self.source_height
        };
        self.percentage = 100;
    }

    /// Sets the target width (16–16384); with the ratio locked the height follows.
    pub fn set_width(&mut self, width: u32)
        ensures
            *final(self) == spec_with_width(*old(self), width),
    {
        self.width = clamp_u32(width, 16, 16384);
        if self.aspect_locked {
            self.height = proportional_dimension(self.width, self.source_height, self.source_width);
        }
    }

    /// Sets the target height (16–16384); with the ratio locked the width follows.
    pub fn set_height(&mut self, height: u32)
        ensures
            *final(self) == spec_with_height(*old(self), height),
    {
        self.height = clamp_u32(height, 16, 16384);
        if self.aspect_locked {
            self.width = proportional_dimension(self.height, self.source_width, self.source_height);
        }
    }

    /// The size the resize will produce; with `prevent_enlarge`, a target at least as
    /// large as the source in both sides keeps the source size.
    pub fn output_dimensions(self) -> (d: (u32, u32))
        ensures
            d == spec_output_dimensions(self),
    {
        let dimensions = match self.mode {
            ResizeMode::Pixels => (self.width, self.height),
            ResizeMode::Percentage => (
                proportional_dimension(self.percentage, self.source_width, 100),
                proportional_dimension(self.percentage, self.source_height, 100),
            ),
            ResizeMode::LongestSide => {
                if self.source_width >= self.source_height {
                    (
                        self.longest_side,
                        proportional_dimension(
                            self.longest_side,
                            self.source_height,
                            self.source_width,
                        ),
                    )
                } else {
                    (
                        proportional_dimension(
                            self.longest_side,
                            self.source_width,
                            self.source_height,
                        ),
                        self.longest_side,
                    )
                }
            },
        };
        if self.prevent_enlarge && dimensions.0 >= self.source_width && dimensions.1
            >= self.source_height {
            (self.source_width, self.source_height)
        } else {
            dimensions
        }
    }
}

/// Collage parameters.
#[derive(Debug, Clone, Copy, PartialEq, Eq, Structural)]
pub struct CollageParams {
    pub mode: CollageMode,
    pub columns: u32,
    pub spacing: u32,
    pub background_index: usize,
}

/// The collage background choices: white, near-black, light grey, transparent.
pub open spec fn collage_background(index: int) -> Color {
    if index == 0 {
        Color { r: 255, g: 255, b: 255, a: 255 }
    } else if index == 1 {
        Color { r: 24, g: 24, b: 27, a: 255 }
    } else if index == 2 {
        Color { r: 228, g: 228, b: 231, a: 255 }
    } else {
        Color { r: 0, g: 0, b: 0, a: 0 }
    }
}

impl Default for CollageParams {
    fn default() -> (c: Self)
        ensures
            c == (CollageParams {
                mode: CollageMode::Vertical,
                columns: 3,
                spacing: 0,
                background_index: 0,
            }),
    {
        CollageParams { mode: CollageMode::Vertical, columns: 3, spacing: 0, background_index: 0 }
    }
}

impl CollageParams {
    /// The layout for the chosen mode.
    pub fn layout(self) -> (layout: CollageLayout)
        requires
            self.mode == CollageMode::Grid ==> self.columns >= 1,
        ensures
            layout == (match self.mode {
                CollageMode::Vertical => CollageLayout::Vertical,
                CollageMode::Horizontal => CollageLayout::Horizontal,
                CollageMode::Grid => CollageLayout::Grid { columns: self.columns },
            }),
    {
        match self.mode {
            CollageMode::Vertical => CollageLayout::Vertical,
            CollageMode::Horizontal => CollageLayout::Horizontal,
            CollageMode::Grid => CollageLayout::Grid { columns: self.columns },
        }
    }

    /// Spacing and the chosen background colour.
    pub fn options(self) -> (options: CollageOptions)
        requires
            self.background_index <= 3,
        ensures
            options == (CollageOptions {
                spacing: self.spacing,
                background: collage_background(self.background_index as int),
            }),
    {
        let background = if self.background_index == 0 {
            Color { r: 255, g: 255, b: 255, a: 255 }
        } else if self.background_index == 1 {
            Color { r: 24, g: 24, b: 27, a: 255 }
        } else if self.background_index == 2 {
            Color { r: 228, g: 228, b: 231, a: 255 }
        } else {
            Color { r: 0, g: 0, b: 0, a: 0 }
        };
        CollageOptions { spacing: self.spacing, background }
    }
}

/// Batch page parameters.
#[derive(Debug, Clone, Copy, PartialEq, Eq, Structural)]
pub struct BatchParams {
    pub resize_enabled: bool,
    pub resize_mode: ResizeMode,
    pub aspect_locked: bool,
    pub percentage: u32,
    pub longest_side: u32,
    pub watermark_enabled: bool,
    pub resize_first: bool,
    pub prevent_enlarge: bool,
    pub format: OutputFormat,
    pub quality: Quality,
    pub png_compression: PngCompression,
    pub width: u32,
    pub height: u32,
    pub watermark_source: WatermarkSource,
    pub watermark_opacity_percent: u8,
    pub watermark_placement: WatermarkPlacement,
}

impl Default for BatchParams {
    fn default() -> (b: Self)
        ensures
            !b.resize_enabled,
            b.resize_mode == ResizeMode::Pixels,
            b.aspect_locked,
            b.percentage == 100,
            b.longest_side == 1024,
            !b.watermark_enabled,
            b.resize_first,
            b.prevent_enlarge,
            b.format == OutputFormat::Png,
            b.quality.spec_value() == 85,
            b.png_compression == PngCompression::Default,
            b.width == 1024,
            b.height == 1024,
            b.watermark_source == WatermarkSource::Text,
            b.watermark_opacity_percent == 50,
            b.watermark_placement == WatermarkPlacement::BottomRight,
    {
        BatchParams {
            resize_enabled: false,
            resize_mode: ResizeMode::Pixels,
            aspect_locked: true,
            percentage: 100,
            longest_side: 1024,
            watermark_enabled: false,
            resize_first: true,
            prevent_enlarge: true,
            format: OutputFormat::Png,
            quality: Quality::default(),
            png_compression: PngCompression::default(),
            width: 1024,
            height: 1024,
            watermark_source: WatermarkSource::Text,
            watermark_opacity_percent: 50,
            watermark_placement: WatermarkPlacement::BottomRight,
        }
    }
}

impl BatchParams {
    /// Encoding settings for the chosen format: PNG uses the compression level, JPEG and
    /// (lossy) WebP the quality.
    pub fn encode_settings(self) -> (settings: EncodeSettings)
        ensures
            settings == (match self.format {
                OutputFormat::Png => EncodeSettings::Png { compression: self.png_compression },
                OutputFormat::Jpeg => EncodeSettings::Jpeg { quality: self.quality },
                OutputFormat::Webp => EncodeSettings::WebpLossy { quality: self.quality },
            }),
    {
        match self.format {
            OutputFormat::Png => EncodeSettings::Png { compression: self.png_compression },
            OutputFormat::Jpeg => EncodeSettings::Jpeg { quality: self.quality },
            OutputFormat::Webp => EncodeSettings::WebpLossy { quality: self.quality },
        }
    }
}

/// Slice page parameters.
#[derive(Debug, Clone, Copy, PartialEq, Eq, Structural)]
pub struct SliceParams {
    pub rows: u32,
    pub columns: u32,
}

impl Default for SliceParams {
    fn default() -> (s: Self)
        ensures
            s == (SliceParams { rows: 3, columns: 3 }),
    {
        SliceParams { rows: 3, columns: 3 }
    }
}

impl SliceParams {
    /// The slicing grid; rows and columns are kept at 1 or more by the controls.
    pub fn grid(self) -> (grid: SliceGrid)
        requires
            self.rows >= 1,
            self.columns >= 1,
        ensures
            grid.rows == self.rows,
            grid.columns == self.columns,
            grid.wf(),
    {
        SliceGrid { rows: self.rows, columns: self.columns }
    }
}

/// QR page parameters.
#[derive(Debug, Clone, Copy, PartialEq, Eq, Structural)]
pub struct QrParams {
    pub size: u32,
    pub correction: ErrorCorrection,
    pub foreground: Color,
    pub background: Color,
}

impl Default for QrParams {
    fn default() -> (q: Self)
        ensures
            q == (QrParams {
                size: 512,
                correction: ErrorCorrection::Medium,
                foreground: Color { r: 0, g: 0, b: 0, a: 255 },
                background: Color { r: 255, g: 255, b: 255, a: 255 },
            }),
    {
        QrParams {
            size: 512,
            correction: ErrorCorrection::Medium,
            foreground: Color { r: 0, g: 0, b: 0, a: 255 },
            background: Color { r: 255, g: 255, b: 255, a: 255 },
        }
    }
}

impl QrParams {
    /// Rendering options; each colour is passed on as chosen.
    pub fn options(self) -> (options: QrOptions)
        ensures
            options == (QrOptions {
                error_correction: self.correction,
                min_size: self.size,
                foreground: self.foreground,
                background: self.background,
            }),
    {
        QrOptions {
            error_correction: self.correction,
            min_size: self.size,
            foreground: self.foreground,
            background: self.background,
        }
    }
}

/// Beautify page parameters.
#[derive(Debug, Clone, Copy, PartialEq, Eq, Structural)]
pub struct BeautifyUiParams {
    pub radius: u32,
    pub padding: u32,
    pub background: BeautifyBackground,
    pub border_width: u32,
    pub shadow: bool,
}

impl Default for BeautifyUiParams {
    fn default() -> (b: Self)
        ensures
            b == (BeautifyUiParams {
                radius: 24,
                padding: 48,
                background: BeautifyBackground::Gradient,
                border_width: 0,
                shadow: true,
            }),
    {
        BeautifyUiParams {
            radius: 24,
            padding: 48,
            background: BeautifyBackground::Gradient,
            border_width: 0,
            shadow: true,
        }
    }
}

/// GIF page parameters.
#[derive(Debug, Clone, Copy, PartialEq, Eq, Structural)]
pub struct GifUiParams {
    pub delay_ms: u32,
    pub custom_size: bool,
    pub width: u32,
    pub height: u32,
    pub playback: Playback,
}

impl Default for GifUiParams {
    fn default() -> (g: Self)
        ensures
            g == (GifUiParams {
                delay_ms: 200,
                custom_size: false,
                width: 640,
                height: 640,
                playback: Playback::Forward,
            }),
    {
        GifUiParams {
            delay_ms: 200,
            custom_size: false,
            width: 640,
            height: 640,
            playback: Playback::Forward,
        }
    }
}

impl GifUiParams {
    /// The encoder parameters; a custom size is used only when enabled.
    pub fn gif_params(self) -> (params: GifParams)
        ensures
            params == (GifParams {
                frame_delay_ms: self.delay_ms,
                dimensions: if self.custom_size {
                    Some((self.width, self.height))
                } else {
                    None
                },
                playback: self.playback,
            }),
    {
        GifParams {
            frame_delay_ms: self.delay_ms,
            dimensions: if self.custom_size {
                Some((self.width, self.height))
            } else {
                None
            },
            playback: self.playback,
        }
    }
}

/// All page parameters.
#[derive(Debug, Clone, Copy, PartialEq, Eq, Structural)]
pub struct FeatureParams {
    pub edit: EditParams,
    pub collage: CollageParams,
    pub batch: BatchParams,
    pub slice: SliceParams,
    pub qr: QrParams,
    pub beautify: BeautifyUiParams,
    pub gif: GifUiParams,
}

impl Default for FeatureParams {
    fn default() -> (p: Self)
        ensures
            p.edit == EditParams::spec_default(),
            p.collage == (CollageParams {
                mode: CollageMode::Vertical,
                columns: 3,
                spacing: 0,
                background_index: 0,
            }),
            p.slice == (SliceParams { rows: 3, columns: 3 }),
            p.batch.percentage == 100,
            p.batch.longest_side == 1024,
            p.batch.format == OutputFormat::Png,
            !p.batch.resize_enabled,
            !p.batch.watermark_enabled,
            p.batch.resize_first,
            p.batch.watermark_opacity_percent == 50,
            p.gif.delay_ms == 200,
            p.gif.playback == Playback::Forward,
            p.qr.size == 512,
            p.beautify.radius == 24,
            p.beautify.padding == 48,
    {
        FeatureParams {
            edit: EditParams::default(),
            collage: CollageParams::default(),
            batch: BatchParams::default(),
            slice: SliceParams::default(),
            qr: QrParams::default(),
            beautify: BeautifyUiParams::default(),
            gif: GifUiParams::default(),
        }
    }
}

impl EditParams {
    /// The default edit parameters: 1024 × 1024 source and target, ratio locked.
    pub open spec fn spec_default() -> EditParams {
        EditParams {
            ratio_index: 0,
            width: 1024,
            height: 1024,
            source_width: 1024,
            source_height: 1024,
            aspect_locked: true,
            mode: ResizeMode::Pixels,
            percentage: 100,
            longest_side: 1024,
            prevent_enlarge: true,
        }
    }
}

/// The parameters after `action`, and what the page must refresh.
pub open spec fn spec_apply(p: FeatureParams, action: ParamAction) -> (FeatureParams, ParamEffect) {
    match action {
        ParamAction::SetEditRatio(index) => (
            FeatureParams {
                edit: EditParams {
                    ratio_index: if index < FREE_RATIO_INDEX {
                        index
                    } else {
                        FREE_RATIO_INDEX
                    },
                    ..p.edit
                },
                ..p
            },
            ParamEffect::CropRatioChanged,
        ),
        ParamAction::SetEditWidth(v) => (
            FeatureParams { edit: spec_with_width(p.edit, v), ..p },
            ParamEffect::ResizePreview,
        ),
        ParamAction::SetEditHeight(v) => (
            FeatureParams { edit: spec_with_height(p.edit, v), ..p },
            ParamEffect::ResizePreview,
        ),
        ParamAction::SetEditResizeMode(m) => (
            FeatureParams { edit: EditParams { mode: m, ..p.edit }, ..p },
            ParamEffect::ResizePreview,
        ),
        ParamAction::SetEditAspectLock(b) => (
            FeatureParams { edit: EditParams { aspect_locked: b, ..p.edit }, ..p },
            ParamEffect::ResizePreview,
        ),
        ParamAction::SetEditPercentage(v) => (
            FeatureParams {
                edit: EditParams { percentage: clamped(v as int, 1, 1000) as u32, ..p.edit },
                ..p
            },
            ParamEffect::ResizePreview,
        ),
        ParamAction::SetEditLongestSide(v) => (
            FeatureParams {
                edit: EditParams { longest_side: clamped(v as int, 16, 16384) as u32, ..p.edit },
                ..p
            },
            ParamEffect::ResizePreview,
        ),
        ParamAction::SetEditPreventEnlarge(b) => (
            FeatureParams { edit: EditParams { prevent_enlarge: b, ..p.edit }, ..p },
            ParamEffect::ResizePreview,
        ),
        ParamAction::SetCollageMode(m) => (
            FeatureParams { collage: CollageParams { mode: m, ..p.collage }, ..p },
            ParamEffect::Unchanged,
        ),
        ParamAction::SetCollageColumns(v) => (
            FeatureParams {
                collage: CollageParams { columns: clamped(v as int, 1, 20) as u32, ..p.collage },
                ..p
            },
            ParamEffect::Unchanged,
        ),
        ParamAction::SetCollageSpacing(v) => (
            FeatureParams {
                collage: CollageParams { spacing: clamped(v as int, 0, 256) as u32, ..p.collage },
                ..p
            },
            ParamEffect::Unchanged,
        ),
        ParamAction::SetCollageBackground(index) => (
            FeatureParams {
                collage: CollageParams {
                    background_index: if index < 3 {
                        index
                    } else {
                        3
                    },
                    ..p.collage
                },
                ..p
            },
            ParamEffect::Unchanged,
        ),
        ParamAction::SetBatchResizeEnabled(b) => (
            FeatureParams { batch: BatchParams { resize_enabled: b, ..p.batch }, ..p },
            ParamEffect::Unchanged,
        ),
        ParamAction::SetBatchResizeMode(m) => (
            FeatureParams { batch: BatchParams { resize_mode: m, ..p.batch }, ..p },
            ParamEffect::Unchanged,
        ),
        ParamAction::SetBatchAspectLock(b) => (
            FeatureParams { batch: BatchParams { aspect_locked: b, ..p.batch }, ..p },
            ParamEffect::Unchanged,
        ),
        ParamAction::SetBatchPercentage(v) => (
            FeatureParams {
                batch: BatchParams { percentage: clamped(v as int, 1, 800) as u32, ..p.batch },
                ..p
            },
            ParamEffect::Unchanged,
        ),
        ParamAction::SetBatchLongestSide(v) => (
            FeatureParams {
                batch: BatchParams { longest_side: clamped(v as int, 16, 16384) as u32, ..p.batch },
                ..p
            },
            ParamEffect::Unchanged,
        ),
        ParamAction::SetBatchWatermarkEnabled(b) => (
            FeatureParams { batch: BatchParams { watermark_enabled: b, ..p.batch }, ..p },
            ParamEffect::Unchanged,
        ),
        ParamAction::SetBatchResizeFirst(b) => (
            FeatureParams { batch: BatchParams { resize_first: b, ..p.batch }, ..p },
            ParamEffect::Unchanged,
        ),
        ParamAction::SetBatchPreventEnlarge(b) => (
            FeatureParams { batch: BatchParams { prevent_enlarge: b, ..p.batch }, ..p },
            ParamEffect::Unchanged,
        ),
        ParamAction::SetBatchFormat(f) => (
            FeatureParams { batch: BatchParams { format: f, ..p.batch }, ..p },
            ParamEffect::Unchanged,
        ),
        ParamAction::SetBatchPngCompression(c) => (
            FeatureParams { batch: BatchParams { png_compression: c, ..p.batch }, ..p },
            ParamEffect::Unchanged,
        ),
        ParamAction::SetBatchWidth(v) => (
            FeatureParams {
                batch: BatchParams { width: clamped(v as int, 16, 16384) as u32, ..p.batch },
                ..p
            },
            ParamEffect::Unchanged,
        ),
        ParamAction::SetBatchHeight(v) => (
            FeatureParams {
                batch: BatchParams { height: clamped(v as int, 16, 16384) as u32, ..p.batch },
                ..p
            },
            ParamEffect::Unchanged,
        ),
        ParamAction::SetBatchWatermarkSource(s) => (
            FeatureParams { batch: BatchParams { watermark_source: s, ..p.batch }, ..p },
            ParamEffect::Unchanged,
        ),
        ParamAction::SetBatchOpacity(v) => (
            FeatureParams {
                batch: BatchParams {
                    watermark_opacity_percent: clamped(v as int, 5, 100) as u8,
                    ..p.batch
                },
                ..p
            },
            ParamEffect::Unchanged,
        ),
        ParamAction::SetBatchPosition(pl) => (
            FeatureParams { batch: BatchParams { watermark_placement: pl, ..p.batch }, ..p },
            ParamEffect::Unchanged,
        ),
        ParamAction::SetSliceRows(v) => (
            FeatureParams {
                slice: SliceParams { rows: clamped(v as int, 1, 100) as u32, ..p.slice },
                ..p
            },
            ParamEffect::Unchanged,
        ),
        ParamAction::SetSliceColumns(v) => (
            FeatureParams {
                slice: SliceParams { columns: clamped(v as int, 1, 100) as u32, ..p.slice },
                ..p
            },
            ParamEffect::Unchanged,
        ),
        ParamAction::SetQrSize(v) => (
            FeatureParams { qr: QrParams { size: clamped(v as int, 128, 4096) as u32, ..p.qr }, ..p },
            ParamEffect::Unchanged,
        ),
        ParamAction::SetQrCorrection(c) => (
            FeatureParams { qr: QrParams { correction: c, ..p.qr }, ..p },
            ParamEffect::Unchanged,
        ),
        ParamAction::SetBeautifyRadius(v) => (
            FeatureParams {
                beautify: BeautifyUiParams { radius: clamped(v as int, 0, 512) as u32, ..p.beautify },
                ..p
            },
            ParamEffect::BeautifyPreview,
        ),
        ParamAction::SetBeautifyPadding(v) => (
            FeatureParams {
                beautify: BeautifyUiParams {
                    padding: clamped(v as int, 0, 1024) as u32,
                    ..p.beautify
                },
                ..p
            },
            ParamEffect::BeautifyPreview,
        ),
        ParamAction::SetBeautifyBackground(b) => (
            FeatureParams { beautify: BeautifyUiParams { background: b, ..p.beautify }, ..p },
            ParamEffect::BeautifyPreview,
        ),
        ParamAction::SetBeautifyBorder(v) => (
            FeatureParams {
                beautify: BeautifyUiParams {
                    border_width: clamped(v as int, 0, 32) as u32,
                    ..p.beautify
                },
                ..p
            },
            ParamEffect::BeautifyPreview,
        ),
        ParamAction::SetBeautifyShadow(b) => (
            FeatureParams { beautify: BeautifyUiParams { shadow: b, ..p.beautify }, ..p },
            ParamEffect::BeautifyPreview,
        ),
        ParamAction::SetGifDelay(v) => (
            FeatureParams {
                gif: GifUiParams { delay_ms: clamped(v as int, 100, 800) as u32, ..p.gif },
                ..p
            },
            ParamEffect::Unchanged,
        ),
        ParamAction::SetGifWidth(v) => (
            FeatureParams {
                gif: GifUiParams { width: clamped(v as int, 16, 65535) as u32, ..p.gif },
                ..p
            },
            ParamEffect::Unchanged,
        ),
        ParamAction::SetGifHeight(v) => (
            FeatureParams {
                gif: GifUiParams { height: clamped(v as int, 16, 65535) as u32, ..p.gif },
                ..p
            },
            ParamEffect::Unchanged,
        ),
        ParamAction::SetGifCustomSize(b) => (
            FeatureParams { gif: GifUiParams { custom_size: b, ..p.gif }, ..p },
            ParamEffect::Unchanged,
        ),
        ParamAction::SetGifPlayback(pb) => (
            FeatureParams { gif: GifUiParams { playback: pb, ..p.gif }, ..p },
            ParamEffect::Unchanged,
        ),
    }
}

impl FeatureParams {
    /// Applies one control change, keeping every number inside its supported range, and
    /// says what must be refreshed.
    #[verifier::rlimit(100)]
    #[verifier::spinoff_prover]
    pub fn apply(&mut self, action: ParamAction) -> (effect: ParamEffect)
        ensures
            (*final(self), effect) == spec_apply(*old(self), action),
    {
        match action {
            ParamAction::SetEditRatio(index) => {
                self.edit.ratio_index = if index < FREE_RATIO_INDEX {
                    index
                } else {
                    FREE_RATIO_INDEX
                };
                ParamEffect::CropRatioChanged
            },
            ParamAction::SetEditWidth(value) => {
                self.edit.set_width(value);
                ParamEffect::ResizePreview
            },
            ParamAction::SetEditHeight(value) => {
                self.edit.set_height(value);
                ParamEffect::ResizePreview
            },
            ParamAction::SetEditResizeMode(mode) => {
                self.edit.mode = mode;
                ParamEffect::ResizePreview
            },
            ParamAction::SetEditAspectLock(locked) => {
                self.edit.aspect_locked = locked;
                ParamEffect::ResizePreview
            },
            ParamAction::SetEditPercentage(value) => {
                self.edit.percentage = clamp_u32(value, 1, 1000);
                ParamEffect::ResizePreview
            },
            ParamAction::SetEditLongestSide(value) => {
                self.edit.longest_side = clamp_u32(value, 16, 16384);
                ParamEffect::ResizePreview
            },
            ParamAction::SetEditPreventEnlarge(enabled) => {
                self.edit.prevent_enlarge = enabled;
                ParamEffect::ResizePreview
            },
            ParamAction::SetCollageMode(mode) => {
                self.collage.mode = mode;
                ParamEffect::Unchanged
            },
            ParamAction::SetCollageColumns(value) => {
                self.collage.columns = clamp_u32(value, 1, 20);
                ParamEffect::Unchanged
            },
            ParamAction::SetCollageSpacing(value) => {
                self.collage.spacing = clamp_u32(value, 0, 256);
                ParamEffect::Unchanged
            },
            ParamAction::SetCollageBackground(index) => {
                self.collage.background_index = if index < 3 {
                    index
                } else {
                    3
                };
                ParamEffect::Unchanged
            },
            ParamAction::SetBatchResizeEnabled(enabled) => {
                self.batch.resize_enabled = enabled;
                ParamEffect::Unchanged
            },
            ParamAction::SetBatchResizeMode(mode) => {
                self.batch.resize_mode = mode;
                ParamEffect::Unchanged
            },
            ParamAction::SetBatchAspectLock(locked) => {
                self.batch.aspect_locked = locked;
                ParamEffect::Unchanged
            },
            ParamAction::SetBatchPercentage(value) => {
                self.batch.percentage = clamp_u32(value, 1, 800);
                ParamEffect::Unchanged
            },
            ParamAction::SetBatchLongestSide(value) => {
                self.batch.longest_side = clamp_u32(value, 16, 16384);
                ParamEffect::Unchanged
            },
            ParamAction::SetBatchWatermarkEnabled(enabled) => {
                self.batch.watermark_enabled = enabled;
                ParamEffect::Unchanged
            },
            ParamAction::SetBatchResizeFirst(resize_first) => {
                self.batch.resize_first = resize_first;
                ParamEffect::Unchanged
            },
            ParamAction::SetBatchPreventEnlarge(enabled) => {
                self.batch.prevent_enlarge = enabled;
                ParamEffect::Unchanged
            },
            ParamAction::SetBatchFormat(format) => {
                self.batch.format = format;
                ParamEffect::Unchanged
            },
            ParamAction::SetBatchPngCompression(compression) => {
                self.batch.png_compression = compression;
                ParamEffect::Unchanged
            },
            ParamAction::SetBatchWidth(value) => {
                self.batch.width = clamp_u32(value, 16, 16384);
                ParamEffect::Unchanged
            },
            ParamAction::SetBatchHeight(value) => {
                self.batch.height = clamp_u32(value, 16, 16384);
                ParamEffect::Unchanged
            },
            ParamAction::SetBatchWatermarkSource(source) => {
                self.batch.watermark_source = source;
                ParamEffect::Unchanged
            },
            ParamAction::SetBatchOpacity(value) => {
                self.batch.watermark_opacity_percent = if value < 5 {
                    5
                } else if value > 100 {
                    100
                } else {
                    value
                };
                ParamEffect::Unchanged
            },
            ParamAction::SetBatchPosition(placement) => {
                self.batch.watermark_placement = placement;
                ParamEffect::Unchanged
            },
            ParamAction::SetSliceRows(value) => {
                self.slice.rows = clamp_u32(value, 1, 100);
                ParamEffect::Unchanged
            },
            ParamAction::SetSliceColumns(value) => {
                self.slice.columns = clamp_u32(value, 1, 100);
                ParamEffect::Unchanged
            },
            ParamAction::SetQrSize(value) => {
                self.qr.size = clamp_u32(value, 128, 4096);
                ParamEffect::Unchanged
            },
            ParamAction::SetQrCorrection(correction) => {
                self.qr.correction = correction;
                ParamEffect::Unchanged
            },
            ParamAction::SetBeautifyRadius(value) => {
                self.beautify.radius = clamp_u32(value, 0, 512);
                ParamEffect::BeautifyPreview
            },
            ParamAction::SetBeautifyPadding(value) => {
                self.beautify.padding = clamp_u32(value, 0, 1024);
                ParamEffect::BeautifyPreview
            },
            ParamAction::SetBeautifyBackground(background) => {
                self.beautify.background = background;
                ParamEffect::BeautifyPreview
            },
            ParamAction::SetBeautifyBorder(value) => {
                self.beautify.border_width = clamp_u32(value, 0, 32);
                ParamEffect::BeautifyPreview
            },
            ParamAction::SetBeautifyShadow(enabled) => {
                self.beautify.shadow = enabled;
                ParamEffect::BeautifyPreview
            },
            ParamAction::SetGifDelay(value) => {
                self.gif.delay_ms = clamp_u32(value, 100, 800);
                ParamEffect::Unchanged
            },
            ParamAction::SetGifWidth(value) => {
                self.gif.width = clamp_u32(value, 16, 65535);
                ParamEffect::Unchanged
            },
            ParamAction::SetGifHeight(value) => {
                self.gif.height = clamp_u32(value, 16, 65535);
                ParamEffect::Unchanged
            },
            ParamAction::SetGifCustomSize(custom) => {
                self.gif.custom_size = custom;
                ParamEffect::Unchanged
            },
            ParamAction::SetGifPlayback(playback) => {
                self.gif.playback = playback;
                ParamEffect::Unchanged
            },
        }
    }
}

/// Every numeric control stays inside its range whatever value is requested: after any
/// action, each number that action sets lies within the bounds its control allows.
pub proof fn law_controls_stay_in_range(p: FeatureParams, action: ParamAction)
    ensures
        ({
            let q = spec_apply(p, action).0;
            &&& action is SetEditPercentage ==> 1 <= q.edit.percentage <= 1000
            &&& action is SetEditLongestSide ==> 16 <= q.edit.longest_side <= 16384
            &&& action is SetEditWidth ==> 16 <= q.edit.width <= 16384
            &&& action is SetEditHeight ==> 16 <= q.edit.height <= 16384
            &&& action is SetEditRatio ==> q.edit.ratio_index <= FREE_RATIO_INDEX
            &&& action is SetCollageColumns ==> 1 <= q.collage.columns <= 20
            &&& action is SetCollageSpacing ==> q.collage.spacing <= 256
            &&& action is SetCollageBackground ==> q.collage.background_index <= 3
            &&& action is SetBatchPercentage ==> 1 <= q.batch.percentage <= 800
            &&& action is SetBatchLongestSide ==> 16 <= q.batch.longest_side <= 16384
            &&& action is SetBatchWidth ==> 16 <= q.batch.width <= 16384
            &&& action is SetBatchHeight ==> 16 <= q.batch.height <= 16384
            &&& action is SetBatchOpacity ==> 5 <= q.batch.watermark_opacity_percent <= 100
            &&& action is SetSliceRows ==> 1 <= q.slice.rows <= 100
            &&& action is SetSliceColumns ==> 1 <= q.slice.columns <= 100
            &&& action is SetQrSize ==> 128 <= q.qr.size <= 4096
            &&& action is SetBeautifyRadius ==> q.beautify.radius <= 512
            &&& action is SetBeautifyPadding ==> q.beautify.padding <= 1024
            &&& action is SetBeautifyBorder ==> q.beautify.border_width <= 32
            &&& action is SetGifDelay ==> 100 <= q.gif.delay_ms <= 800
            &&& action is SetGifWidth ==> 16 <= q.gif.width <= 65535
            &&& action is SetGifHeight ==> 16 <= q.gif.height <= 65535
        }),
{
}

/// An action of the edit page changes only the field it names, whatever value it
/// carries: every other page, and every other field of its own page, keeps its value.
/// A width or height change also sets the other dimension when the ratio is locked;
/// unlocked, that dimension is kept too.
pub proof fn law_edit_actions_are_independent(p: FeatureParams)
    ensures
        forall|v: usize| #[trigger] spec_apply(p, ParamAction::SetEditRatio(v)).0 == (FeatureParams { edit: EditParams { ratio_index: spec_apply(p, ParamAction::SetEditRatio(v)).0.edit.ratio_index, ..p.edit }, ..p }),
        forall|v: u32| #[trigger] spec_apply(p, ParamAction::SetEditWidth(v)).0 == (FeatureParams { edit: EditParams { width: spec_apply(p, ParamAction::SetEditWidth(v)).0.edit.width, height: spec_apply(p, ParamAction::SetEditWidth(v)).0.edit.height, ..p.edit }, ..p }),
        forall|v: u32| #[trigger] spec_apply(p, ParamAction::SetEditHeight(v)).0 == (FeatureParams { edit: EditParams { width: spec_apply(p, ParamAction::SetEditHeight(v)).0.edit.width, height: spec_apply(p, ParamAction::SetEditHeight(v)).0.edit.height, ..p.edit }, ..p }),
        forall|v: ResizeMode| #[trigger] spec_apply(p, ParamAction::SetEditResizeMode(v)).0 == (FeatureParams { edit: EditParams { mode: spec_apply(p, ParamAction::SetEditResizeMode(v)).0.edit.mode, ..p.edit }, ..p }),
        forall|v: bool| #[trigger] spec_apply(p, ParamAction::SetEditAspectLock(v)).0 == (FeatureParams { edit: EditParams { aspect_locked: spec_apply(p, ParamAction::SetEditAspectLock(v)).0.edit.aspect_locked, ..p.edit }, ..p }),
        forall|v: u32| #[trigger] spec_apply(p, ParamAction::SetEditPercentage(v)).0 == (FeatureParams { edit: EditParams { percentage: spec_apply(p, ParamAction::SetEditPercentage(v)).0.edit.percentage, ..p.edit }, ..p }),
        forall|v: u32| #[trigger] spec_apply(p, ParamAction::SetEditLongestSide(v)).0 == (FeatureParams { edit: EditParams { longest_side: spec_apply(p, ParamAction::SetEditLongestSide(v)).0.edit.longest_side, ..p.edit }, ..p }),
        forall|v: bool| #[trigger] spec_apply(p, ParamAction::SetEditPreventEnlarge(v)).0 == (FeatureParams { edit: EditParams { prevent_enlarge: spec_apply(p, ParamAction::SetEditPreventEnlarge(v)).0.edit.prevent_enlarge, ..p.edit }, ..p }),
        !p.edit.aspect_locked ==> forall|v: u32| #[trigger] spec_apply(p, ParamAction::SetEditWidth(v)).0.edit.height == p.edit.height,
        !p.edit.aspect_locked ==> forall|v: u32| #[trigger] spec_apply(p, ParamAction::SetEditHeight(v)).0.edit.width == p.edit.width,
{
}

/// An action of the collage page changes only the field it names, whatever value it
/// carries: every other page, and every other field of its own page, keeps its value.
pub proof fn law_collage_actions_are_independent(p: FeatureParams)
    ensures
        forall|v: CollageMode| #[trigger] spec_apply(p, ParamAction::SetCollageMode(v)).0 == (FeatureParams { collage: CollageParams { mode: spec_apply(p, ParamAction::SetCollageMode(v)).0.collage.mode, ..p.collage }, ..p }),
        forall|v: u32| #[trigger] spec_apply(p, ParamAction::SetCollageColumns(v)).0 == (FeatureParams { collage: CollageParams { columns: spec_apply(p, ParamAction::SetCollageColumns(v)).0.collage.columns, ..p.collage }, ..p }),
        forall|v: u32| #[trigger] spec_apply(p, ParamAction::SetCollageSpacing(v)).0 == (FeatureParams { collage: CollageParams { spacing: spec_apply(p, ParamAction::SetCollageSpacing(v)).0.collage.spacing, ..p.collage }, ..p }),
        forall|v: usize| #[trigger] spec_apply(p, ParamAction::SetCollageBackground(v)).0 == (FeatureParams { collage: CollageParams { background_index: spec_apply(p, ParamAction::SetCollageBackground(v)).0.collage.background_index, ..p.collage }, ..p }),
{
}

/// An action of the slice page changes only the field it names, whatever value it
/// carries: every other page, and every other field of its own page, keeps its value.
pub proof fn law_slice_actions_are_independent(p: FeatureParams)
    ensures
        forall|v: u32| #[trigger] spec_apply(p, ParamAction::SetSliceRows(v)).0 == (FeatureParams { slice: SliceParams { rows: spec_apply(p, ParamAction::SetSliceRows(v)).0.slice.rows, ..p.slice }, ..p }),
        forall|v: u32| #[trigger] spec_apply(p, ParamAction::SetSliceColumns(v)).0 == (FeatureParams { slice: SliceParams { columns: spec_apply(p, ParamAction::SetSliceColumns(v)).0.slice.columns, ..p.slice }, ..p }),
{
}

/// An action of the QR code page changes only the field it names, whatever value it
/// carries: every other page, and every other field of its own page, keeps its value.
pub proof fn law_qr_actions_are_independent(p: FeatureParams)
    ensures
        forall|v: u32| #[trigger] spec_apply(p, ParamAction::SetQrSize(v)).0 == (FeatureParams { qr: QrParams { size: spec_apply(p, ParamAction::SetQrSize(v)).0.qr.size, ..p.qr }, ..p }),
        forall|v: ErrorCorrection| #[trigger] spec_apply(p, ParamAction::SetQrCorrection(v)).0 == (FeatureParams { qr: QrParams { correction: spec_apply(p, ParamAction::SetQrCorrection(v)).0.qr.correction, ..p.qr }, ..p }),
{
}

proof fn lemma_set_beautify_radius_independent(p: FeatureParams, v: u32)
    ensures
        spec_apply(p, ParamAction::SetBeautifyRadius(v)).0 == (FeatureParams { beautify: BeautifyUiParams { radius: spec_apply(p, ParamAction::SetBeautifyRadius(v)).0.beautify.radius, ..p.beautify }, ..p }),
{
}

proof fn lemma_set_beautify_padding_independent(p: FeatureParams, v: u32)
    ensures
        spec_apply(p, ParamAction::SetBeautifyPadding(v)).0 == (FeatureParams { beautify: BeautifyUiParams { padding: spec_apply(p, ParamAction::SetBeautifyPadding(v)).0.beautify.padding, ..p.beautify }, ..p }),
{
}

proof fn lemma_set_beautify_background_independent(p: FeatureParams, v: BeautifyBackground)
    ensures
        spec_apply(p, ParamAction::SetBeautifyBackground(v)).0 == (FeatureParams { beautify: BeautifyUiParams { background: spec_apply(p, ParamAction::SetBeautifyBackground(v)).0.beautify.background, ..p.beautify }, ..p }),
{
}

proof fn lemma_set_beautify_border_independent(p: FeatureParams, v: u32)
    ensures
        spec_apply(p, ParamAction::SetBeautifyBorder(v)).0 == (FeatureParams { beautify: BeautifyUiParams { border_width: spec_apply(p, ParamAction::SetBeautifyBorder(v)).0.beautify.border_width, ..p.beautify }, ..p }),
{
}

proof fn lemma_set_beautify_shadow_independent(p: FeatureParams, v: bool)
    ensures
        spec_apply(p, ParamAction::SetBeautifyShadow(v)).0 == (FeatureParams { beautify: BeautifyUiParams { shadow: spec_apply(p, ParamAction::SetBeautifyShadow(v)).0.beautify.shadow, ..p.beautify }, ..p }),
{
}

/// An action of the beautify page changes only the field it names, whatever value it
/// carries: every other page, and every other field of its own page, keeps its value.
pub proof fn law_beautify_actions_are_independent(p: FeatureParams)
    ensures
        forall|v: u32| #[trigger] spec_apply(p, ParamAction::SetBeautifyRadius(v)).0 == (FeatureParams { beautify: BeautifyUiParams { radius: spec_apply(p, ParamAction::SetBeautifyRadius(v)).0.beautify.radius, ..p.beautify }, ..p }),
        forall|v: u32| #[trigger] spec_apply(p, ParamAction::SetBeautifyPadding(v)).0 == (FeatureParams { beautify: BeautifyUiParams { padding: spec_apply(p, ParamAction::SetBeautifyPadding(v)).0.beautify.padding, ..p.beautify }, ..p }),
        forall|v: BeautifyBackground| #[trigger] spec_apply(p, ParamAction::SetBeautifyBackground(v)).0 == (FeatureParams { beautify: BeautifyUiParams { background: spec_apply(p, ParamAction::SetBeautifyBackground(v)).0.beautify.background, ..p.beautify }, ..p }),
        forall|v: u32| #[trigger] spec_apply(p, ParamAction::SetBeautifyBorder(v)).0 == (FeatureParams { beautify: BeautifyUiParams { border_width: spec_apply(p, ParamAction::SetBeautifyBorder(v)).0.beautify.border_width, ..p.beautify }, ..p }),
        forall|v: bool| #[trigger] spec_apply(p, ParamAction::SetBeautifyShadow(v)).0 == (FeatureParams { beautify: BeautifyUiParams { shadow: spec_apply(p, ParamAction::SetBeautifyShadow(v)).0.beautify.shadow, ..p.beautify }, ..p }),
{
    assert forall|v: u32| #[trigger] spec_apply(p, ParamAction::SetBeautifyRadius(v)).0 == (FeatureParams { beautify: BeautifyUiParams { radius: spec_apply(p, ParamAction::SetBeautifyRadius(v)).0.beautify.radius, ..p.beautify }, ..p }) by {
        lemma_set_beautify_radius_independent(p, v);
    }
    assert forall|v: u32| #[trigger] spec_apply(p, ParamAction::SetBeautifyPadding(v)).0 == (FeatureParams { beautify: BeautifyUiParams { padding: spec_apply(p, ParamAction::SetBeautifyPadding(v)).0.beautify.padding, ..p.beautify }, ..p }) by {
        lemma_set_beautify_padding_independent(p, v);
    }
    assert forall|v: BeautifyBackground| #[trigger] spec_apply(p, ParamAction::SetBeautifyBackground(v)).0 == (FeatureParams { beautify: BeautifyUiParams { background: spec_apply(p, ParamAction::SetBeautifyBackground(v)).0.beautify.background, ..p.beautify }, ..p }) by {
        lemma_set_beautify_background_independent(p, v);
    }
    assert forall|v: u32| #[trigger] spec_apply(p, ParamAction::SetBeautifyBorder(v)).0 == (FeatureParams { beautify: BeautifyUiParams { border_width: spec_apply(p, ParamAction::SetBeautifyBorder(v)).0.beautify.border_width, ..p.beautify }, ..p }) by {
        lemma_set_beautify_border_independent(p, v);
    }
    assert forall|v: bool| #[trigger] spec_apply(p, ParamAction::SetBeautifyShadow(v)).0 == (FeatureParams { beautify: BeautifyUiParams { shadow: spec_apply(p, ParamAction::SetBeautifyShadow(v)).0.beautify.shadow, ..p.beautify }, ..p }) by {
        lemma_set_beautify_shadow_independent(p, v);
    }
}

/// What an action asks the page to refresh: the crop frame after a ratio change, the
/// resize preview after any other edit-page change, the beautify preview after a beautify
/// change, and nothing otherwise.
pub proof fn law_action_effects(p: FeatureParams, action: ParamAction)
    ensures
        (spec_apply(p, action).1 == ParamEffect::CropRatioChanged) <==> action is SetEditRatio,
        (spec_apply(p, action).1 == ParamEffect::ResizePreview) <==> (action is SetEditWidth || action is SetEditHeight
            || action is SetEditResizeMode || action is SetEditAspectLock || action is SetEditPercentage
            || action is SetEditLongestSide || action is SetEditPreventEnlarge),
        (spec_apply(p, action).1 == ParamEffect::BeautifyPreview) <==> (action is SetBeautifyRadius
            || action is SetBeautifyPadding || action is SetBeautifyBackground || action is SetBeautifyBorder
            || action is SetBeautifyShadow),
{
}

/// With the ratio locked and prevent-enlarge off, the pixel-mode output of a width change
/// is the requested width (within range) and the proportional height.
pub proof fn law_locked_width_keeps_ratio(e: EditParams, width: u32)
    requires
        e.aspect_locked,
        e.mode == ResizeMode::Pixels,
        !e.prevent_enlarge,
    ensures
        spec_output_dimensions(spec_with_width(e, width)) == (
            clamped(width as int, 16, 16384) as u32,
            proportional(
                clamped(width as int, 16, 16384) as nat,
                e.source_height as nat,
                e.source_width as nat,
            ) as u32,
        ),
{
}

/// A numeric text field of the parameter panel.
#[derive(Debug, Clone, Copy, PartialEq, Eq, Structural)]
pub enum NumericField {
    EditWidth,
    EditHeight,
    CollageColumns,
    CollageSpacing,
    BatchWidth,
    BatchHeight,
    BatchOpacity,
    SliceRows,
    SliceColumns,
    QrSize,
    BeautifyRadius,
    BeautifyPadding,
    BeautifyBorder,
    GifDelay,
    GifWidth,
    GifHeight,
}

/// The step of a field's increment buttons.
pub open spec fn spec_field_step(field: NumericField) -> u32 {
    match field {
        NumericField::EditWidth | NumericField::EditHeight | NumericField::BatchWidth
        | NumericField::BatchHeight | NumericField::GifWidth | NumericField::GifHeight => 10,
        NumericField::QrSize => 64,
        NumericField::CollageSpacing | NumericField::BeautifyRadius => 4,
        NumericField::BeautifyPadding => 8,
        NumericField::GifDelay => 50,
        NumericField::BatchOpacity => 5,
        NumericField::CollageColumns | NumericField::SliceRows | NumericField::SliceColumns
        | NumericField::BeautifyBorder => 1,
    }
}

/// The value a field shows.
pub open spec fn spec_field_value(field: NumericField, params: FeatureParams) -> u32 {
    match field {
        NumericField::EditWidth => params.edit.width,
        NumericField::EditHeight => params.edit.height,
        NumericField::CollageColumns => params.collage.columns,
        NumericField::CollageSpacing => params.collage.spacing,
        NumericField::BatchWidth => params.batch.width,
        NumericField::BatchHeight => params.batch.height,
        NumericField::BatchOpacity => params.batch.watermark_opacity_percent as u32,
        NumericField::SliceRows => params.slice.rows,
        NumericField::SliceColumns => params.slice.columns,
        NumericField::QrSize => params.qr.size,
        NumericField::BeautifyRadius => params.beautify.radius,
        NumericField::BeautifyPadding => params.beautify.padding,
        NumericField::BeautifyBorder => params.beautify.border_width,
        NumericField::GifDelay => params.gif.delay_ms,
        NumericField::GifWidth => params.gif.width,
        NumericField::GifHeight => params.gif.height,
    }
}

/// The change a typed value asks for (the opacity keeps its low byte).
pub open spec fn spec_field_action(field: NumericField, value: u32) -> ParamAction {
    match field {
        NumericField::EditWidth => ParamAction::SetEditWidth(value),
        NumericField::EditHeight => ParamAction::SetEditHeight(value),
        NumericField::CollageColumns => ParamAction::SetCollageColumns(value),
        NumericField::CollageSpacing => ParamAction::SetCollageSpacing(value),
        NumericField::BatchWidth => ParamAction::SetBatchWidth(value),
        NumericField::BatchHeight => ParamAction::SetBatchHeight(value),
        NumericField::BatchOpacity => ParamAction::SetBatchOpacity(value as u8),
        NumericField::SliceRows => ParamAction::SetSliceRows(value),
        NumericField::SliceColumns => ParamAction::SetSliceColumns(value),
        NumericField::QrSize => ParamAction::SetQrSize(value),
        NumericField::BeautifyRadius => ParamAction::SetBeautifyRadius(value),
        NumericField::BeautifyPadding => ParamAction::SetBeautifyPadding(value),
        NumericField::BeautifyBorder => ParamAction::SetBeautifyBorder(value),
        NumericField::GifDelay => ParamAction::SetGifDelay(value),
        NumericField::GifWidth => ParamAction::SetGifWidth(value),
        NumericField::GifHeight => ParamAction::SetGifHeight(value),
    }
}

impl NumericField {
    /// Every field, in panel order.
    pub fn all() -> (fields: [NumericField; 16])
        ensures
            fields@ == seq![NumericField::EditWidth, NumericField::EditHeight, NumericField::CollageColumns, NumericField::CollageSpacing, NumericField::BatchWidth, NumericField::BatchHeight, NumericField::BatchOpacity, NumericField::SliceRows, NumericField::SliceColumns, NumericField::QrSize, NumericField::BeautifyRadius, NumericField::BeautifyPadding, NumericField::BeautifyBorder, NumericField::GifDelay, NumericField::GifWidth, NumericField::GifHeight],
    {
        let fields = [NumericField::EditWidth, NumericField::EditHeight, NumericField::CollageColumns, NumericField::CollageSpacing, NumericField::BatchWidth, NumericField::BatchHeight, NumericField::BatchOpacity, NumericField::SliceRows, NumericField::SliceColumns, NumericField::QrSize, NumericField::BeautifyRadius, NumericField::BeautifyPadding, NumericField::BeautifyBorder, NumericField::GifDelay, NumericField::GifWidth, NumericField::GifHeight];
        assert(fields@ =~= seq![NumericField::EditWidth, NumericField::EditHeight, NumericField::CollageColumns, NumericField::CollageSpacing, NumericField::BatchWidth, NumericField::BatchHeight, NumericField::BatchOpacity, NumericField::SliceRows, NumericField::SliceColumns, NumericField::QrSize, NumericField::BeautifyRadius, NumericField::BeautifyPadding, NumericField::BeautifyBorder, NumericField::GifDelay, NumericField::GifWidth, NumericField::GifHeight]);
        fields
    }

    /// The step of the field's increment buttons.
    pub fn step(self) -> (step: u32)
        ensures
            step == spec_field_step(self),
    {
        match self {
            NumericField::EditWidth | NumericField::EditHeight | NumericField::BatchWidth
            | NumericField::BatchHeight | NumericField::GifWidth | NumericField::GifHeight => 10,
            NumericField::QrSize => 64,
            NumericField::CollageSpacing | NumericField::BeautifyRadius => 4,
            NumericField::BeautifyPadding => 8,
            NumericField::GifDelay => 50,
            NumericField::BatchOpacity => 5,
            NumericField::CollageColumns | NumericField::SliceRows | NumericField::SliceColumns
            | NumericField::BeautifyBorder => 1,
        }
    }

    /// The value the field shows for `params`.
    pub fn current(self, params: &FeatureParams) -> (value: u32)
        ensures
            value == spec_field_value(self, *params),
    {
        match self {
            NumericField::EditWidth => params.edit.width,
            NumericField::EditHeight => params.edit.height,
            NumericField::CollageColumns => params.collage.columns,
            NumericField::CollageSpacing => params.collage.spacing,
            NumericField::BatchWidth => params.batch.width,
            NumericField::BatchHeight => params.batch.height,
            NumericField::BatchOpacity => params.batch.watermark_opacity_percent as u32,
            NumericField::SliceRows => params.slice.rows,
            NumericField::SliceColumns => params.slice.columns,
            NumericField::QrSize => params.qr.size,
            NumericField::BeautifyRadius => params.beautify.radius,
            NumericField::BeautifyPadding => params.beautify.padding,
            NumericField::BeautifyBorder => params.beautify.border_width,
            NumericField::GifDelay => params.gif.delay_ms,
            NumericField::GifWidth => params.gif.width,
            NumericField::GifHeight => params.gif.height,
        }
    }

    /// The change a typed `value` asks for.
    pub fn action(self, value: u32) -> (action: ParamAction)
        ensures
            action == spec_field_action(self, value),
    {
        match self {
            NumericField::EditWidth => ParamAction::SetEditWidth(value),
            NumericField::EditHeight => ParamAction::SetEditHeight(value),
            NumericField::CollageColumns => ParamAction::SetCollageColumns(value),
            NumericField::CollageSpacing => ParamAction::SetCollageSpacing(value),
            NumericField::BatchWidth => ParamAction::SetBatchWidth(value),
            NumericField::BatchHeight => ParamAction::SetBatchHeight(value),
            NumericField::BatchOpacity => ParamAction::SetBatchOpacity(value as u8),
            NumericField::SliceRows => ParamAction::SetSliceRows(value),
            NumericField::SliceColumns => ParamAction::SetSliceColumns(value),
            NumericField::QrSize => ParamAction::SetQrSize(value),
            NumericField::BeautifyRadius => ParamAction::SetBeautifyRadius(value),
            NumericField::BeautifyPadding => ParamAction::SetBeautifyPadding(value),
            NumericField::BeautifyBorder => ParamAction::SetBeautifyBorder(value),
            NumericField::GifDelay => ParamAction::SetGifDelay(value),
            NumericField::GifWidth => ParamAction::SetGifWidth(value),
            NumericField::GifHeight => ParamAction::SetGifHeight(value),
        }
    }
}

} // verus!
