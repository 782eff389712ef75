//! Small decisions of the main window: which controls a feature shows, default export
//! settings, labels of choices, exact AI output sizes and readable file sizes.

use vstd::prelude::*;

use crate::ai::types::{GenerationQuality, ProviderId};
use crate::config::AppConfig;
use crate::format::{EncodeSettings, OutputFormat, PngCompression};
use crate::presets::IndustryTool;
use crate::section::{spec_section, Feature, Section};
use crate::text::{
    chars_equal, chars_of, decimal, decimal_padded2, digit_char, push_char, push_decimal,
    push_decimal_padded2, push_str, seq_starts_with, starts_with_str,
};

verus! {

/// Features whose page offers a free-text prompt.
pub open spec fn spec_shows_free_prompt(f: Feature) -> bool {
    f is TextToImage || f is ImageEdit || f is CoverFactory || f is ArticleIllustration
        || f is Poster || f is PromotionalPoster
}

/// Whether the feature's page offers a free-text prompt.
pub fn shows_free_prompt(feature: Feature) -> (shows: bool)
    ensures
        shows == spec_shows_free_prompt(feature),
{
    matches!(
        feature,
        Feature::TextToImage | Feature::ImageEdit | Feature::CoverFactory
            | Feature::ArticleIllustration | Feature::Poster | Feature::PromotionalPoster
    )
}

/// Features whose output size is fixed, so the ratio control is hidden.
pub open spec fn spec_hides_ai_ratio(f: Feature) -> bool {
    f is Poster || f is IdPhoto || f is AvatarStudio || f is MemeGenerator
        || f is PromotionalPoster || f is PlatformAdaptation
}

/// Whether the feature's page hides the ratio control.
pub fn hides_ai_ratio(feature: Feature) -> (hides: bool)
    ensures
        hides == spec_hides_ai_ratio(feature),
{
    matches!(
        feature,
        Feature::Poster | Feature::IdPhoto | Feature::AvatarStudio | Feature::MemeGenerator
            | Feature::PromotionalPoster | Feature::PlatformAdaptation
    )
}

/// The navigation section highlighted for a feature (the feature's own section).
pub fn section_for_feature(feature: Feature) -> (section: Section)
    ensures
        section == spec_section(feature),
{
    feature.section()
}

/// The provider named in the settings: `nano-banana`, `openai`, anything else Seedream.
pub fn provider_from_config(value: &str) -> (provider: ProviderId)
    ensures
        provider == (if value@ == "nano-banana"@ {
            ProviderId::NanoBanana
        } else if value@ == "openai"@ {
            ProviderId::OpenAi
        } else {
            ProviderId::Seedream
        }),
{
    let chars = chars_of(value);
    if chars_equal(&chars, "nano-banana") {
        ProviderId::NanoBanana
    } else if chars_equal(&chars, "openai") {
        ProviderId::OpenAi
    } else {
        ProviderId::Seedream
    }
}

/// Message key of a provider's label.
pub fn provider_label_key(provider: ProviderId) -> (key: &'static str)
    ensures
        key@ == (match provider {
            ProviderId::Seedream => "ai.provider.seedream"@,
            ProviderId::NanoBanana => "ai.provider.nano_banana"@,
            ProviderId::OpenAi => "ai.provider.openai"@,
        }),
{
    match provider {
        ProviderId::Seedream => "ai.provider.seedream",
        ProviderId::NanoBanana => "ai.provider.nano_banana",
        ProviderId::OpenAi => "ai.provider.openai",
    }
}

/// Message key of a quality's label.
pub fn quality_label_key(quality: GenerationQuality) -> (key: &'static str)
    ensures
        key@ == (match quality {
            GenerationQuality::Low => "ai.quality.low"@,
            GenerationQuality::Medium => "ai.quality.medium"@,
            GenerationQuality::High => "ai.quality.high"@,
        }),
{
    match quality {
        GenerationQuality::Low => "ai.quality.low",
        GenerationQuality::Medium => "ai.quality.medium",
        GenerationQuality::High => "ai.quality.high",
    }
}

/// The industry tool behind a feature.
pub open spec fn spec_industry_tool(f: Feature) -> Option<IndustryTool> {
    match f {
        Feature::OldPhotoRestoration => Some(IndustryTool::OldPhotoRestoration),
        Feature::IdPhoto => Some(IndustryTool::IdPhoto),
        Feature::AvatarStudio => Some(IndustryTool::AvatarStudio),
        Feature::MemeGenerator => Some(IndustryTool::MemeGenerator),
        Feature::AiPortrait => Some(IndustryTool::AiPortrait),
        Feature::ModelTryOn => Some(IndustryTool::ModelTryOn),
        Feature::ProductRecolor => Some(IndustryTool::ProductRecolor),
        Feature::PromotionalPoster => Some(IndustryTool::PromotionalPoster),
        Feature::PlatformAdaptation => Some(IndustryTool::PlatformAdaptation),
        Feature::CoverFactory => Some(IndustryTool::CoverFactory),
        Feature::ArticleIllustration => Some(IndustryTool::ArticleIllustration),
        Feature::FoodEnhancement => Some(IndustryTool::FoodEnhancement),
        Feature::InteriorPreview => Some(IndustryTool::InteriorPreview),
        _ => None,
    }
}

/// The industry tool behind a feature, if any.
pub fn industry_tool(feature: Feature) -> (tool: Option<IndustryTool>)
    ensures
        tool == spec_industry_tool(feature),
{
    match feature {
        Feature::OldPhotoRestoration => Some(IndustryTool::OldPhotoRestoration),
        Feature::IdPhoto => Some(IndustryTool::IdPhoto),
        Feature::AvatarStudio => Some(IndustryTool::AvatarStudio),
        Feature::MemeGenerator => Some(IndustryTool::MemeGenerator),
        Feature::AiPortrait => Some(IndustryTool::AiPortrait),
        Feature::ModelTryOn => Some(IndustryTool::ModelTryOn),
        Feature::ProductRecolor => Some(IndustryTool::ProductRecolor),
        Feature::PromotionalPoster => Some(IndustryTool::PromotionalPoster),
        Feature::PlatformAdaptation => Some(IndustryTool::PlatformAdaptation),
        Feature::CoverFactory => Some(IndustryTool::CoverFactory),
        Feature::ArticleIllustration => Some(IndustryTool::ArticleIllustration),
        Feature::FoodEnhancement => Some(IndustryTool::FoodEnhancement),
        Feature::InteriorPreview => Some(IndustryTool::InteriorPreview),
        _ => None,
    }
}

/// Width of a designed poster.
pub const POSTER_WIDTH: u32 = 1080;

/// Height of a designed poster.
pub const POSTER_HEIGHT: u32 = 1920;

/// The exact size an AI result must have for the feature and tier, if fixed.
pub open spec fn spec_exact_output_dimensions(f: Feature, tier: Seq<char>) -> Option<(u32, u32)> {
    match f {
        Feature::Poster => Some((POSTER_WIDTH, POSTER_HEIGHT)),
        Feature::IdPhoto => if seq_starts_with(tier, "one-inch-"@) {
            Some((295u32, 413u32))
        } else if seq_starts_with(tier, "two-inch-"@) {
            Some((413u32, 579u32))
        } else if seq_starts_with(tier, "visa-"@) {
            Some((600u32, 600u32))
        } else {
            None
        },
        Feature::AvatarStudio | Feature::MemeGenerator => Some((1024u32, 1024u32)),
        Feature::PromotionalPoster => Some((1200u32, 1600u32)),
        Feature::PlatformAdaptation => if tier == "taobao-main-800x800"@ {
            Some((800u32, 800u32))
        } else if tier == "xiaohongshu-1242x1656"@ {
            Some((1242u32, 1656u32))
        } else if tier == "wechat-cover-900x383"@ {
            Some((900u32, 383u32))
        } else if tier == "douyin-1080x1920"@ {
            Some((1080u32, 1920u32))
        } else {
            None
        },
        _ => None,
    }
}

/// The exact size an AI result is brought to for `feature` and `tier_id`, when the
/// business format fixes one.
pub fn exact_output_dimensions(feature: Feature, tier_id: &str) -> (dims: Option<(u32, u32)>)
    ensures
        dims == spec_exact_output_dimensions(feature, tier_id@),
{
    match feature {
        Feature::Poster => Some((POSTER_WIDTH, POSTER_HEIGHT)),
        Feature::IdPhoto => {
            if starts_with_str(tier_id, "one-inch-") {
                Some((295, 413))
            } else if starts_with_str(tier_id, "two-inch-") {
                Some((413, 579))
            } else if starts_with_str(tier_id, "visa-") {
                Some((600, 600))
            } else {
                None
            }
        },
        Feature::AvatarStudio | Feature::MemeGenerator => Some((1024, 1024)),
        Feature::PromotionalPoster => Some((1200, 1600)),
        Feature::PlatformAdaptation => {
            let chars = chars_of(tier_id);
            if chars_equal(&chars, "taobao-main-800x800") {
                Some((800, 800))
            } else if chars_equal(&chars, "xiaohongshu-1242x1656") {
                Some((1242, 1656))
            } else if chars_equal(&chars, "wechat-cover-900x383") {
                Some((900, 383))
            } else if chars_equal(&chars, "douyin-1080x1920") {
                Some((1080, 1920))
            } else {
                None
            }
        },
        _ => None,
    }
}

/// The encoding settings exports use by default: the configured format with its PNG
/// compression or lossy quality.
pub fn default_export_settings(config: &AppConfig) -> (settings: EncodeSettings)
    ensures
        settings == (match config.default_export_format {
            OutputFormat::Png => EncodeSettings::Png { compression: config.default_png_compression },
            OutputFormat::Jpeg => EncodeSettings::Jpeg { quality: config.default_export_quality },
            OutputFormat::Webp => EncodeSettings::WebpLossy {
                quality: config.default_export_quality,
            },
        }),
{
    match config.default_export_format {
        OutputFormat::Png => EncodeSettings::Png { compression: config.default_png_compression },
        OutputFormat::Jpeg => EncodeSettings::Jpeg { quality: config.default_export_quality },
        OutputFormat::Webp => EncodeSettings::WebpLossy { quality: config.default_export_quality },
    }
}

/// The page opened for files given at start-up: batch for several, edit otherwise.
pub fn initial_paths_feature(path_count: usize) -> (feature: Feature)
    ensures
        feature == (if path_count > 1 {
            Feature::Batch
        } else {
            Feature::Edit
        }),
{
    if path_count > 1 {
        Feature::Batch
    } else {
        Feature::Edit
    }
}

/// The next PNG compression in the cycle fast → default → best → fast.
pub fn next_png_compression(compression: PngCompression) -> (next: PngCompression)
    ensures
        next == (match compression {
            PngCompression::Fast => PngCompression::Default,
            PngCompression::Default => PngCompression::Best,
            PngCompression::Best => PngCompression::Fast,
        }),
{
    match compression {
        PngCompression::Fast => PngCompression::Default,
        PngCompression::Default => PngCompression::Best,
        PngCompression::Best => PngCompression::Fast,
    }
}

/// Position of a format in the export-format list (PNG, JPEG, WebP).
pub fn export_format_index(format: OutputFormat) -> (index: usize)
    ensures
        index == (match format {
            OutputFormat::Png => 0usize,
            OutputFormat::Jpeg => 1usize,
            OutputFormat::Webp => 2usize,
        }),
{
    match format {
        OutputFormat::Png => 0,
        OutputFormat::Jpeg => 1,
        OutputFormat::Webp => 2,
    }
}

/// The format of an export-format label: `PNG`, `JPEG`, anything else WebP.
pub fn export_format_from_label(label: &str) -> (format: OutputFormat)
    ensures
        format == (if label@ == "PNG"@ {
            OutputFormat::Png
        } else if label@ == "JPEG"@ {
            OutputFormat::Jpeg
        } else {
            OutputFormat::Webp
        }),
{
    let chars = chars_of(label);
    if chars_equal(&chars, "PNG") {
        OutputFormat::Png
    } else if chars_equal(&chars, "JPEG") {
        OutputFormat::Jpeg
    } else {
        OutputFormat::Webp
    }
}

/// Message key of a PNG compression's label.
pub fn png_compression_label_key(compression: PngCompression) -> (key: &'static str)
    ensures
        key@ == (match compression {
            PngCompression::Fast => "option.png_fast"@,
            PngCompression::Default => "option.png_default"@,
            PngCompression::Best => "option.png_best"@,
        }),
{
    match compression {
        PngCompression::Fast => "option.png_fast",
        PngCompression::Default => "option.png_default",
        PngCompression::Best => "option.png_best",
    }
}

/// The help text key of a parameter label.
pub open spec fn spec_parameter_help_key(label: Seq<char>) -> Seq<char> {
    if label == "parameter.aspect_ratio"@ {
        "help.aspect_ratio"@
    } else if label == "parameter.output_width"@ {
        "help.output_width"@
    } else if label == "parameter.output_height"@ {
        "help.output_height"@
    } else if label == "parameter.layout"@ {
        "help.layout"@
    } else if label == "parameter.columns"@ {
        "help.columns"@
    } else if label == "parameter.spacing"@ {
        "help.spacing"@
    } else if label == "parameter.background"@ {
        "help.background"@
    } else if label == "parameter.mode"@ {
        "help.batch_mode"@
    } else if label == "parameter.format"@ {
        "help.format"@
    } else if label == "parameter.quality"@ {
        "help.quality"@
    } else if label == "parameter.png_compression"@ {
        "help.png_compression"@
    } else if label == "parameter.watermark_source"@ {
        "help.watermark_source"@
    } else if label == "parameter.opacity"@ {
        "help.opacity"@
    } else if label == "parameter.position"@ {
        "help.position"@
    } else if label == "parameter.rows"@ {
        "help.rows"@
    } else if label == "parameter.qr_size"@ {
        "help.qr_size"@
    } else if label == "parameter.correction"@ {
        "help.correction"@
    } else if label == "parameter.corner_radius"@ {
        "help.corner_radius"@
    } else if label == "parameter.padding"@ {
        "help.padding"@
    } else if label == "parameter.border"@ {
        "help.border"@
    } else if label == "parameter.shadow"@ {
        "help.shadow"@
    } else if label == "parameter.frame_delay"@ {
        "help.frame_delay"@
    } else if label == "parameter.size_mode"@ {
        "help.size_mode"@
    } else if label == "parameter.playback"@ {
        "help.playback"@
    } else {
        "help.generic"@
    }
}

/// The key of a parameter's help text; unknown labels get the generic help.
pub fn parameter_help_key(label_key: &str) -> (key: &'static str)
    ensures
        key@ == spec_parameter_help_key(label_key@),
{
    let label = chars_of(label_key);
    if chars_equal(&label, "parameter.aspect_ratio") {
        "help.aspect_ratio"
    } else if chars_equal(&label, "parameter.output_width") {
        "help.output_width"
    } else if chars_equal(&label, "parameter.output_height") {
        "help.output_height"
    } else if chars_equal(&label, "parameter.layout") {
        "help.layout"
    } else if chars_equal(&label, "parameter.columns") {
        "help.columns"
    } else if chars_equal(&label, "parameter.spacing") {
        "help.spacing"
    } else if chars_equal(&label, "parameter.background") {
        "help.background"
    } else if chars_equal(&label, "parameter.mode") {
        "help.batch_mode"
    } else if chars_equal(&label, "parameter.format") {
        "help.format"
    } else if chars_equal(&label, "parameter.quality") {
        "help.quality"
    } else if chars_equal(&label, "parameter.png_compression") {
        "help.png_compression"
    } else if chars_equal(&label, "parameter.watermark_source") {
        "help.watermark_source"
    } else if chars_equal(&label, "parameter.opacity") {
        "help.opacity"
    } else if chars_equal(&label, "parameter.position") {
        "help.position"
    } else if chars_equal(&label, "parameter.rows") {
        "help.rows"
    } else if chars_equal(&label, "parameter.qr_size") {
        "help.qr_size"
    } else if chars_equal(&label, "parameter.correction") {
        "help.correction"
    } else if chars_equal(&label, "parameter.corner_radius") {
        "help.corner_radius"
    } else if chars_equal(&label, "parameter.padding") {
        "help.padding"
    } else if chars_equal(&label, "parameter.border") {
        "help.border"
    } else if chars_equal(&label, "parameter.shadow") {
        "help.shadow"
    } else if chars_equal(&label, "parameter.frame_delay") {
        "help.frame_delay"
    } else if chars_equal(&label, "parameter.size_mode") {
        "help.size_mode"
    } else if chars_equal(&label, "parameter.playback") {
        "help.playback"
    } else {
        "help.generic"
    }
}

/// `n / d` rounded to the nearest integer, ties to the even one.
pub open spec fn round_half_even(n: nat, d: nat) -> nat {
    let q = n / d;
    let r = n % d;
    if 2 * r > d || (2 * r == d && q % 2 == 1) {
        q + 1
    } else {
        q
    }
}

/// The spacing of 64-bit floating-point numbers around `b`: the smallest power of two
/// `u` with `b / u < 2^53`.
pub open spec fn float_spacing(b: nat) -> nat {
    if b < 9007199254740992 {
        1
    } else if b < 18014398509481984 {
        2
    } else if b < 36028797018963968 {
        4
    } else if b < 72057594037927936 {
        8
    } else if b < 144115188075855872 {
        16
    } else if b < 288230376151711744 {
        32
    } else if b < 576460752303423488 {
        64
    } else if b < 1152921504606846976 {
        128
    } else if b < 2305843009213693952 {
        256
    } else if b < 4611686018427387904 {
        512
    } else if b < 9223372036854775808 {
        1024
    } else if b < 18446744073709551616 {
        2048
    } else {
        4096
    }
}

/// The integer value of the 64-bit float nearest to `b` (ties to even), as `b as f64` gives.
pub open spec fn float_value(b: nat) -> nat {
    round_half_even(b, float_spacing(b)) * float_spacing(b)
}

/// `bytes` in readable binary units: whole bytes below 1 KiB, KiB with one decimal below
/// 1 MiB, MiB with two decimals above; decimals are rounded half to even, as float
/// formatting does.
pub open spec fn spec_file_size(bytes: nat) -> Seq<char> {
    if bytes < 1024 {
        decimal(bytes) + " B"@
    } else if bytes < 1048576 {
        let tenths = round_half_even(bytes * 10, 1024);
        decimal(tenths / 10) + seq!['.', digit_char(tenths % 10)] + " KiB"@
    } else {
        let hundredths = round_half_even(float_value(bytes) * 100, 1048576);
        decimal(hundredths / 100) + seq!['.'] + decimal_padded2(hundredths % 100) + " MiB"@
    }
}

fn rounded_quotient(n: u128, d: u128) -> (q: u128)
    requires
        d > 0,
        d < 0x1_0000_0000_0000_0000_0000_0000,
        n < 0x1_0000_0000_0000_0000_0000_0000_0000,
    ensures
        q == round_half_even(n as nat, d as nat),
        q * d <= n + d,
{
    proof {
        vstd::arithmetic::div_mod::lemma_fundamental_div_mod(n as int, d as int);
        assert((n / d) * d + d <= n + d) by (nonlinear_arith)
            requires
                n == d * (n / d) + n % d,
                0 <= n % d,
        ;
        assert((n / d + 1) * d == (n / d) * d + d) by (nonlinear_arith);
    }
    let q = n / d;
    let r = n % d;
    if 2 * r > d || (2 * r == d && q % 2 == 1) {
        q + 1
    } else {
        q
    }
}

fn spacing(b: u64) -> (u: u64)
    ensures
        u == float_spacing(b as nat),
        u > 0,
{
    if (b as u128) < 9007199254740992 {
        1
    } else if (b as u128) < 18014398509481984 {
        2
    } else if (b as u128) < 36028797018963968 {
        4
    } else if (b as u128) < 72057594037927936 {
        8
    } else if (b as u128) < 144115188075855872 {
        16
    } else if (b as u128) < 288230376151711744 {
        32
    } else if (b as u128) < 576460752303423488 {
        64
    } else if (b as u128) < 1152921504606846976 {
        128
    } else if (b as u128) < 2305843009213693952 {
        256
    } else if (b as u128) < 4611686018427387904 {
        512
    } else if (b as u128) < 9223372036854775808 {
        1024
    } else if (b as u128) < 18446744073709551616 {
        2048
    } else {
        4096
    }
}

/// A file size in readable binary units: `512 B`, `1.5 KiB`, `2.00 MiB`.
pub fn format_file_size(bytes: usize) -> (text: String)
    ensures
        text@ == spec_file_size(bytes as nat),
{
    proof {
        reveal_strlit(" B");
        reveal_strlit(" KiB");
        reveal_strlit(" MiB");
    }
    let mut text = String::new();
    if bytes < 1024 {
        push_decimal(&mut text, bytes as u64);
        push_str(&mut text, " B");
    } else if bytes < 1048576 {
        let tenths = rounded_quotient((bytes as u128) * 10, 1024);
        proof {
            assert(tenths <= (bytes * 10) / 1024 + 1);
        }
        push_decimal(&mut text, (tenths / 10) as u64);
        push_char(&mut text, '.');
        let digit = ((tenths % 10) as u8 + 48u8) as char;
        push_char(&mut text, digit);
        push_str(&mut text, " KiB");
    } else {
        let b = bytes as u64;
        let u = spacing(b);
        let value = rounded_quotient(b as u128, u as u128) * (u as u128);
        proof {
            assert(value <= 0x1_0000_0000_0000_0000 * 2);
        }
        let hundredths = rounded_quotient(value * 100, 1048576);
        push_decimal(&mut text, (hundredths / 100) as u64);
        push_char(&mut text, '.');
        push_decimal_padded2(&mut text, (hundredths % 100) as u64);
        push_str(&mut text, " MiB");
    }
    assert(text@ =~= spec_file_size(bytes as nat));
    text
}

/// One group of the navigation sidebar: its label key and its features, in order.
#[derive(Debug, Clone, Copy)]
pub struct NavigationGroup {
    /// Message key of the group label.
    pub label_key: &'static str,
    /// The group's features.
    pub features: &'static [Feature],
}

/// The label keys of the navigation groups, in order.
pub open spec fn spec_navigation_labels() -> Seq<Seq<char>> {
    seq!["nav.basic_image"@, "nav.ai_generation"@, "nav.industry_tools"@, "nav.creative_output"@, "nav.video_tools"@]
}

/// The features of each navigation group, in order.
pub open spec fn spec_navigation_features() -> Seq<Seq<Feature>> {
    seq![
        seq![Feature::Edit, Feature::Batch, Feature::QrCode, Feature::Exif, Feature::Slice],
        seq![Feature::TextToImage, Feature::ImageEdit],
        seq![Feature::OldPhotoRestoration, Feature::IdPhoto, Feature::AvatarStudio, Feature::MemeGenerator, Feature::AiPortrait, Feature::ModelTryOn, Feature::ProductRecolor, Feature::PromotionalPoster, Feature::PlatformAdaptation, Feature::CoverFactory, Feature::ArticleIllustration, Feature::FoodEnhancement, Feature::InteriorPreview],
        seq![Feature::Collage, Feature::Gif, Feature::Beautify, Feature::Poster],
        seq![Feature::VideoWatermark, Feature::VideoSubtitle, Feature::VideoClarity],
    ]
}

/// Every navigation entry, group after group.
pub open spec fn spec_navigation_entries() -> Seq<Feature> {
    let g = spec_navigation_features();
    g[0] + g[1] + g[2] + g[3] + g[4]
}

/// The groups of the navigation sidebar.
pub fn navigation_groups() -> (groups: [NavigationGroup; 5])
    ensures
        groups@.len() == 5,
        forall|i: int| 0 <= i < 5 ==> (#[trigger] groups@[i]).label_key@ == spec_navigation_labels()[i]
            && groups@[i].features@ == spec_navigation_features()[i],
{
    let basic: &'static [Feature] = &[Feature::Edit, Feature::Batch, Feature::QrCode, Feature::Exif, Feature::Slice];
    let ai: &'static [Feature] = &[Feature::TextToImage, Feature::ImageEdit];
    let industry: &'static [Feature] = &[Feature::OldPhotoRestoration, Feature::IdPhoto, Feature::AvatarStudio, Feature::MemeGenerator, Feature::AiPortrait, Feature::ModelTryOn, Feature::ProductRecolor, Feature::PromotionalPoster, Feature::PlatformAdaptation, Feature::CoverFactory, Feature::ArticleIllustration, Feature::FoodEnhancement, Feature::InteriorPreview];
    let creative: &'static [Feature] = &[Feature::Collage, Feature::Gif, Feature::Beautify, Feature::Poster];
    let video: &'static [Feature] = &[Feature::VideoWatermark, Feature::VideoSubtitle, Feature::VideoClarity];
    proof {
        reveal_strlit("nav.video_tools");
        assert(basic@ =~= spec_navigation_features()[0]);
        assert(ai@ =~= spec_navigation_features()[1]);
        assert(industry@ =~= spec_navigation_features()[2]);
        assert(creative@ =~= spec_navigation_features()[3]);
        assert(video@ =~= spec_navigation_features()[4]);
    }
    let groups = [
        NavigationGroup { label_key: Section::BasicImage.nav_key(), features: basic },
        NavigationGroup { label_key: Section::AiGeneration.nav_key(), features: ai },
        NavigationGroup { label_key: Section::IndustryTools.nav_key(), features: industry },
        NavigationGroup { label_key: Section::CreativeOutput.nav_key(), features: creative },
        NavigationGroup { label_key: "nav.video_tools", features: video },
    ];
    groups
}

/// Every feature has exactly one entry in the navigation: the entries have no
/// duplicates and include every feature.
pub proof fn law_navigation_lists_every_feature_once(feature: Feature)
    ensures
        spec_navigation_entries().no_duplicates(),
        spec_navigation_entries().contains(feature),
{
    let e = spec_navigation_entries();
    assert(e =~= seq![Feature::Edit, Feature::Batch, Feature::QrCode, Feature::Exif, Feature::Slice, Feature::TextToImage, Feature::ImageEdit, Feature::OldPhotoRestoration, Feature::IdPhoto, Feature::AvatarStudio, Feature::MemeGenerator, Feature::AiPortrait, Feature::ModelTryOn, Feature::ProductRecolor, Feature::PromotionalPoster, Feature::PlatformAdaptation, Feature::CoverFactory, Feature::ArticleIllustration, Feature::FoodEnhancement, Feature::InteriorPreview, Feature::Collage, Feature::Gif, Feature::Beautify, Feature::Poster, Feature::VideoWatermark, Feature::VideoSubtitle, Feature::VideoClarity]);
    assert(e[feature_rank(feature)] == feature);
    assert forall|i: int, j: int| 0 <= i < e.len() && 0 <= j < e.len() && i != j implies e[i] != e[j] by {
        assert(feature_rank(e[i]) == i);
        assert(feature_rank(e[j]) == j);
    }
}

/// The position of a feature in the navigation entries.
pub open spec fn feature_rank(feature: Feature) -> int {
    match feature {
        Feature::Edit => 0,
        Feature::Batch => 1,
        Feature::QrCode => 2,
        Feature::Exif => 3,
        Feature::Slice => 4,
        Feature::TextToImage => 5,
        Feature::ImageEdit => 6,
        Feature::OldPhotoRestoration => 7,
        Feature::IdPhoto => 8,
        Feature::AvatarStudio => 9,
        Feature::MemeGenerator => 10,
        Feature::AiPortrait => 11,
        Feature::ModelTryOn => 12,
        Feature::ProductRecolor => 13,
        Feature::PromotionalPoster => 14,
        Feature::PlatformAdaptation => 15,
        Feature::CoverFactory => 16,
        Feature::ArticleIllustration => 17,
        Feature::FoodEnhancement => 18,
        Feature::InteriorPreview => 19,
        Feature::Collage => 20,
        Feature::Gif => 21,
        Feature::Beautify => 22,
        Feature::Poster => 23,
        Feature::VideoWatermark => 24,
        Feature::VideoSubtitle => 25,
        Feature::VideoClarity => 26,
    }
}

} // verus!
