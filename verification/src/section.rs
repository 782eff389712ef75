//! The four sections of the main screen and the features under them.
//!
//! A feature carries only message keys and its version marks; rendering lives in the
//! application and image work in the core modules.

use vstd::prelude::*;

use crate::ai::types::AspectRatio;
use crate::ai_state::{tier_list, AiFeatureSpec, TierList};

verus! {

/// The four sections of the main screen.
#[derive(Debug, Clone, Copy, PartialEq, Eq, Structural)]
pub enum Section {
    /// Basic image tools (offline).
    BasicImage,
    /// AI generation and editing.
    AiGeneration,
    /// AI tools for specific trades.
    IndustryTools,
    /// Creative output: GIF and posters.
    CreativeOutput,
}

impl Section {
    /// Message key of the navigation label.
    pub fn nav_key(self) -> (key: &'static str)
        ensures
            key@ == (match self {
                Section::BasicImage => "nav.basic_image"@,
                Section::AiGeneration => "nav.ai_generation"@,
                Section::IndustryTools => "nav.industry_tools"@,
                Section::CreativeOutput => "nav.creative_output"@,
            }),
    {
        match self {
            Section::BasicImage => "nav.basic_image",
            Section::AiGeneration => "nav.ai_generation",
            Section::IndustryTools => "nav.industry_tools",
            Section::CreativeOutput => "nav.creative_output",
        }
    }
}

/// One feature entry.
#[derive(Debug, Clone, Copy, PartialEq, Eq, Structural)]
pub enum Feature {
    Edit,
    Collage,
    Batch,
    Slice,
    QrCode,
    Exif,
    Beautify,
    Gif,
    Poster,
    TextToImage,
    ImageEdit,
    VideoWatermark,
    VideoSubtitle,
    VideoClarity,
    OldPhotoRestoration,
    IdPhoto,
    AvatarStudio,
    MemeGenerator,
    AiPortrait,
    ModelTryOn,
    ProductRecolor,
    PromotionalPoster,
    PlatformAdaptation,
    CoverFactory,
    ArticleIllustration,
    FoodEnhancement,
    InteriorPreview,
}

/// The section a feature belongs to.
pub open spec fn spec_section(f: Feature) -> Section {
    match f {
        Feature::Edit | Feature::Collage | Feature::Batch | Feature::Slice | Feature::QrCode
        | Feature::Exif | Feature::Beautify => Section::BasicImage,
        Feature::TextToImage | Feature::ImageEdit | Feature::VideoWatermark
        | Feature::VideoSubtitle | Feature::VideoClarity => Section::AiGeneration,
        Feature::Gif | Feature::Poster => Section::CreativeOutput,
        _ => Section::IndustryTools,
    }
}

/// Offline features that need no API key.
pub open spec fn spec_is_v1(f: Feature) -> bool {
    f is Edit || f is Collage || f is Batch || f is Slice || f is QrCode || f is Exif
        || f is Beautify || f is Gif
}

/// AI image features (the three video entries are not among them).
pub open spec fn spec_is_ai(f: Feature) -> bool {
    !spec_is_v1(f) && !(f is VideoWatermark || f is VideoSubtitle || f is VideoClarity)
}

/// Stable element id fragment of a feature.
pub open spec fn spec_id(f: Feature) -> Seq<char> {
    match f {
        Feature::Edit => "feat-edit"@,
        Feature::Collage => "feat-collage"@,
        Feature::Batch => "feat-batch"@,
        Feature::Slice => "feat-slice"@,
        Feature::QrCode => "feat-qrcode"@,
        Feature::Exif => "feat-exif"@,
        Feature::Beautify => "feat-beautify"@,
        Feature::Gif => "feat-gif"@,
        Feature::Poster => "feat-poster"@,
        Feature::TextToImage => "feat-t2i"@,
        Feature::ImageEdit => "feat-img-edit"@,
        Feature::VideoWatermark => "feat-video-wm"@,
        Feature::VideoSubtitle => "feat-video-sub"@,
        Feature::VideoClarity => "feat-video-clarity"@,
        Feature::OldPhotoRestoration => "feat-old-photo"@,
        Feature::IdPhoto => "feat-id-photo"@,
        Feature::AvatarStudio => "feat-avatar"@,
        Feature::MemeGenerator => "feat-meme"@,
        Feature::AiPortrait => "feat-ai-portrait"@,
        Feature::ModelTryOn => "feat-try-on"@,
        Feature::ProductRecolor => "feat-recolor"@,
        Feature::PromotionalPoster => "feat-promo-poster"@,
        Feature::PlatformAdaptation => "feat-platform-adapt"@,
        Feature::CoverFactory => "feat-cover"@,
        Feature::ArticleIllustration => "feat-article"@,
        Feature::FoodEnhancement => "feat-food"@,
        Feature::InteriorPreview => "feat-interior"@,
    }
}

/// What tells the element ids apart: the length, the two characters after `feat-`, and
/// the last character.
pub open spec fn id_key(id: Seq<char>) -> (nat, char, char, char) {
    (id.len(), id[5], id[6], id.last())
}

/// The key of each feature's element id.
pub open spec fn feature_key(f: Feature) -> (nat, char, char, char) {
    match f {
        Feature::Edit => (9, 'e', 'd', 't'),
        Feature::Collage => (12, 'c', 'o', 'e'),
        Feature::Batch => (10, 'b', 'a', 'h'),
        Feature::Slice => (10, 's', 'l', 'e'),
        Feature::QrCode => (11, 'q', 'r', 'e'),
        Feature::Exif => (9, 'e', 'x', 'f'),
        Feature::Beautify => (13, 'b', 'e', 'y'),
        Feature::Gif => (8, 'g', 'i', 'f'),
        Feature::Poster => (11, 'p', 'o', 'r'),
        Feature::TextToImage => (8, 't', '2', 'i'),
        Feature::ImageEdit => (13, 'i', 'm', 't'),
        Feature::VideoWatermark => (13, 'v', 'i', 'm'),
        Feature::VideoSubtitle => (14, 'v', 'i', 'b'),
        Feature::VideoClarity => (18, 'v', 'i', 'y'),
        Feature::OldPhotoRestoration => (14, 'o', 'l', 'o'),
        Feature::IdPhoto => (13, 'i', 'd', 'o'),
        Feature::AvatarStudio => (11, 'a', 'v', 'r'),
        Feature::MemeGenerator => (9, 'm', 'e', 'e'),
        Feature::AiPortrait => (16, 'a', 'i', 't'),
        Feature::ModelTryOn => (11, 't', 'r', 'n'),
        Feature::ProductRecolor => (12, 'r', 'e', 'r'),
        Feature::PromotionalPoster => (17, 'p', 'r', 'r'),
        Feature::PlatformAdaptation => (19, 'p', 'l', 't'),
        Feature::CoverFactory => (10, 'c', 'o', 'r'),
        Feature::ArticleIllustration => (12, 'a', 'r', 'e'),
        Feature::FoodEnhancement => (9, 'f', 'o', 'd'),
        Feature::InteriorPreview => (13, 'i', 'n', 'r'),
    }
}

/// The feature a key belongs to.
pub open spec fn feature_of_key(k: (nat, char, char, char)) -> Feature {
    if k == (9nat, 'e', 'd', 't') {
        Feature::Edit
    } else if k == (12nat, 'c', 'o', 'e') {
        Feature::Collage
    } else if k == (10nat, 'b', 'a', 'h') {
        Feature::Batch
    } else if k == (10nat, 's', 'l', 'e') {
        Feature::Slice
    } else if k == (11nat, 'q', 'r', 'e') {
        Feature::QrCode
    } else if k == (9nat, 'e', 'x', 'f') {
        Feature::Exif
    } else if k == (13nat, 'b', 'e', 'y') {
        Feature::Beautify
    } else if k == (8nat, 'g', 'i', 'f') {
        Feature::Gif
    } else if k == (11nat, 'p', 'o', 'r') {
        Feature::Poster
    } else if k == (8nat, 't', '2', 'i') {
        Feature::TextToImage
    } else if k == (13nat, 'i', 'm', 't') {
        Feature::ImageEdit
    } else if k == (13nat, 'v', 'i', 'm') {
        Feature::VideoWatermark
    } else if k == (14nat, 'v', 'i', 'b') {
        Feature::VideoSubtitle
    } else if k == (18nat, 'v', 'i', 'y') {
        Feature::VideoClarity
    } else if k == (14nat, 'o', 'l', 'o') {
        Feature::OldPhotoRestoration
    } else if k == (13nat, 'i', 'd', 'o') {
        Feature::IdPhoto
    } else if k == (11nat, 'a', 'v', 'r') {
        Feature::AvatarStudio
    } else if k == (9nat, 'm', 'e', 'e') {
        Feature::MemeGenerator
    } else if k == (16nat, 'a', 'i', 't') {
        Feature::AiPortrait
    } else if k == (11nat, 't', 'r', 'n') {
        Feature::ModelTryOn
    } else if k == (12nat, 'r', 'e', 'r') {
        Feature::ProductRecolor
    } else if k == (17nat, 'p', 'r', 'r') {
        Feature::PromotionalPoster
    } else if k == (19nat, 'p', 'l', 't') {
        Feature::PlatformAdaptation
    } else if k == (10nat, 'c', 'o', 'r') {
        Feature::CoverFactory
    } else if k == (12nat, 'a', 'r', 'e') {
        Feature::ArticleIllustration
    } else if k == (9nat, 'f', 'o', 'd') {
        Feature::FoodEnhancement
    } else {
        Feature::InteriorPreview
    }
}

proof fn lemma_id_shape(f: Feature)
    ensures
        spec_id(f).len() > 6,
        spec_id(f).take(5) == seq!['f', 'e', 'a', 't', '-'],
        id_key(spec_id(f)) == feature_key(f),
{
    match f {
        Feature::Edit => {
            reveal_strlit("feat-edit");
        },
        Feature::Collage => {
            reveal_strlit("feat-collage");
        },
        Feature::Batch => {
            reveal_strlit("feat-batch");
        },
        Feature::Slice => {
            reveal_strlit("feat-slice");
        },
        Feature::QrCode => {
            reveal_strlit("feat-qrcode");
        },
        Feature::Exif => {
            reveal_strlit("feat-exif");
        },
        Feature::Beautify => {
            reveal_strlit("feat-beautify");
        },
        Feature::Gif => {
            reveal_strlit("feat-gif");
        },
        Feature::Poster => {
            reveal_strlit("feat-poster");
        },
        Feature::TextToImage => {
            reveal_strlit("feat-t2i");
        },
        Feature::ImageEdit => {
            reveal_strlit("feat-img-edit");
        },
        Feature::VideoWatermark => {
            reveal_strlit("feat-video-wm");
        },
        Feature::VideoSubtitle => {
            reveal_strlit("feat-video-sub");
        },
        Feature::VideoClarity => {
            reveal_strlit("feat-video-clarity");
        },
        Feature::OldPhotoRestoration => {
            reveal_strlit("feat-old-photo");
        },
        Feature::IdPhoto => {
            reveal_strlit("feat-id-photo");
        },
        Feature::AvatarStudio => {
            reveal_strlit("feat-avatar");
        },
        Feature::MemeGenerator => {
            reveal_strlit("feat-meme");
        },
        Feature::AiPortrait => {
            reveal_strlit("feat-ai-portrait");
        },
        Feature::ModelTryOn => {
            reveal_strlit("feat-try-on");
        },
        Feature::ProductRecolor => {
            reveal_strlit("feat-recolor");
        },
        Feature::PromotionalPoster => {
            reveal_strlit("feat-promo-poster");
        },
        Feature::PlatformAdaptation => {
            reveal_strlit("feat-platform-adapt");
        },
        Feature::CoverFactory => {
            reveal_strlit("feat-cover");
        },
        Feature::ArticleIllustration => {
            reveal_strlit("feat-article");
        },
        Feature::FoodEnhancement => {
            reveal_strlit("feat-food");
        },
        Feature::InteriorPreview => {
            reveal_strlit("feat-interior");
        },
    }
    assert(spec_id(f).take(5) =~= seq!['f', 'e', 'a', 't', '-']);
}

proof fn lemma_feature_key_inverse(f: Feature)
    ensures
        feature_of_key(feature_key(f)) == f,
{
    match f {
        Feature::Edit => {},
        Feature::Collage => {},
        Feature::Batch => {},
        Feature::Slice => {},
        Feature::QrCode => {},
        Feature::Exif => {},
        Feature::Beautify => {},
        Feature::Gif => {},
        Feature::Poster => {},
        Feature::TextToImage => {},
        Feature::ImageEdit => {},
        Feature::VideoWatermark => {},
        Feature::VideoSubtitle => {},
        Feature::VideoClarity => {},
        Feature::OldPhotoRestoration => {},
        Feature::IdPhoto => {},
        Feature::AvatarStudio => {},
        Feature::MemeGenerator => {},
        Feature::AiPortrait => {},
        Feature::ModelTryOn => {},
        Feature::ProductRecolor => {},
        Feature::PromotionalPoster => {},
        Feature::PlatformAdaptation => {},
        Feature::CoverFactory => {},
        Feature::ArticleIllustration => {},
        Feature::FoodEnhancement => {},
        Feature::InteriorPreview => {},
    }
}

/// Every element id starts with `feat-`, and different features have different ids.
pub proof fn law_feature_ids_are_distinct(f: Feature, g: Feature)
    ensures
        spec_id(f).take(5) == seq!['f', 'e', 'a', 't', '-'],
        spec_id(f) == spec_id(g) ==> f == g,
{
    lemma_id_shape(f);
    lemma_id_shape(g);
    lemma_feature_key_inverse(f);
    lemma_feature_key_inverse(g);
}

/// Message key of a feature's name.
pub open spec fn spec_name_key(f: Feature) -> Seq<char> {
    match f {
        Feature::Edit => "feature.edit.name"@,
        Feature::Collage => "feature.collage.name"@,
        Feature::Batch => "feature.batch.name"@,
        Feature::Slice => "feature.slice.name"@,
        Feature::QrCode => "feature.qrcode.name"@,
        Feature::Exif => "feature.exif.name"@,
        Feature::Beautify => "feature.beautify.name"@,
        Feature::Gif => "feature.gif.name"@,
        Feature::Poster => "feature.poster.name"@,
        Feature::TextToImage => "feature.text_to_image.name"@,
        Feature::ImageEdit => "feature.image_edit.name"@,
        Feature::VideoWatermark => "feature.video_watermark.name"@,
        Feature::VideoSubtitle => "feature.video_subtitle.name"@,
        Feature::VideoClarity => "feature.video_clarity.name"@,
        Feature::OldPhotoRestoration => "feature.old_photo.name"@,
        Feature::IdPhoto => "feature.id_photo.name"@,
        Feature::AvatarStudio => "feature.avatar.name"@,
        Feature::MemeGenerator => "feature.meme.name"@,
        Feature::AiPortrait => "feature.ai_portrait.name"@,
        Feature::ModelTryOn => "feature.try_on.name"@,
        Feature::ProductRecolor => "feature.recolor.name"@,
        Feature::PromotionalPoster => "feature.promo_poster.name"@,
        Feature::PlatformAdaptation => "feature.platform_adapt.name"@,
        Feature::CoverFactory => "feature.cover_factory.name"@,
        Feature::ArticleIllustration => "feature.article_illustration.name"@,
        Feature::FoodEnhancement => "feature.food.name"@,
        Feature::InteriorPreview => "feature.interior.name"@,
    }
}

/// Message key of a feature's description.
pub open spec fn spec_desc_key(f: Feature) -> Seq<char> {
    match f {
        Feature::Edit => "feature.edit.desc"@,
        Feature::Collage => "feature.collage.desc"@,
        Feature::Batch => "feature.batch.desc"@,
        Feature::Slice => "feature.slice.desc"@,
        Feature::QrCode => "feature.qrcode.desc"@,
        Feature::Exif => "feature.exif.desc"@,
        Feature::Beautify => "feature.beautify.desc"@,
        Feature::Gif => "feature.gif.desc"@,
        Feature::Poster => "feature.poster.desc"@,
        Feature::TextToImage => "feature.text_to_image.desc"@,
        Feature::ImageEdit => "feature.image_edit.desc"@,
        Feature::VideoWatermark => "feature.video_watermark.desc"@,
        Feature::VideoSubtitle => "feature.video_subtitle.desc"@,
        Feature::VideoClarity => "feature.video_clarity.desc"@,
        Feature::OldPhotoRestoration => "feature.old_photo.desc"@,
        Feature::IdPhoto => "feature.id_photo.desc"@,
        Feature::AvatarStudio => "feature.avatar.desc"@,
        Feature::MemeGenerator => "feature.meme.desc"@,
        Feature::AiPortrait => "feature.ai_portrait.desc"@,
        Feature::ModelTryOn => "feature.try_on.desc"@,
        Feature::ProductRecolor => "feature.recolor.desc"@,
        Feature::PromotionalPoster => "feature.promo_poster.desc"@,
        Feature::PlatformAdaptation => "feature.platform_adapt.desc"@,
        Feature::CoverFactory => "feature.cover_factory.desc"@,
        Feature::ArticleIllustration => "feature.article_illustration.desc"@,
        Feature::FoodEnhancement => "feature.food.desc"@,
        Feature::InteriorPreview => "feature.interior.desc"@,
    }
}

/// The AI parameters of a feature: tier list, selection limit, whether a source image is
/// needed and the default ratio; `None` for features that are not AI tools.
pub open spec fn spec_ai_spec(f: Feature) -> Option<(TierList, usize, bool, AspectRatio)> {
    match f {
        Feature::Poster => Some((TierList::PosterStyle, 1, false, AspectRatio::PortraitNineSixteen)),
        Feature::TextToImage => Some((TierList::Empty, 1, false, AspectRatio::Square)),
        Feature::ImageEdit => Some((TierList::Empty, 1, true, AspectRatio::Square)),
        Feature::OldPhotoRestoration => Some((TierList::Restore, 3, true, AspectRatio::Square)),
        Feature::IdPhoto => Some((TierList::Empty, 1, true, AspectRatio::PortraitThreeFour)),
        Feature::AvatarStudio => Some((TierList::Avatar, 6, true, AspectRatio::Square)),
        Feature::MemeGenerator => Some((TierList::Meme, 12, true, AspectRatio::Square)),
        Feature::AiPortrait => Some((TierList::Portrait, 8, true, AspectRatio::PortraitThreeFour)),
        Feature::ModelTryOn => Some((TierList::Empty, 1, true, AspectRatio::PortraitThreeFour)),
        Feature::ProductRecolor => Some((TierList::Color, 4, true, AspectRatio::Square)),
        Feature::PromotionalPoster => Some((TierList::Promo, 1, true, AspectRatio::PortraitThreeFour)),
        Feature::PlatformAdaptation => Some((TierList::Platform, 4, true, AspectRatio::Square)),
        Feature::CoverFactory => Some((TierList::Empty, 1, false, AspectRatio::LandscapeSixteenNine)),
        Feature::ArticleIllustration => Some((TierList::Empty, 1, false, AspectRatio::LandscapeSixteenNine)),
        Feature::FoodEnhancement => Some((TierList::Food, 1, true, AspectRatio::LandscapeFourThree)),
        Feature::InteriorPreview => Some((TierList::Interior, 4, true, AspectRatio::LandscapeFourThree)),
        _ => None,
    }
}

impl Feature {
    /// The section shown for this feature in navigation, search and menus.
    pub fn section(self) -> (s: Section)
        ensures
            s == spec_section(self),
    {
        match self {
            Feature::Edit | Feature::Collage | Feature::Batch | Feature::Slice | Feature::QrCode
            | Feature::Exif | Feature::Beautify => Section::BasicImage,
            Feature::TextToImage | Feature::ImageEdit | Feature::VideoWatermark
            | Feature::VideoSubtitle | Feature::VideoClarity => Section::AiGeneration,
            Feature::Gif | Feature::Poster => Section::CreativeOutput,
            _ => Section::IndustryTools,
        }
    }

    /// Whether the feature works offline without an API key.
    pub fn is_v1(self) -> (v1: bool)
        ensures
            v1 == spec_is_v1(self),
    {
        matches!(
            self,
            Feature::Edit | Feature::Collage | Feature::Batch | Feature::Slice | Feature::QrCode
                | Feature::Exif | Feature::Beautify | Feature::Gif
        )
    }

    /// Whether the feature is an AI image tool.
    pub fn is_ai(self) -> (ai: bool)
        ensures
            ai == spec_is_ai(self),
    {
        !self.is_v1() && !matches!(
            self,
            Feature::VideoWatermark | Feature::VideoSubtitle | Feature::VideoClarity
        )
    }

    /// Stable element id fragment.
    pub fn id(self) -> (s: &'static str)
        ensures
            s@ == spec_id(self),
    {
        match self {
            Feature::Edit => "feat-edit",
            Feature::Collage => "feat-collage",
            Feature::Batch => "feat-batch",
            Feature::Slice => "feat-slice",
            Feature::QrCode => "feat-qrcode",
            Feature::Exif => "feat-exif",
            Feature::Beautify => "feat-beautify",
            Feature::Gif => "feat-gif",
            Feature::Poster => "feat-poster",
            Feature::TextToImage => "feat-t2i",
            Feature::ImageEdit => "feat-img-edit",
            Feature::VideoWatermark => "feat-video-wm",
            Feature::VideoSubtitle => "feat-video-sub",
            Feature::VideoClarity => "feat-video-clarity",
            Feature::OldPhotoRestoration => "feat-old-photo",
            Feature::IdPhoto => "feat-id-photo",
            Feature::AvatarStudio => "feat-avatar",
            Feature::MemeGenerator => "feat-meme",
            Feature::AiPortrait => "feat-ai-portrait",
            Feature::ModelTryOn => "feat-try-on",
            Feature::ProductRecolor => "feat-recolor",
            Feature::PromotionalPoster => "feat-promo-poster",
            Feature::PlatformAdaptation => "feat-platform-adapt",
            Feature::CoverFactory => "feat-cover",
            Feature::ArticleIllustration => "feat-article",
            Feature::FoodEnhancement => "feat-food",
            Feature::InteriorPreview => "feat-interior",
        }
    }

    /// Message key of the name.
    pub fn name_key(self) -> (s: &'static str)
        ensures
            s@ == spec_name_key(self),
    {
        match self {
            Feature::Edit => "feature.edit.name",
            Feature::Collage => "feature.collage.name",
            Feature::Batch => "feature.batch.name",
            Feature::Slice => "feature.slice.name",
            Feature::QrCode => "feature.qrcode.name",
            Feature::Exif => "feature.exif.name",
            Feature::Beautify => "feature.beautify.name",
            Feature::Gif => "feature.gif.name",
            Feature::Poster => "feature.poster.name",
            Feature::TextToImage => "feature.text_to_image.name",
            Feature::ImageEdit => "feature.image_edit.name",
            Feature::VideoWatermark => "feature.video_watermark.name",
            Feature::VideoSubtitle => "feature.video_subtitle.name",
            Feature::VideoClarity => "feature.video_clarity.name",
            Feature::OldPhotoRestoration => "feature.old_photo.name",
            Feature::IdPhoto => "feature.id_photo.name",
            Feature::AvatarStudio => "feature.avatar.name",
            Feature::MemeGenerator => "feature.meme.name",
            Feature::AiPortrait => "feature.ai_portrait.name",
            Feature::ModelTryOn => "feature.try_on.name",
            Feature::ProductRecolor => "feature.recolor.name",
            Feature::PromotionalPoster => "feature.promo_poster.name",
            Feature::PlatformAdaptation => "feature.platform_adapt.name",
            Feature::CoverFactory => "feature.cover_factory.name",
            Feature::ArticleIllustration => "feature.article_illustration.name",
            Feature::FoodEnhancement => "feature.food.name",
            Feature::InteriorPreview => "feature.interior.name",
        }
    }

    /// Message key of the description.
    pub fn desc_key(self) -> (s: &'static str)
        ensures
            s@ == spec_desc_key(self),
    {
        match self {
            Feature::Edit => "feature.edit.desc",
            Feature::Collage => "feature.collage.desc",
            Feature::Batch => "feature.batch.desc",
            Feature::Slice => "feature.slice.desc",
            Feature::QrCode => "feature.qrcode.desc",
            Feature::Exif => "feature.exif.desc",
            Feature::Beautify => "feature.beautify.desc",
            Feature::Gif => "feature.gif.desc",
            Feature::Poster => "feature.poster.desc",
            Feature::TextToImage => "feature.text_to_image.desc",
            Feature::ImageEdit => "feature.image_edit.desc",
            Feature::VideoWatermark => "feature.video_watermark.desc",
            Feature::VideoSubtitle => "feature.video_subtitle.desc",
            Feature::VideoClarity => "feature.video_clarity.desc",
            Feature::OldPhotoRestoration => "feature.old_photo.desc",
            Feature::IdPhoto => "feature.id_photo.desc",
            Feature::AvatarStudio => "feature.avatar.desc",
            Feature::MemeGenerator => "feature.meme.desc",
            Feature::AiPortrait => "feature.ai_portrait.desc",
            Feature::ModelTryOn => "feature.try_on.desc",
            Feature::ProductRecolor => "feature.recolor.desc",
            Feature::PromotionalPoster => "feature.promo_poster.desc",
            Feature::PlatformAdaptation => "feature.platform_adapt.desc",
            Feature::CoverFactory => "feature.cover_factory.desc",
            Feature::ArticleIllustration => "feature.article_illustration.desc",
            Feature::FoodEnhancement => "feature.food.desc",
            Feature::InteriorPreview => "feature.interior.desc",
        }
    }

    /// The AI parameters of this feature, or `None` when it is not an AI tool.
    pub fn ai_spec(self) -> (spec: Option<AiFeatureSpec>)
        ensures
            match spec_ai_spec(self) {
                Some((tiers, max_selected, needs_image, ratio)) => (spec matches Some(s)
                    && s.describes(tiers, max_selected, needs_image, ratio)),
                None => spec is None,
            },
    {
        match self {
            Feature::Poster => Some(AiFeatureSpec { tiers: tier_list(TierList::PosterStyle), max_selected: 1, needs_image: false, default_ratio: AspectRatio::PortraitNineSixteen }),
            Feature::TextToImage => Some(AiFeatureSpec { tiers: tier_list(TierList::Empty), max_selected: 1, needs_image: false, default_ratio: AspectRatio::Square }),
            Feature::ImageEdit => Some(AiFeatureSpec { tiers: tier_list(TierList::Empty), max_selected: 1, needs_image: true, default_ratio: AspectRatio::Square }),
            Feature::OldPhotoRestoration => Some(AiFeatureSpec { tiers: tier_list(TierList::Restore), max_selected: 3, needs_image: true, default_ratio: AspectRatio::Square }),
            Feature::IdPhoto => Some(AiFeatureSpec { tiers: tier_list(TierList::Empty), max_selected: 1, needs_image: true, default_ratio: AspectRatio::PortraitThreeFour }),
            Feature::AvatarStudio => Some(AiFeatureSpec { tiers: tier_list(TierList::Avatar), max_selected: 6, needs_image: true, default_ratio: AspectRatio::Square }),
            Feature::MemeGenerator => Some(AiFeatureSpec { tiers: tier_list(TierList::Meme), max_selected: 12, needs_image: true, default_ratio: AspectRatio::Square }),
            Feature::AiPortrait => Some(AiFeatureSpec { tiers: tier_list(TierList::Portrait), max_selected: 8, needs_image: true, default_ratio: AspectRatio::PortraitThreeFour }),
            Feature::ModelTryOn => Some(AiFeatureSpec { tiers: tier_list(TierList::Empty), max_selected: 1, needs_image: true, default_ratio: AspectRatio::PortraitThreeFour }),
            Feature::ProductRecolor => Some(AiFeatureSpec { tiers: tier_list(TierList::Color), max_selected: 4, needs_image: true, default_ratio: AspectRatio::Square }),
            Feature::PromotionalPoster => Some(AiFeatureSpec { tiers: tier_list(TierList::Promo), max_selected: 1, needs_image: true, default_ratio: AspectRatio::PortraitThreeFour }),
            Feature::PlatformAdaptation => Some(AiFeatureSpec { tiers: tier_list(TierList::Platform), max_selected: 4, needs_image: true, default_ratio: AspectRatio::Square }),
            Feature::CoverFactory => Some(AiFeatureSpec { tiers: tier_list(TierList::Empty), max_selected: 1, needs_image: false, default_ratio: AspectRatio::LandscapeSixteenNine }),
            Feature::ArticleIllustration => Some(AiFeatureSpec { tiers: tier_list(TierList::Empty), max_selected: 1, needs_image: false, default_ratio: AspectRatio::LandscapeSixteenNine }),
            Feature::FoodEnhancement => Some(AiFeatureSpec { tiers: tier_list(TierList::Food), max_selected: 1, needs_image: true, default_ratio: AspectRatio::LandscapeFourThree }),
            Feature::InteriorPreview => Some(AiFeatureSpec { tiers: tier_list(TierList::Interior), max_selected: 4, needs_image: true, default_ratio: AspectRatio::LandscapeFourThree }),
            _ => None,
        }
    }
}

} // verus!
