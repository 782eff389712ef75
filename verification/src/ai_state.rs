//! State of the AI pages: provider, ratio, count, selected tiers and results, and the
//! tier names that industry tools combine into one prompt choice.

use vstd::prelude::*;

use crate::ai::error::AiError;
use crate::ai::types::{AspectRatio, GenerationQuality, ProviderCapabilities, ProviderId};
use crate::presets::spec_edit_preset_count;
use crate::section::{spec_ai_spec, Feature};
use crate::text::push_str;

use std::collections::BTreeSet;

verus! {

broadcast use vstd::std_specs::btree::group_btree_axioms;

/// The named tier lists of the AI tools.
#[derive(Debug, Clone, Copy, PartialEq, Eq, Structural)]
pub enum TierList {
    Empty,
    PosterStyle,
    Restore,
    IdSize,
    IdBackground,
    IdAttire,
    Avatar,
    Meme,
    Portrait,
    TryOnModel,
    TryOnScene,
    Color,
    Promo,
    Platform,
    CoverPlatform,
    CoverStyle,
    ArticleUsage,
    ArticleStyle,
    Food,
    Interior,
}

/// The tier names of a list, in order.
pub open spec fn spec_tier_texts(list: TierList) -> Seq<Seq<char>> {
    match list {
        TierList::Empty => seq![],
        TierList::PosterStyle => seq!["tech-launch"@, "minimal"@, "luxury"@, "playful"@],
        TierList::Restore => seq!["repair"@, "colorize"@, "clarity"@],
        TierList::IdSize => seq!["one-inch"@, "two-inch"@, "visa"@],
        TierList::IdBackground => seq!["blue"@, "red"@, "white"@],
        TierList::IdAttire => seq!["suit"@, "female-suit"@],
        TierList::Avatar => seq!["japanese-anime"@, "cyberpunk"@, "chinese-ink"@, "clay-3d"@, "pixel-art"@, "watercolor"@, "comic"@, "minimal-flat"@, "photorealistic-studio"@],
        TierList::Meme => seq!["laughing"@, "shocked"@, "eye-rolling"@, "crying"@, "angry"@, "cheering"@, "confused"@, "sleepy"@, "proud"@, "awkward"@, "love"@, "speechless"@],
        TierList::Portrait => seq!["wedding"@, "hanfu"@, "graduation"@, "travel"@, "professional"@, "cinematic"@, "retro"@, "fashion"@],
        TierList::TryOnModel => seq!["asian-female"@, "asian-male"@],
        TierList::TryOnScene => seq!["cafe"@, "studio"@],
        TierList::Color => seq!["burgundy"@, "navy"@, "haze-blue"@, "custom"@],
        TierList::Promo => seq!["limited-time-discount"@, "new-arrival"@, "clearance"@, "member-day"@],
        TierList::Platform => seq!["taobao-main-800x800"@, "xiaohongshu-1242x1656"@, "wechat-cover-900x383"@, "douyin-1080x1920"@],
        TierList::CoverPlatform => seq!["wechat"@, "xiaohongshu"@, "bilibili"@, "douyin"@],
        TierList::CoverStyle => seq!["bold"@, "editorial"@],
        TierList::ArticleUsage => seq!["ppt"@, "editorial"@],
        TierList::ArticleStyle => seq!["business-gradient"@, "flat"@],
        TierList::Food => seq!["delivery-standard"@, "menu-premium"@],
        TierList::Interior => seq!["scandinavian"@, "modern-chinese"@, "light-luxury"@, "warm-minimal"@],
    }
}

/// The tier names of a list.
pub fn tier_list(list: TierList) -> (tiers: &'static [&'static str])
    ensures
        tiers@.map_values(|t: &str| t@) == spec_tier_texts(list),
{
    let tiers: &'static [&'static str] = match list {
        TierList::Empty => &[],
        TierList::PosterStyle => &["tech-launch", "minimal", "luxury", "playful"],
        TierList::Restore => &["repair", "colorize", "clarity"],
        TierList::IdSize => &["one-inch", "two-inch", "visa"],
        TierList::IdBackground => &["blue", "red", "white"],
        TierList::IdAttire => &["suit", "female-suit"],
        TierList::Avatar => &["japanese-anime", "cyberpunk", "chinese-ink", "clay-3d", "pixel-art", "watercolor", "comic", "minimal-flat", "photorealistic-studio"],
        TierList::Meme => &["laughing", "shocked", "eye-rolling", "crying", "angry", "cheering", "confused", "sleepy", "proud", "awkward", "love", "speechless"],
        TierList::Portrait => &["wedding", "hanfu", "graduation", "travel", "professional", "cinematic", "retro", "fashion"],
        TierList::TryOnModel => &["asian-female", "asian-male"],
        TierList::TryOnScene => &["cafe", "studio"],
        TierList::Color => &["burgundy", "navy", "haze-blue", "custom"],
        TierList::Promo => &["limited-time-discount", "new-arrival", "clearance", "member-day"],
        TierList::Platform => &["taobao-main-800x800", "xiaohongshu-1242x1656", "wechat-cover-900x383", "douyin-1080x1920"],
        TierList::CoverPlatform => &["wechat", "xiaohongshu", "bilibili", "douyin"],
        TierList::CoverStyle => &["bold", "editorial"],
        TierList::ArticleUsage => &["ppt", "editorial"],
        TierList::ArticleStyle => &["business-gradient", "flat"],
        TierList::Food => &["delivery-standard", "menu-premium"],
        TierList::Interior => &["scandinavian", "modern-chinese", "light-luxury", "warm-minimal"],
    };
    proof {
        reveal_strlit("tech-launch");
        reveal_strlit("minimal");
        reveal_strlit("luxury");
        reveal_strlit("playful");
        reveal_strlit("repair");
        reveal_strlit("colorize");
        reveal_strlit("clarity");
        reveal_strlit("one-inch");
        reveal_strlit("two-inch");
        reveal_strlit("visa");
        reveal_strlit("blue");
        reveal_strlit("red");
        reveal_strlit("white");
        reveal_strlit("suit");
        reveal_strlit("female-suit");
        reveal_strlit("japanese-anime");
        reveal_strlit("cyberpunk");
        reveal_strlit("chinese-ink");
        reveal_strlit("clay-3d");
        reveal_strlit("pixel-art");
        reveal_strlit("watercolor");
        reveal_strlit("comic");
        reveal_strlit("minimal-flat");
        reveal_strlit("photorealistic-studio");
        reveal_strlit("laughing");
        reveal_strlit("shocked");
        reveal_strlit("eye-rolling");
        reveal_strlit("crying");
        reveal_strlit("angry");
        reveal_strlit("cheering");
        reveal_strlit("confused");
        reveal_strlit("sleepy");
        reveal_strlit("proud");
        reveal_strlit("awkward");
        reveal_strlit("love");
        reveal_strlit("speechless");
        reveal_strlit("wedding");
        reveal_strlit("hanfu");
        reveal_strlit("graduation");
        reveal_strlit("travel");
        reveal_strlit("professional");
        reveal_strlit("cinematic");
        reveal_strlit("retro");
        reveal_strlit("fashion");
        reveal_strlit("asian-female");
        reveal_strlit("asian-male");
        reveal_strlit("cafe");
        reveal_strlit("studio");
        reveal_strlit("burgundy");
        reveal_strlit("navy");
        reveal_strlit("haze-blue");
        reveal_strlit("custom");
        reveal_strlit("limited-time-discount");
        reveal_strlit("new-arrival");
        reveal_strlit("clearance");
        reveal_strlit("member-day");
        reveal_strlit("taobao-main-800x800");
        reveal_strlit("xiaohongshu-1242x1656");
        reveal_strlit("wechat-cover-900x383");
        reveal_strlit("douyin-1080x1920");
        reveal_strlit("wechat");
        reveal_strlit("xiaohongshu");
        reveal_strlit("bilibili");
        reveal_strlit("douyin");
        reveal_strlit("bold");
        reveal_strlit("editorial");
        reveal_strlit("ppt");
        reveal_strlit("editorial");
        reveal_strlit("business-gradient");
        reveal_strlit("flat");
        reveal_strlit("delivery-standard");
        reveal_strlit("menu-premium");
        reveal_strlit("scandinavian");
        reveal_strlit("modern-chinese");
        reveal_strlit("light-luxury");
        reveal_strlit("warm-minimal");
    }
    assert(tiers@.map_values(|t: &str| t@) =~= spec_tier_texts(list));
    tiers
}

/// The AI parameters of a feature.
#[derive(Debug, Clone, Copy)]
pub struct AiFeatureSpec {
    /// Tier names the user picks from.
    pub tiers: &'static [&'static str],
    /// Most tiers selected at once.
    pub max_selected: usize,
    /// Whether a source image is required.
    pub needs_image: bool,
    /// Ratio preselected for the feature.
    pub default_ratio: AspectRatio,
}

impl AiFeatureSpec {
    /// These parameters are the named tier list, limit, image need and ratio.
    pub open spec fn describes(
        self,
        tiers: TierList,
        max_selected: usize,
        needs_image: bool,
        ratio: AspectRatio,
    ) -> bool {
        &&& self.tiers@.map_values(|t: &str| t@) == spec_tier_texts(tiers)
        &&& self.max_selected == max_selected
        &&& self.needs_image == needs_image
        &&& self.default_ratio == ratio
    }
}

/// Item `index` of `items`, or the first item when `index` is past the end.
pub open spec fn spec_pick(items: Seq<Seq<char>>, index: int) -> Seq<char> {
    if 0 <= index < items.len() {
        items[index]
    } else {
        items[0]
    }
}

fn pick(items: &[&'static str], index: usize) -> (item: &'static str)
    requires
        items.len() > 0,
    ensures
        item@ == spec_pick(items@.map_values(|t: &str| t@), index as int),
{
    if index < items.len() {
        items[index]
    } else {
        items[0]
    }
}

/// `{size}-{background}-{attire}` for the ID-photo tool.
pub open spec fn spec_id_photo_tier(size: int, background: int, attire: int) -> Seq<char> {
    spec_pick(spec_tier_texts(TierList::IdSize), size) + "-"@ + spec_pick(
        spec_tier_texts(TierList::IdBackground),
        background,
    ) + "-"@ + spec_pick(spec_tier_texts(TierList::IdAttire), attire)
}

/// `{a}-{b}` from two tier lists.
pub open spec fn spec_pair_tier(a: TierList, i: int, b: TierList, j: int) -> Seq<char> {
    spec_pick(spec_tier_texts(a), i) + "-"@ + spec_pick(spec_tier_texts(b), j)
}

fn pair_tier(a: TierList, i: usize, b: TierList, j: usize) -> (tier: String)
    requires
        spec_tier_texts(a).len() > 0,
        spec_tier_texts(b).len() > 0,
    ensures
        tier@ == spec_pair_tier(a, i as int, b, j as int),
{
    proof {
        reveal_strlit("-");
    }
    let mut tier = String::new();
    push_str(&mut tier, pick(tier_list(a), i));
    push_str(&mut tier, "-");
    push_str(&mut tier, pick(tier_list(b), j));
    assert(tier@ =~= spec_pair_tier(a, i as int, b, j as int));
    tier
}

/// The ID-photo choice: size, background and attire joined by `-`; an index past the end
/// of its list takes the list's first name.
pub fn compose_id_photo_tier(size: usize, background: usize, attire: usize) -> (tier: String)
    ensures
        tier@ == spec_id_photo_tier(size as int, background as int, attire as int),
{
    proof {
        reveal_strlit("-");
    }
    let sizes = tier_list(TierList::IdSize);
    let backgrounds = tier_list(TierList::IdBackground);
    let attires = tier_list(TierList::IdAttire);
    assert(sizes@.map_values(|t: &str| t@).len() == sizes@.len());
    assert(backgrounds@.map_values(|t: &str| t@).len() == backgrounds@.len());
    assert(attires@.map_values(|t: &str| t@).len() == attires@.len());
    let mut tier = String::new();
    push_str(&mut tier, pick(sizes, size));
    push_str(&mut tier, "-");
    push_str(&mut tier, pick(backgrounds, background));
    push_str(&mut tier, "-");
    push_str(&mut tier, pick(attires, attire));
    assert(tier@ =~= spec_id_photo_tier(size as int, background as int, attire as int));
    tier
}

/// The try-on choice: model and scene joined by `-`.
pub fn compose_try_on_tier(model: usize, scene: usize) -> (tier: String)
    ensures
        tier@ == spec_pair_tier(TierList::TryOnModel, model as int, TierList::TryOnScene, scene as int),
{
    pair_tier(TierList::TryOnModel, model, TierList::TryOnScene, scene)
}

/// The cover choice: platform and style joined by `-`.
pub fn compose_cover_tier(platform: usize, style: usize) -> (tier: String)
    ensures
        tier@ == spec_pair_tier(
            TierList::CoverPlatform,
            platform as int,
            TierList::CoverStyle,
            style as int,
        ),
{
    pair_tier(TierList::CoverPlatform, platform, TierList::CoverStyle, style)
}

/// The article-illustration choice: usage and style joined by `-`.
pub fn compose_article_tier(usage: usize, style: usize) -> (tier: String)
    ensures
        tier@ == spec_pair_tier(
            TierList::ArticleUsage,
            usage as int,
            TierList::ArticleStyle,
            style as int,
        ),
{
    pair_tier(TierList::ArticleUsage, usage, TierList::ArticleStyle, style)
}

/// How an AI failure is shown.
#[derive(Debug, Clone, Copy, PartialEq, Eq, Structural)]
pub enum AiErrorKind {
    KeyRequired,
    InvalidKey,
    InsufficientBalance,
    RateLimited,
    Network,
    ContentBlocked,
    ImageTooLarge,
    Unsupported,
    InvalidRequest,
    Provider,
    Credential,
    Io,
    /// A region edit was asked for before a region was drawn.
    RegionNotSelected,
}

/// The kind shown for an AI error.
pub open spec fn spec_error_kind(error: AiError) -> AiErrorKind {
    match error {
        AiError::ApiKeyRequired | AiError::CredentialMissing => AiErrorKind::KeyRequired,
        AiError::InvalidCredentials => AiErrorKind::InvalidKey,
        AiError::InsufficientBalance => AiErrorKind::InsufficientBalance,
        AiError::RateLimited => AiErrorKind::RateLimited,
        AiError::Network => AiErrorKind::Network,
        AiError::ContentBlocked => AiErrorKind::ContentBlocked,
        AiError::ImageTooLarge { .. } => AiErrorKind::ImageTooLarge,
        AiError::UnsupportedCapability(_) | AiError::TooManyReferenceImages { .. } => AiErrorKind::Unsupported,
        AiError::InvalidRequest(_) => AiErrorKind::InvalidRequest,
        AiError::CredentialStore => AiErrorKind::Credential,
        AiError::ProviderUnavailable | AiError::InvalidResponse => AiErrorKind::Provider,
    }
}

impl AiErrorKind {
    /// Message key of the kind.
    pub fn i18n_key(self) -> (key: &'static str)
        ensures
            key@ == (match self {
                AiErrorKind::KeyRequired => "ai.error.key_required"@,
                AiErrorKind::InvalidKey => "ai.error.invalid_key"@,
                AiErrorKind::InsufficientBalance => "ai.error.insufficient_balance"@,
                AiErrorKind::RateLimited => "ai.error.rate_limited"@,
                AiErrorKind::Network => "ai.error.network"@,
                AiErrorKind::ContentBlocked => "ai.error.content_blocked"@,
                AiErrorKind::ImageTooLarge => "ai.error.image_too_large"@,
                AiErrorKind::Unsupported => "ai.error.unsupported"@,
                AiErrorKind::InvalidRequest => "ai.error.invalid_request"@,
                AiErrorKind::Provider => "ai.error.provider"@,
                AiErrorKind::Credential => "ai.error.credential"@,
                AiErrorKind::Io => "ai.error.io"@,
                AiErrorKind::RegionNotSelected => "ai.error.region_not_selected"@,
            }),
    {
        match self {
            AiErrorKind::KeyRequired => "ai.error.key_required",
            AiErrorKind::InvalidKey => "ai.error.invalid_key",
            AiErrorKind::InsufficientBalance => "ai.error.insufficient_balance",
            AiErrorKind::RateLimited => "ai.error.rate_limited",
            AiErrorKind::Network => "ai.error.network",
            AiErrorKind::ContentBlocked => "ai.error.content_blocked",
            AiErrorKind::ImageTooLarge => "ai.error.image_too_large",
            AiErrorKind::Unsupported => "ai.error.unsupported",
            AiErrorKind::InvalidRequest => "ai.error.invalid_request",
            AiErrorKind::Provider => "ai.error.provider",
            AiErrorKind::Credential => "ai.error.credential",
            AiErrorKind::Io => "ai.error.io",
            AiErrorKind::RegionNotSelected => "ai.error.region_not_selected",
        }
    }

    /// The kind shown for `error`.
    pub fn from_error(error: &AiError) -> (kind: AiErrorKind)
        ensures
            kind == spec_error_kind(*error),
    {
        match error {
            AiError::ApiKeyRequired | AiError::CredentialMissing => AiErrorKind::KeyRequired,
            AiError::InvalidCredentials => AiErrorKind::InvalidKey,
            AiError::InsufficientBalance => AiErrorKind::InsufficientBalance,
            AiError::RateLimited => AiErrorKind::RateLimited,
            AiError::Network => AiErrorKind::Network,
            AiError::ContentBlocked => AiErrorKind::ContentBlocked,
            AiError::ImageTooLarge { .. } => AiErrorKind::ImageTooLarge,
            AiError::UnsupportedCapability(_) | AiError::TooManyReferenceImages { .. } => AiErrorKind::Unsupported,
            AiError::InvalidRequest(_) => AiErrorKind::InvalidRequest,
            AiError::CredentialStore => AiErrorKind::Credential,
            AiError::ProviderUnavailable | AiError::InvalidResponse => AiErrorKind::Provider,
        }
    }
}

/// Progress of the AI page.
#[derive(Debug, Clone, Copy, PartialEq, Eq, Structural)]
pub enum AiStatus {
    Idle,
    Generating,
    Ready(usize),
    Saved(usize),
    Failed(AiErrorKind),
}

/// The AI page's choices (the generated images themselves are held by the window).
pub struct AiUiState {
    pub provider: ProviderId,
    pub aspect_ratio: AspectRatio,
    pub count: u8,
    pub quality: GenerationQuality,
    pub selected_tiers: BTreeSet<usize>,
    pub selected_results: BTreeSet<usize>,
    pub edit_preset_index: usize,
    pub id_size: usize,
    pub id_background: usize,
    pub id_attire: usize,
    pub try_on_model: usize,
    pub try_on_scene: usize,
    pub cover_platform: usize,
    pub cover_style: usize,
    pub article_usage: usize,
    pub article_style: usize,
    pub compare_original: bool,
    pub result_count: usize,
    pub status: AiStatus,
}

/// The most tiers a feature lets the user select at once (1 for non-AI features).
pub open spec fn tier_limit(feature: Feature) -> usize {
    match spec_ai_spec(feature) {
        Some((_, max, _, _)) => max,
        None => 1,
    }
}

/// The next provider in the cycle Seedream → Nano Banana → OpenAI → Seedream.
pub open spec fn next_provider(p: ProviderId) -> ProviderId {
    match p {
        ProviderId::Seedream => ProviderId::NanoBanana,
        ProviderId::NanoBanana => ProviderId::OpenAi,
        ProviderId::OpenAi => ProviderId::Seedream,
    }
}

/// The page's choices other than its progress and results are the same.
pub open spec fn same_choices(a: AiUiState, b: AiUiState) -> bool {
    &&& a.provider == b.provider
    &&& a.aspect_ratio == b.aspect_ratio
    &&& a.count == b.count
    &&& a.quality == b.quality
    &&& a.selected_tiers@ == b.selected_tiers@
    &&& a.edit_preset_index == b.edit_preset_index
    &&& a.id_size == b.id_size
    &&& a.id_background == b.id_background
    &&& a.id_attire == b.id_attire
    &&& a.try_on_model == b.try_on_model
    &&& a.try_on_scene == b.try_on_scene
    &&& a.cover_platform == b.cover_platform
    &&& a.cover_style == b.cover_style
    &&& a.article_usage == b.article_usage
    &&& a.article_style == b.article_style
    &&& a.compare_original == b.compare_original
}

impl Default for AiUiState {
    /// A fresh page for the default provider (Seedream).
    fn default() -> (state: AiUiState)
        ensures
            state.provider == ProviderId::Seedream,
            state.aspect_ratio == AspectRatio::Square,
            state.count == 1,
            state.quality == GenerationQuality::Medium,
            state.selected_tiers@ == set![0usize],
            state.selected_results@ == Set::<usize>::empty(),
            state.edit_preset_index == 0,
            state.result_count == 0,
            state.status == AiStatus::Idle,
            !state.compare_original,
    {
        AiUiState::new(ProviderId::Seedream)
    }
}

impl AiUiState {
    /// A fresh page for `provider`: square, one image, medium quality, the first tier
    /// selected.
    pub fn new(provider: ProviderId) -> (state: AiUiState)
        ensures
            state.provider == provider,
            state.aspect_ratio == AspectRatio::Square,
            state.count == 1,
            state.quality == GenerationQuality::Medium,
            state.selected_tiers@ == set![0usize],
            state.selected_results@ == Set::<usize>::empty(),
            state.edit_preset_index == 0,
            state.result_count == 0,
            state.status == AiStatus::Idle,
            !state.compare_original,
    {
        let mut tiers: BTreeSet<usize> = BTreeSet::new();
        tiers.insert(0);
        assert(tiers@ =~= set![0usize]);
        AiUiState {
            provider,
            aspect_ratio: AspectRatio::Square,
            count: 1,
            quality: GenerationQuality::Medium,
            selected_tiers: tiers,
            selected_results: BTreeSet::new(),
            edit_preset_index: 0,
            id_size: 0,
            id_background: 0,
            id_attire: 0,
            try_on_model: 0,
            try_on_scene: 0,
            cover_platform: 0,
            cover_style: 0,
            article_usage: 0,
            article_style: 0,
            compare_original: false,
            result_count: 0,
            status: AiStatus::Idle,
        }
    }

    /// Adapts the ratio and count to a provider: an unsupported ratio becomes the first
    /// supported one, and the count is kept within `1..=max`.
    pub fn apply_capabilities(&mut self, capabilities: ProviderCapabilities)
        requires
            capabilities.supported_aspect_ratios@.len() > 0,
            capabilities.max_generation_count >= 1,
        ensures
            final(self).aspect_ratio == if capabilities.supported_aspect_ratios@.contains(
                old(self).aspect_ratio,
            ) {
                old(self).aspect_ratio
            } else {
                capabilities.supported_aspect_ratios@[0]
            },
            final(self).count == if old(self).count < 1 {
                1
            } else if old(self).count > capabilities.max_generation_count {
                capabilities.max_generation_count
            } else {
                old(self).count
            },
            final(self).provider == old(self).provider,
            final(self).selected_tiers@ == old(self).selected_tiers@,
    {
        let mut found = false;
        let mut i: usize = 0;
        while i < capabilities.supported_aspect_ratios.len()
            invariant
                i <= capabilities.supported_aspect_ratios@.len(),
                found <==> exists|j: int|
                    0 <= j < i && capabilities.supported_aspect_ratios@[j] == self.aspect_ratio,
            decreases capabilities.supported_aspect_ratios@.len() - i,
        {
            if capabilities.supported_aspect_ratios[i] == self.aspect_ratio {
                found = true;
            }
            i = i + 1;
        }
        if !found {
            self.aspect_ratio = capabilities.supported_aspect_ratios[0];
        }
        if self.count < 1 {
            self.count = 1;
        } else if self.count > capabilities.max_generation_count {
            self.count = capabilities.max_generation_count;
        }
    }

    /// Moves to the next provider.
    pub fn cycle_provider(&mut self)
        ensures
            final(self).provider == next_provider(old(self).provider),
            final(self).selected_tiers@ == old(self).selected_tiers@,
    {
        self.provider = match self.provider {
            ProviderId::Seedream => ProviderId::NanoBanana,
            ProviderId::NanoBanana => ProviderId::OpenAi,
            ProviderId::OpenAi => ProviderId::Seedream,
        };
    }

    /// Selects or deselects tier `index`: the last selected tier cannot be removed, and no
    /// tier is added beyond the feature's limit.
    pub fn toggle_tier(&mut self, feature: Feature, index: usize)
        ensures
            old(self).selected_tiers@.contains(index) ==> final(self).selected_tiers@ == if old(
                self,
            ).selected_tiers@.len() > 1 {
                old(self).selected_tiers@.remove(index)
            } else {
                old(self).selected_tiers@
            },
            !old(self).selected_tiers@.contains(index) ==> final(self).selected_tiers@ == if old(
                self,
            ).selected_tiers@.len() < tier_limit(feature) {
                old(self).selected_tiers@.insert(index)
            } else {
                old(self).selected_tiers@
            },
            final(self).provider == old(self).provider,
    {
        let maximum = match feature.ai_spec() {
            Some(spec) => spec.max_selected,
            None => 1,
        };
        if self.selected_tiers.contains(&index) {
            if self.selected_tiers.len() > 1 {
                self.selected_tiers.remove(&index);
            }
        } else if self.selected_tiers.len() < maximum {
            self.selected_tiers.insert(index);
        }
    }

    /// Chooses edit preset `index` when it exists.
    pub fn set_edit_preset(&mut self, index: usize)
        ensures
            final(self).edit_preset_index == if index < spec_edit_preset_count() {
                index
            } else {
                old(self).edit_preset_index
            },
    {
        if index < crate::presets::edit_preset_count() {
            self.edit_preset_index = index;
        }
    }

    /// The combined tier of the tools that join several axes; `None` for the others.
    pub open spec fn spec_composed_tier(&self, feature: Feature) -> Option<Seq<char>> {
        match feature {
            Feature::IdPhoto => Some(
                spec_id_photo_tier(self.id_size as int, self.id_background as int, self.id_attire as int),
            ),
            Feature::ModelTryOn => Some(
                spec_pair_tier(TierList::TryOnModel, self.try_on_model as int, TierList::TryOnScene, self.try_on_scene as int),
            ),
            Feature::CoverFactory => Some(
                spec_pair_tier(TierList::CoverPlatform, self.cover_platform as int, TierList::CoverStyle, self.cover_style as int),
            ),
            Feature::ArticleIllustration => Some(
                spec_pair_tier(TierList::ArticleUsage, self.article_usage as int, TierList::ArticleStyle, self.article_style as int),
            ),
            _ => None,
        }
    }

    /// The combined tier of the tools that join several axes; `None` for the others.
    pub fn composed_tier(&self, feature: Feature) -> (tier: Option<String>)
        ensures
            match tier {
                Some(t) => self.spec_composed_tier(feature) == Some(t@),
                None => self.spec_composed_tier(feature) is None,
            },
            match feature {
                Feature::IdPhoto => (tier matches Some(t) && t@ == spec_id_photo_tier(
                    self.id_size as int,
                    self.id_background as int,
                    self.id_attire as int,
                )),
                Feature::ModelTryOn => (tier matches Some(t) && t@ == spec_pair_tier(
                    TierList::TryOnModel,
                    self.try_on_model as int,
                    TierList::TryOnScene,
                    self.try_on_scene as int,
                )),
                Feature::CoverFactory => (tier matches Some(t) && t@ == spec_pair_tier(
                    TierList::CoverPlatform,
                    self.cover_platform as int,
                    TierList::CoverStyle,
                    self.cover_style as int,
                )),
                Feature::ArticleIllustration => (tier matches Some(t) && t@ == spec_pair_tier(
                    TierList::ArticleUsage,
                    self.article_usage as int,
                    TierList::ArticleStyle,
                    self.article_style as int,
                )),
                _ => tier is None,
            },
    {
        match feature {
            Feature::IdPhoto => Some(
                compose_id_photo_tier(self.id_size, self.id_background, self.id_attire),
            ),
            Feature::ModelTryOn => Some(compose_try_on_tier(self.try_on_model, self.try_on_scene)),
            Feature::CoverFactory => Some(compose_cover_tier(self.cover_platform, self.cover_style)),
            Feature::ArticleIllustration => Some(
                compose_article_tier(self.article_usage, self.article_style),
            ),
            _ => None,
        }
    }

    /// Selects or deselects result `index`.
    pub fn toggle_result(&mut self, index: usize)
        ensures
            final(self).selected_results@ == if old(self).selected_results@.contains(index) {
                old(self).selected_results@.remove(index)
            } else {
                old(self).selected_results@.insert(index)
            },
    {
        if !self.selected_results.remove(&index) {
            self.selected_results.insert(index);
        }
    }

    /// Records `count` new results: all of them selected, status ready.
    pub fn set_result_count(&mut self, count: usize)
        ensures
            same_choices(*final(self), *old(self)),
            final(self).selected_results@ == Set::new(|i: usize| i < count),
            final(self).status == AiStatus::Ready(count),
            final(self).result_count == count,
    {
        let mut selected: BTreeSet<usize> = BTreeSet::new();
        let mut i: usize = 0;
        while i < count
            invariant
                i <= count,
                selected@ == Set::new(|k: usize| k < i),
            decreases count - i,
        {
            selected.insert(i);
            i = i + 1;
            assert(selected@ =~= Set::new(|k: usize| k < i));
        }
        self.selected_results = selected;
        self.status = AiStatus::Ready(count);
        self.result_count = count;
    }
}

/// The tier selection is never emptied and never grows beyond the feature's limit: from a
/// selection of one to the limit, every toggle leaves a selection of one to the limit.
pub proof fn law_tier_selection_stays_within_limit(
    before: Set<usize>,
    after: Set<usize>,
    feature: Feature,
    index: usize,
)
    requires
        before.finite(),
        1 <= before.len() <= tier_limit(feature),
        before.contains(index) ==> after == if before.len() > 1 {
            before.remove(index)
        } else {
            before
        },
        !before.contains(index) ==> after == if before.len() < tier_limit(feature) {
            before.insert(index)
        } else {
            before
        },
    ensures
        1 <= after.len() <= tier_limit(feature),
{
}

} // verus!
