//! Fixed prompt templates of the AI editing presets and industry tools.
//!
//! Template text is part of the program and is never shown to the user: callers choose a
//! tool and a tier, and the rendered prompt goes straight to the provider.

use vstd::prelude::*;

use crate::text::{chars_of, is_whitespace, string_from_chars};

verus! {

/// The AI editing presets.
#[derive(Debug, Clone, Copy, PartialEq, Eq, Structural, Hash)]
pub enum AiEditPreset {
    Removal,
    BackgroundReplacement,
    Expansion,
    ClarityEnhancement,
    BackgroundRemoval,
    EcommerceWhiteBackground,
    PortraitEnhancement,
    TextReplacement,
    StickerApplication,
    ProductPhotoSet,
    ProfessionalPortrait,
    Freeform,
}

/// Number of editing presets.
pub open spec fn spec_edit_preset_count() -> usize {
    12
}

/// Number of editing presets.
pub fn edit_preset_count() -> (n: usize)
    ensures
        n == spec_edit_preset_count(),
{
    12
}

/// The industry tools.
#[derive(Debug, Clone, Copy, PartialEq, Eq, Structural, Hash)]
pub enum IndustryTool {
    OldPhotoRestoration,
    IdPhoto,
    AvatarStudio,
    MemeGenerator,
    AiPortrait,
    ModelTryOn,
    ProductRecolor,
    PromotionalPoster,
    PlatformAdaptation,
    CoverFactory,
    ArticleIllustration,
    FoodEnhancement,
    InteriorPreview,
}

/// Every editing preset, in display order.
pub open spec fn spec_all_edit_presets() -> Seq<AiEditPreset> {
    seq![AiEditPreset::Removal, AiEditPreset::BackgroundReplacement, AiEditPreset::Expansion, AiEditPreset::ClarityEnhancement, AiEditPreset::BackgroundRemoval, AiEditPreset::EcommerceWhiteBackground, AiEditPreset::PortraitEnhancement, AiEditPreset::TextReplacement, AiEditPreset::StickerApplication, AiEditPreset::ProductPhotoSet, AiEditPreset::ProfessionalPortrait, AiEditPreset::Freeform]
}

/// Stable identifier of an editing preset.
pub open spec fn spec_edit_preset_id(preset: AiEditPreset) -> Seq<char> {
    match preset {
        AiEditPreset::Removal => "removal"@,
        AiEditPreset::BackgroundReplacement => "background-replacement"@,
        AiEditPreset::Expansion => "expansion"@,
        AiEditPreset::ClarityEnhancement => "clarity-enhancement"@,
        AiEditPreset::BackgroundRemoval => "background-removal"@,
        AiEditPreset::EcommerceWhiteBackground => "ecommerce-white-background"@,
        AiEditPreset::PortraitEnhancement => "portrait-enhancement"@,
        AiEditPreset::TextReplacement => "text-replacement"@,
        AiEditPreset::StickerApplication => "sticker-application"@,
        AiEditPreset::ProductPhotoSet => "product-photo-set"@,
        AiEditPreset::ProfessionalPortrait => "professional-portrait"@,
        AiEditPreset::Freeform => "freeform"@,
    }
}

impl AiEditPreset {
    /// Every preset, in display order.
    pub fn all() -> (presets: [AiEditPreset; 12])
        ensures
            presets@ == spec_all_edit_presets(),
            presets@ == seq![AiEditPreset::Removal, AiEditPreset::BackgroundReplacement, AiEditPreset::Expansion, AiEditPreset::ClarityEnhancement, AiEditPreset::BackgroundRemoval, AiEditPreset::EcommerceWhiteBackground, AiEditPreset::PortraitEnhancement, AiEditPreset::TextReplacement, AiEditPreset::StickerApplication, AiEditPreset::ProductPhotoSet, AiEditPreset::ProfessionalPortrait, AiEditPreset::Freeform],
    {
        let presets = [AiEditPreset::Removal, AiEditPreset::BackgroundReplacement, AiEditPreset::Expansion, AiEditPreset::ClarityEnhancement, AiEditPreset::BackgroundRemoval, AiEditPreset::EcommerceWhiteBackground, AiEditPreset::PortraitEnhancement, AiEditPreset::TextReplacement, AiEditPreset::StickerApplication, AiEditPreset::ProductPhotoSet, AiEditPreset::ProfessionalPortrait, AiEditPreset::Freeform];
        assert(presets@ =~= seq![AiEditPreset::Removal, AiEditPreset::BackgroundReplacement, AiEditPreset::Expansion, AiEditPreset::ClarityEnhancement, AiEditPreset::BackgroundRemoval, AiEditPreset::EcommerceWhiteBackground, AiEditPreset::PortraitEnhancement, AiEditPreset::TextReplacement, AiEditPreset::StickerApplication, AiEditPreset::ProductPhotoSet, AiEditPreset::ProfessionalPortrait, AiEditPreset::Freeform]);
        presets
    }

    /// Stable identifier of the preset.
    pub fn id(self) -> (id: &'static str)
        ensures
            id@ == spec_edit_preset_id(self),
            id@ == (match self {
                AiEditPreset::Removal => "removal"@,
                AiEditPreset::BackgroundReplacement => "background-replacement"@,
                AiEditPreset::Expansion => "expansion"@,
                AiEditPreset::ClarityEnhancement => "clarity-enhancement"@,
                AiEditPreset::BackgroundRemoval => "background-removal"@,
                AiEditPreset::EcommerceWhiteBackground => "ecommerce-white-background"@,
                AiEditPreset::PortraitEnhancement => "portrait-enhancement"@,
                AiEditPreset::TextReplacement => "text-replacement"@,
                AiEditPreset::StickerApplication => "sticker-application"@,
                AiEditPreset::ProductPhotoSet => "product-photo-set"@,
                AiEditPreset::ProfessionalPortrait => "professional-portrait"@,
                AiEditPreset::Freeform => "freeform"@,
            }),
    {
        match self {
            AiEditPreset::Removal => "removal",
            AiEditPreset::BackgroundReplacement => "background-replacement",
            AiEditPreset::Expansion => "expansion",
            AiEditPreset::ClarityEnhancement => "clarity-enhancement",
            AiEditPreset::BackgroundRemoval => "background-removal",
            AiEditPreset::EcommerceWhiteBackground => "ecommerce-white-background",
            AiEditPreset::PortraitEnhancement => "portrait-enhancement",
            AiEditPreset::TextReplacement => "text-replacement",
            AiEditPreset::StickerApplication => "sticker-application",
            AiEditPreset::ProductPhotoSet => "product-photo-set",
            AiEditPreset::ProfessionalPortrait => "professional-portrait",
            AiEditPreset::Freeform => "freeform",
        }
    }
}

impl IndustryTool {
    /// Every tool, in display order.
    pub fn all() -> (tools: [IndustryTool; 13])
        ensures
            tools@ == seq![IndustryTool::OldPhotoRestoration, IndustryTool::IdPhoto, IndustryTool::AvatarStudio, IndustryTool::MemeGenerator, IndustryTool::AiPortrait, IndustryTool::ModelTryOn, IndustryTool::ProductRecolor, IndustryTool::PromotionalPoster, IndustryTool::PlatformAdaptation, IndustryTool::CoverFactory, IndustryTool::ArticleIllustration, IndustryTool::FoodEnhancement, IndustryTool::InteriorPreview],
    {
        let tools = [IndustryTool::OldPhotoRestoration, IndustryTool::IdPhoto, IndustryTool::AvatarStudio, IndustryTool::MemeGenerator, IndustryTool::AiPortrait, IndustryTool::ModelTryOn, IndustryTool::ProductRecolor, IndustryTool::PromotionalPoster, IndustryTool::PlatformAdaptation, IndustryTool::CoverFactory, IndustryTool::ArticleIllustration, IndustryTool::FoodEnhancement, IndustryTool::InteriorPreview];
        assert(tools@ =~= seq![IndustryTool::OldPhotoRestoration, IndustryTool::IdPhoto, IndustryTool::AvatarStudio, IndustryTool::MemeGenerator, IndustryTool::AiPortrait, IndustryTool::ModelTryOn, IndustryTool::ProductRecolor, IndustryTool::PromotionalPoster, IndustryTool::PlatformAdaptation, IndustryTool::CoverFactory, IndustryTool::ArticleIllustration, IndustryTool::FoodEnhancement, IndustryTool::InteriorPreview]);
        tools
    }

    /// Stable identifier of the tool.
    pub fn id(self) -> (id: &'static str)
        ensures
            id@ == (match self {
                IndustryTool::OldPhotoRestoration => "old-photo-restoration"@,
                IndustryTool::IdPhoto => "id-photo"@,
                IndustryTool::AvatarStudio => "avatar-studio"@,
                IndustryTool::MemeGenerator => "meme-generator"@,
                IndustryTool::AiPortrait => "ai-portrait"@,
                IndustryTool::ModelTryOn => "model-try-on"@,
                IndustryTool::ProductRecolor => "product-recolor"@,
                IndustryTool::PromotionalPoster => "promotional-poster"@,
                IndustryTool::PlatformAdaptation => "platform-adaptation"@,
                IndustryTool::CoverFactory => "cover-factory"@,
                IndustryTool::ArticleIllustration => "article-illustration"@,
                IndustryTool::FoodEnhancement => "food-enhancement"@,
                IndustryTool::InteriorPreview => "interior-preview"@,
            }),
    {
        match self {
            IndustryTool::OldPhotoRestoration => "old-photo-restoration",
            IndustryTool::IdPhoto => "id-photo",
            IndustryTool::AvatarStudio => "avatar-studio",
            IndustryTool::MemeGenerator => "meme-generator",
            IndustryTool::AiPortrait => "ai-portrait",
            IndustryTool::ModelTryOn => "model-try-on",
            IndustryTool::ProductRecolor => "product-recolor",
            IndustryTool::PromotionalPoster => "promotional-poster",
            IndustryTool::PlatformAdaptation => "platform-adaptation",
            IndustryTool::CoverFactory => "cover-factory",
            IndustryTool::ArticleIllustration => "article-illustration",
            IndustryTool::FoodEnhancement => "food-enhancement",
            IndustryTool::InteriorPreview => "interior-preview",
        }
    }
}

/// The template of an editing preset; free-form editing has none.
pub open spec fn spec_edit_template(preset: AiEditPreset) -> Option<Seq<char>> {
    match preset {
        AiEditPreset::Removal => Some("Remove the marked object from the photo and rebuild the area behind it so that texture, lighting and perspective continue naturally. Removal strength: {{tier}}. Extra guidance from the user: {{user_instruction}}. Keep every other part of the image unchanged."@),
        AiEditPreset::BackgroundReplacement => Some("Replace the background of the photo while keeping the main subject exactly as it is, with clean edges and matching light direction and colour temperature. Background style: {{tier}}. Extra guidance from the user: {{user_instruction}}."@),
        AiEditPreset::Expansion => Some("Extend the canvas of the photo outward and fill the new area so that it continues the existing scene seamlessly, with consistent perspective, texture and lighting. Expansion style: {{tier}}. Extra guidance from the user: {{user_instruction}}."@),
        AiEditPreset::ClarityEnhancement => Some("Make the photo sharper and cleaner: recover fine detail, reduce noise and compression artefacts, and keep faces, text and colours faithful to the original. Enhancement level: {{tier}}. Extra guidance from the user: {{user_instruction}}."@),
        AiEditPreset::BackgroundRemoval => Some("Separate the main subject from its background and output the subject on a fully transparent background with precise, natural edges around hair and fine details. Cut-out mode: {{tier}}. Extra guidance from the user: {{user_instruction}}."@),
        AiEditPreset::EcommerceWhiteBackground => Some("Place the product on a pure white studio background suitable for an online shop listing, centred, evenly lit, with a soft natural shadow and true-to-life colours. Listing style: {{tier}}. Extra guidance from the user: {{user_instruction}}."@),
        AiEditPreset::PortraitEnhancement => Some("Retouch the portrait naturally: even out skin tone, soften blemishes, brighten the eyes and balance the lighting while keeping the person fully recognisable. Retouch level: {{tier}}. Extra guidance from the user: {{user_instruction}}."@),
        AiEditPreset::TextReplacement => Some("Replace the selected text in the image with new wording while matching the original font, size, colour, perspective and texture so the change is invisible. Text style: {{tier}}. New text and guidance from the user: {{user_instruction}}."@),
        AiEditPreset::StickerApplication => Some("Add a decorative sticker element to the photo, blending it with believable lighting, shadow and perspective so it looks placed on the scene. Sticker style: {{tier}}. Extra guidance from the user: {{user_instruction}}."@),
        AiEditPreset::ProductPhotoSet => Some("Create a coherent product photo for a catalogue set from the reference product, keeping its shape, colours and branding exact while varying only the composition. Set style: {{tier}}. Extra guidance from the user: {{user_instruction}}."@),
        AiEditPreset::ProfessionalPortrait => Some("Turn the photo into a professional headshot with a neat studio background, flattering soft light and business-appropriate styling while preserving identity. Headshot style: {{tier}}. Extra guidance from the user: {{user_instruction}}."@),
        AiEditPreset::Freeform => None,
    }
}

fn edit_template(preset: AiEditPreset) -> (t: Option<&'static str>)
    ensures
        match t {
            Some(s) => spec_edit_template(preset) == Some(s@),
            None => spec_edit_template(preset) is None,
        },
{
    match preset {
        AiEditPreset::Removal => Some("Remove the marked object from the photo and rebuild the area behind it so that texture, lighting and perspective continue naturally. Removal strength: {{tier}}. Extra guidance from the user: {{user_instruction}}. Keep every other part of the image unchanged."),
        AiEditPreset::BackgroundReplacement => Some("Replace the background of the photo while keeping the main subject exactly as it is, with clean edges and matching light direction and colour temperature. Background style: {{tier}}. Extra guidance from the user: {{user_instruction}}."),
        AiEditPreset::Expansion => Some("Extend the canvas of the photo outward and fill the new area so that it continues the existing scene seamlessly, with consistent perspective, texture and lighting. Expansion style: {{tier}}. Extra guidance from the user: {{user_instruction}}."),
        AiEditPreset::ClarityEnhancement => Some("Make the photo sharper and cleaner: recover fine detail, reduce noise and compression artefacts, and keep faces, text and colours faithful to the original. Enhancement level: {{tier}}. Extra guidance from the user: {{user_instruction}}."),
        AiEditPreset::BackgroundRemoval => Some("Separate the main subject from its background and output the subject on a fully transparent background with precise, natural edges around hair and fine details. Cut-out mode: {{tier}}. Extra guidance from the user: {{user_instruction}}."),
        AiEditPreset::EcommerceWhiteBackground => Some("Place the product on a pure white studio background suitable for an online shop listing, centred, evenly lit, with a soft natural shadow and true-to-life colours. Listing style: {{tier}}. Extra guidance from the user: {{user_instruction}}."),
        AiEditPreset::PortraitEnhancement => Some("Retouch the portrait naturally: even out skin tone, soften blemishes, brighten the eyes and balance the lighting while keeping the person fully recognisable. Retouch level: {{tier}}. Extra guidance from the user: {{user_instruction}}."),
        AiEditPreset::TextReplacement => Some("Replace the selected text in the image with new wording while matching the original font, size, colour, perspective and texture so the change is invisible. Text style: {{tier}}. New text and guidance from the user: {{user_instruction}}."),
        AiEditPreset::StickerApplication => Some("Add a decorative sticker element to the photo, blending it with believable lighting, shadow and perspective so it looks placed on the scene. Sticker style: {{tier}}. Extra guidance from the user: {{user_instruction}}."),
        AiEditPreset::ProductPhotoSet => Some("Create a coherent product photo for a catalogue set from the reference product, keeping its shape, colours and branding exact while varying only the composition. Set style: {{tier}}. Extra guidance from the user: {{user_instruction}}."),
        AiEditPreset::ProfessionalPortrait => Some("Turn the photo into a professional headshot with a neat studio background, flattering soft light and business-appropriate styling while preserving identity. Headshot style: {{tier}}. Extra guidance from the user: {{user_instruction}}."),
        AiEditPreset::Freeform => None,
    }
}

/// The template of an industry tool.
pub open spec fn spec_industry_template(tool: IndustryTool) -> Seq<char> {
    match tool {
        IndustryTool::OldPhotoRestoration => "Restore the old photograph: repair scratches, tears, stains and fading, recover lost detail and keep the period look and every person's identity intact. Restoration choice: {{tier}}. Extra guidance from the user: {{user_instruction}}."@,
        IndustryTool::IdPhoto => "Produce a compliant identification photo of the person: front-facing, neutral expression, even lighting, correct head size and a plain background as specified. Size, background and attire: {{tier}}. Extra guidance from the user: {{user_instruction}}."@,
        IndustryTool::AvatarStudio => "Create a profile avatar of the person in the requested art style, keeping facial features recognisable and composing the head and shoulders for a square crop. Avatar style: {{tier}}. Extra guidance from the user: {{user_instruction}}."@,
        IndustryTool::MemeGenerator => "Turn the subject into an expressive chat sticker with an exaggerated, readable emotion, a clean outline and a simple background that works at small sizes. Emotion: {{tier}}. Extra guidance from the user: {{user_instruction}}."@,
        IndustryTool::AiPortrait => "Create a themed portrait of the person in a polished photographic style, with fitting wardrobe, setting and lighting, while keeping the face faithful to the reference. Portrait theme: {{tier}}. Extra guidance from the user: {{user_instruction}}."@,
        IndustryTool::ModelTryOn => "Show the reference garment worn by a model, preserving the garment's cut, colour, pattern and fabric exactly, with natural fit, pose and lighting. Model and scene: {{tier}}. Extra guidance from the user: {{user_instruction}}."@,
        IndustryTool::ProductRecolor => "Recolour the product to the requested colour while keeping its material, texture, reflections, logos and shading realistic and unchanged in shape. Target colour: {{tier}}. Extra guidance from the user: {{user_instruction}}."@,
        IndustryTool::PromotionalPoster => "Design a promotional poster around the product with a clear focal point, strong hierarchy, space for headline text and an eye-catching but tidy layout. Campaign type: {{tier}}. Extra guidance from the user: {{user_instruction}}."@,
        IndustryTool::PlatformAdaptation => "Adapt the image to the target platform's format and conventions, recomposing the subject to fit the required dimensions without distortion or awkward cropping. Target platform and size: {{tier}}. Extra guidance from the user: {{user_instruction}}."@,
        IndustryTool::CoverFactory => "Design a cover image for the given platform with a bold focal subject, strong contrast and room for a title, following the visual habits of that platform. Platform and style: {{tier}}. Extra guidance from the user: {{user_instruction}}."@,
        IndustryTool::ArticleIllustration => "Create an illustration for an article or presentation that explains the topic at a glance, with a clean composition and a consistent, professional visual style. Usage and style: {{tier}}. Extra guidance from the user: {{user_instruction}}."@,
        IndustryTool::FoodEnhancement => "Make the dish look fresh and appetising: improve colour, texture, steam and highlights, tidy the plate and background, and keep the food itself true to reality. Presentation standard: {{tier}}. Extra guidance from the user: {{user_instruction}}."@,
        IndustryTool::InteriorPreview => "Render the room in the requested interior style, keeping walls, windows and layout in place while changing furniture, materials, colours and lighting to match. Interior style: {{tier}}. Extra guidance from the user: {{user_instruction}}."@,
    }
}

fn industry_template(tool: IndustryTool) -> (t: &'static str)
    ensures
        t@ == spec_industry_template(tool),
{
    match tool {
        IndustryTool::OldPhotoRestoration => "Restore the old photograph: repair scratches, tears, stains and fading, recover lost detail and keep the period look and every person's identity intact. Restoration choice: {{tier}}. Extra guidance from the user: {{user_instruction}}.",
        IndustryTool::IdPhoto => "Produce a compliant identification photo of the person: front-facing, neutral expression, even lighting, correct head size and a plain background as specified. Size, background and attire: {{tier}}. Extra guidance from the user: {{user_instruction}}.",
        IndustryTool::AvatarStudio => "Create a profile avatar of the person in the requested art style, keeping facial features recognisable and composing the head and shoulders for a square crop. Avatar style: {{tier}}. Extra guidance from the user: {{user_instruction}}.",
        IndustryTool::MemeGenerator => "Turn the subject into an expressive chat sticker with an exaggerated, readable emotion, a clean outline and a simple background that works at small sizes. Emotion: {{tier}}. Extra guidance from the user: {{user_instruction}}.",
        IndustryTool::AiPortrait => "Create a themed portrait of the person in a polished photographic style, with fitting wardrobe, setting and lighting, while keeping the face faithful to the reference. Portrait theme: {{tier}}. Extra guidance from the user: {{user_instruction}}.",
        IndustryTool::ModelTryOn => "Show the reference garment worn by a model, preserving the garment's cut, colour, pattern and fabric exactly, with natural fit, pose and lighting. Model and scene: {{tier}}. Extra guidance from the user: {{user_instruction}}.",
        IndustryTool::ProductRecolor => "Recolour the product to the requested colour while keeping its material, texture, reflections, logos and shading realistic and unchanged in shape. Target colour: {{tier}}. Extra guidance from the user: {{user_instruction}}.",
        IndustryTool::PromotionalPoster => "Design a promotional poster around the product with a clear focal point, strong hierarchy, space for headline text and an eye-catching but tidy layout. Campaign type: {{tier}}. Extra guidance from the user: {{user_instruction}}.",
        IndustryTool::PlatformAdaptation => "Adapt the image to the target platform's format and conventions, recomposing the subject to fit the required dimensions without distortion or awkward cropping. Target platform and size: {{tier}}. Extra guidance from the user: {{user_instruction}}.",
        IndustryTool::CoverFactory => "Design a cover image for the given platform with a bold focal subject, strong contrast and room for a title, following the visual habits of that platform. Platform and style: {{tier}}. Extra guidance from the user: {{user_instruction}}.",
        IndustryTool::ArticleIllustration => "Create an illustration for an article or presentation that explains the topic at a glance, with a clean composition and a consistent, professional visual style. Usage and style: {{tier}}. Extra guidance from the user: {{user_instruction}}.",
        IndustryTool::FoodEnhancement => "Make the dish look fresh and appetising: improve colour, texture, steam and highlights, tidy the plate and background, and keep the food itself true to reality. Presentation standard: {{tier}}. Extra guidance from the user: {{user_instruction}}.",
        IndustryTool::InteriorPreview => "Render the room in the requested interior style, keeping walls, windows and layout in place while changing furniture, materials, colours and lighting to match. Interior style: {{tier}}. Extra guidance from the user: {{user_instruction}}.",
    }
}

/// The template of poster backgrounds.
pub open spec fn spec_poster_template() -> Seq<char> {
    "Create a poster background with a strong visual mood and generous empty space for headline and body text, avoiding any lettering in the image itself. Visual style: {{tier}}. Extra guidance from the user: {{user_instruction}}."@
}

/// `s` without leading white space.
pub open spec fn trim_start_ws(s: Seq<char>) -> Seq<char>
    decreases s.len(),
{
    if s.len() > 0 && is_whitespace(s[0]) {
        trim_start_ws(s.drop_first())
    } else {
        s
    }
}

/// `s` without trailing white space.
pub open spec fn trim_end_ws(s: Seq<char>) -> Seq<char>
    decreases s.len(),
{
    if s.len() > 0 && is_whitespace(s.last()) {
        trim_end_ws(s.drop_last())
    } else {
        s
    }
}

/// `s` with white space trimmed from both ends.
pub open spec fn trim_ws(s: Seq<char>) -> Seq<char> {
    trim_end_ws(trim_start_ws(s))
}

/// `s` with every occurrence of `pattern` replaced by `with`, scanning left to right
/// without overlaps.
pub open spec fn spec_replace(s: Seq<char>, pattern: Seq<char>, with: Seq<char>) -> Seq<char>
    decreases s.len(),
{
    if s.len() == 0 || pattern.len() == 0 {
        s
    } else if pattern.len() <= s.len() && s.take(pattern.len() as int) == pattern {
        with + spec_replace(s.skip(pattern.len() as int), pattern, with)
    } else {
        seq![s[0]] + spec_replace(s.drop_first(), pattern, with)
    }
}

/// The tier placeholder.
pub open spec fn tier_placeholder() -> Seq<char> {
    "{{tier}}"@
}

/// The instruction placeholder.
pub open spec fn instruction_placeholder() -> Seq<char> {
    "{{user_instruction}}"@
}

/// A template with the trimmed tier, then the trimmed instruction, put in place of their
/// placeholders.
pub open spec fn spec_render(template: Seq<char>, tier: Seq<char>, instruction: Seq<char>) -> Seq<char> {
    spec_replace(
        spec_replace(template, tier_placeholder(), trim_ws(tier)),
        instruction_placeholder(),
        trim_ws(instruction),
    )
}

/// The characters of `s` with white space trimmed from both ends.
pub fn trim(s: &str) -> (t: Vec<char>)
    ensures
        t@ == trim_ws(s@),
{
    let chars = chars_of(s);
    let mut start: usize = 0;
    assert(chars@.skip(0) =~= chars@);
    while start < chars.len() && crate::text::char_is_whitespace(chars[start])
        invariant
            start <= chars.len(),
            chars@ == s@,
            trim_start_ws(s@) == trim_start_ws(chars@.skip(start as int)),
        decreases chars.len() - start,
    {
        proof {
            assert(chars@.skip(start as int).drop_first() =~= chars@.skip(start + 1));
        }
        start = start + 1;
    }
    let ghost front = chars@.skip(start as int);
    assert(trim_start_ws(s@) == front);
    let mut end: usize = chars.len();
    assert(front.take(front.len() as int) =~= front);
    while end > start && crate::text::char_is_whitespace(chars[end - 1])
        invariant
            start <= end <= chars.len(),
            front == chars@.skip(start as int),
            trim_end_ws(front) == trim_end_ws(front.take(end - start)),
        decreases end - start,
    {
        proof {
            let t = front.take(end - start);
            assert(t.drop_last() =~= front.take(end - 1 - start));
            assert(t.last() == chars@[end - 1]);
        }
        end = end - 1;
    }
    let ghost kept_spec = front.take(end - start);
    assert(trim_end_ws(front) == kept_spec) by {
        if end > start {
            assert(kept_spec.last() == chars@[end - 1]);
        }
    }
    let mut kept: Vec<char> = Vec::new();
    let mut k: usize = start;
    while k < end
        invariant
            start <= k <= end,
            end <= chars.len(),
            front == chars@.skip(start as int),
            kept@ == front.take(k - start),
        decreases end - k,
    {
        kept.push(chars[k]);
        k = k + 1;
        assert(kept@ =~= front.take(k - start));
    }
    kept
}

fn replace_all(s: &Vec<char>, pattern: &str, with: &Vec<char>) -> (out: Vec<char>)
    ensures
        out@ == spec_replace(s@, pattern@, with@),
{
    let p = chars_of(pattern);
    if p.len() == 0 {
        let mut copy: Vec<char> = Vec::new();
        let mut c: usize = 0;
        while c < s.len()
            invariant
                c <= s.len(),
                copy@ == s@.take(c as int),
            decreases s.len() - c,
        {
            copy.push(s[c]);
            c = c + 1;
            assert(copy@ =~= s@.take(c as int));
        }
        assert(s@.take(c as int) =~= s@);
        return copy;
    }
    let mut out: Vec<char> = Vec::new();
    let mut i: usize = 0;
    assert(s@.skip(0) =~= s@);
    while i < s.len()
        invariant
            i <= s.len(),
            p@ == pattern@,
            p.len() > 0,
            out@ + spec_replace(s@.skip(i as int), p@, with@) == spec_replace(s@, p@, with@),
        decreases s.len() - i,
    {
        let ghost rest = s@.skip(i as int);
        let mut matches = p.len() <= s.len() - i;
        let mut j: usize = 0;
        while matches && j < p.len()
            invariant
                i < s.len(),
                j <= p.len(),
                matches ==> p.len() <= s.len() - i,
                matches ==> forall|t: int| 0 <= t < j ==> s@[i + t] == p@[t],
                !matches ==> !(p.len() <= rest.len() && rest.take(p.len() as int) == p@),
                rest == s@.skip(i as int),
            decreases p.len() - j,
        {
            if s[i + j] != p[j] {
                matches = false;
                assert(rest.take(p.len() as int)[j as int] != p@[j as int]);
            }
            j = j + 1;
        }
        if matches {
            assert(rest.take(p.len() as int) =~= p@);
            let mut w: usize = 0;
            let ghost before = out@;
            while w < with.len()
                invariant
                    w <= with.len(),
                    out@ == before + with@.take(w as int),
                decreases with.len() - w,
            {
                out.push(with[w]);
                w = w + 1;
                assert(out@ =~= before + with@.take(w as int));
            }
            assert(with@.take(w as int) =~= with@);
            assert(rest.skip(p.len() as int) =~= s@.skip(i + p.len()));
            assert(out@ + spec_replace(s@.skip(i + p.len()), p@, with@) =~= before + spec_replace(rest, p@, with@));
            i = i + p.len();
        } else {
            let ghost before = out@;
            out.push(s[i]);
            assert(rest.drop_first() =~= s@.skip(i + 1));
            assert(rest[0] == s@[i as int]);
            assert(out@ + spec_replace(s@.skip(i + 1), p@, with@) =~= before + spec_replace(rest, p@, with@));
            i = i + 1;
        }
    }
    assert(s@.skip(i as int) =~= Seq::<char>::empty());
    assert(out@ + Seq::<char>::empty() =~= out@);
    out
}

fn render(template: &str, tier: &str, instruction: &str) -> (prompt: String)
    ensures
        prompt@ == spec_render(template@, tier@, instruction@),
{
    proof {
        reveal_strlit("{{tier}}");
        reveal_strlit("{{user_instruction}}");
    }
    let text = chars_of(template);
    let first = replace_all(&text, "{{tier}}", &trim(tier));
    let second = replace_all(&first, "{{user_instruction}}", &trim(instruction));
    string_from_chars(&second)
}

/// The prompt of an editing preset for `tier` and the user's instruction; free-form
/// editing has no template and gives `None`.
pub fn render_edit_prompt(preset: AiEditPreset, tier: &str, user_instruction: &str) -> (prompt: Option<String>)
    ensures
        match spec_edit_template(preset) {
            Some(t) => (prompt matches Some(p) && p@ == spec_render(t, tier@, user_instruction@)),
            None => prompt is None,
        },
{
    match edit_template(preset) {
        Some(template) => Some(render(template, tier, user_instruction)),
        None => None,
    }
}

/// The prompt of an industry tool for `tier` and the user's instruction.
pub fn render_industry_prompt(tool: IndustryTool, tier: &str, user_instruction: &str) -> (prompt: String)
    ensures
        prompt@ == spec_render(spec_industry_template(tool), tier@, user_instruction@),
{
    render(industry_template(tool), tier, user_instruction)
}

/// The poster-background prompt for `tier` and the user's instruction.
pub fn render_poster_background_prompt(tier: &str, user_instruction: &str) -> (prompt: String)
    ensures
        prompt@ == spec_render(spec_poster_template(), tier@, user_instruction@),
{
    proof {
        reveal_strlit("Create a poster background with a strong visual mood and generous empty space for headline and body text, avoiding any lettering in the image itself. Visual style: {{tier}}. Extra guidance from the user: {{user_instruction}}.");
    }
    render("Create a poster background with a strong visual mood and generous empty space for headline and body text, avoiding any lettering in the image itself. Visual style: {{tier}}. Extra guidance from the user: {{user_instruction}}.", tier, user_instruction)
}

} // verus!
