//! Request, result and capability types shared by every provider.

use vstd::prelude::*;

use crate::ai::error::AiError;
use crate::text::{decimal, is_blank, str_is_blank};

verus! {

/// Stable provider identifier stored in non-secret configuration.
#[derive(Debug, Clone, Copy, PartialEq, Eq, Structural, Hash)]
pub enum ProviderId {
    Seedream,
    NanoBanana,
    OpenAi,
}

impl Default for ProviderId {
    fn default() -> (id: Self)
        ensures
            id == ProviderId::Seedream,
    {
        ProviderId::Seedream
    }
}

/// The stored identifier of a provider.
pub open spec fn spec_provider_name(id: ProviderId) -> Seq<char> {
    match id {
        ProviderId::Seedream => "seedream"@,
        ProviderId::NanoBanana => "nano-banana"@,
        ProviderId::OpenAi => "openai"@,
    }
}

impl ProviderId {
    /// Every provider, in display order.
    pub fn all() -> (ids: [ProviderId; 3])
        ensures
            ids@ == seq![ProviderId::Seedream, ProviderId::NanoBanana, ProviderId::OpenAi],
    {
        let ids = [ProviderId::Seedream, ProviderId::NanoBanana, ProviderId::OpenAi];
        assert(ids@ =~= seq![ProviderId::Seedream, ProviderId::NanoBanana, ProviderId::OpenAi]);
        ids
    }

    /// The identifier as stored: `seedream`, `nano-banana` or `openai`.
    pub fn as_str(self) -> (s: &'static str)
        ensures
            s@ == spec_provider_name(self),
            s@ == (match self {
                ProviderId::Seedream => "seedream"@,
                ProviderId::NanoBanana => "nano-banana"@,
                ProviderId::OpenAi => "openai"@,
            }),
    {
        match self {
            ProviderId::Seedream => "seedream",
            ProviderId::NanoBanana => "nano-banana",
            ProviderId::OpenAi => "openai",
        }
    }
}

/// A secret key; its printable forms never show the value.
pub struct ApiKey {
    value: String,
}

impl ApiKey {
    /// The secret itself.
    pub closed spec fn secret(self) -> Seq<char> {
        self.value@
    }

    /// A key holding `value`; a blank value is refused.
    pub fn new(value: &str) -> (key: Result<ApiKey, AiError>)
        ensures
            key is Ok <==> !is_blank(value@),
            key matches Ok(k) ==> k.secret() == value@,
            key matches Err(e) ==> e is ApiKeyRequired,
    {
        if str_is_blank(value) {
            return Err(AiError::ApiKeyRequired);
        }
        Ok(ApiKey { value: value.to_owned() })
    }

    /// The secret, for building an authenticated request or handing it to a credential
    /// store.
    pub fn expose(&self) -> (s: &str)
        ensures
            s@ == self.secret(),
    {
        self.value.as_str()
    }

    /// The debugging form: always `ApiKey([REDACTED])`.
    pub fn debug_text(&self) -> (text: String)
        ensures
            text@ == "ApiKey([REDACTED])"@,
    {
        String::from_str("ApiKey([REDACTED])")
    }

    /// The display form: always `[REDACTED]`.
    pub fn display_text(&self) -> (text: String)
        ensures
            text@ == "[REDACTED]"@,
    {
        String::from_str("[REDACTED]")
    }
}

impl Clone for ApiKey {
    fn clone(&self) -> (copy: Self)
        ensures
            copy.secret() == self.secret(),
    {
        ApiKey { value: self.value.clone() }
    }
}

/// Output aspect ratios that providers understand.
#[derive(Debug, Clone, Copy, PartialEq, Eq, Structural, Hash)]
pub enum AspectRatio {
    Square,
    PortraitTwoThree,
    LandscapeThreeTwo,
    PortraitThreeFour,
    LandscapeFourThree,
    PortraitFourFive,
    LandscapeFiveFour,
    PortraitNineSixteen,
    LandscapeSixteenNine,
    UltrawideTwentyOneNine,
}

/// The ratio as `w:h` text.
pub open spec fn spec_ratio_text(r: AspectRatio) -> Seq<char> {
    match r {
        AspectRatio::Square => "1:1"@,
        AspectRatio::PortraitTwoThree => "2:3"@,
        AspectRatio::LandscapeThreeTwo => "3:2"@,
        AspectRatio::PortraitThreeFour => "3:4"@,
        AspectRatio::LandscapeFourThree => "4:3"@,
        AspectRatio::PortraitFourFive => "4:5"@,
        AspectRatio::LandscapeFiveFour => "5:4"@,
        AspectRatio::PortraitNineSixteen => "9:16"@,
        AspectRatio::LandscapeSixteenNine => "16:9"@,
        AspectRatio::UltrawideTwentyOneNine => "21:9"@,
    }
}

/// The OpenAI image size for a ratio.
pub open spec fn spec_openai_size(r: AspectRatio) -> Seq<char> {
    match r {
        AspectRatio::Square => "1024x1024"@,
        AspectRatio::PortraitTwoThree => "1024x1536"@,
        AspectRatio::PortraitThreeFour => "1024x1536"@,
        AspectRatio::PortraitFourFive => "1024x1536"@,
        AspectRatio::PortraitNineSixteen => "1024x1792"@,
        AspectRatio::UltrawideTwentyOneNine => "1792x768"@,
        _ => "1536x1024"@,
    }
}

/// The Seedream image size for a ratio.
pub open spec fn spec_seedream_size(r: AspectRatio) -> Seq<char> {
    match r {
        AspectRatio::Square => "1024x1024"@,
        AspectRatio::PortraitTwoThree => "832x1248"@,
        AspectRatio::LandscapeThreeTwo => "1248x832"@,
        AspectRatio::PortraitThreeFour => "864x1152"@,
        AspectRatio::LandscapeFourThree => "1152x864"@,
        AspectRatio::PortraitFourFive => "896x1120"@,
        AspectRatio::LandscapeFiveFour => "1120x896"@,
        AspectRatio::PortraitNineSixteen => "720x1280"@,
        AspectRatio::LandscapeSixteenNine => "1280x720"@,
        AspectRatio::UltrawideTwentyOneNine => "1512x648"@,
    }
}

/// The width and height of each Seedream size.
pub open spec fn seedream_pixels(r: AspectRatio) -> (nat, nat) {
    match r {
        AspectRatio::Square => (1024, 1024),
        AspectRatio::PortraitTwoThree => (832, 1248),
        AspectRatio::LandscapeThreeTwo => (1248, 832),
        AspectRatio::PortraitThreeFour => (864, 1152),
        AspectRatio::LandscapeFourThree => (1152, 864),
        AspectRatio::PortraitFourFive => (896, 1120),
        AspectRatio::LandscapeFiveFour => (1120, 896),
        AspectRatio::PortraitNineSixteen => (720, 1280),
        AspectRatio::LandscapeSixteenNine => (1280, 720),
        AspectRatio::UltrawideTwentyOneNine => (1512, 648),
    }
}

/// The two terms of each ratio, `a:b`.
pub open spec fn ratio_terms(r: AspectRatio) -> (nat, nat) {
    match r {
        AspectRatio::Square => (1, 1),
        AspectRatio::PortraitTwoThree => (2, 3),
        AspectRatio::LandscapeThreeTwo => (3, 2),
        AspectRatio::PortraitThreeFour => (3, 4),
        AspectRatio::LandscapeFourThree => (4, 3),
        AspectRatio::PortraitFourFive => (4, 5),
        AspectRatio::LandscapeFiveFour => (5, 4),
        AspectRatio::PortraitNineSixteen => (9, 16),
        AspectRatio::LandscapeSixteenNine => (16, 9),
        AspectRatio::UltrawideTwentyOneNine => (21, 9),
    }
}

/// Every Seedream size has exactly the proportions of its ratio: the size reads `WxH`
/// and the ratio `a:b`, with W × b = H × a.
pub proof fn law_seedream_size_keeps_ratio(r: AspectRatio)
    ensures
        spec_seedream_size(r) == decimal(seedream_pixels(r).0) + seq!['x'] + decimal(seedream_pixels(r).1),
        spec_ratio_text(r) == decimal(ratio_terms(r).0) + seq![':'] + decimal(ratio_terms(r).1),
        seedream_pixels(r).0 * ratio_terms(r).1 == seedream_pixels(r).1 * ratio_terms(r).0,
{
    reveal_with_fuel(decimal, 5);
    match r {
        AspectRatio::Square => {
            reveal_strlit("1024x1024");
            reveal_strlit("1:1");
            assert(spec_seedream_size(r) =~= decimal(1024) + seq!['x'] + decimal(1024));
            assert(spec_ratio_text(r) =~= decimal(1) + seq![':'] + decimal(1));
            assert(seedream_pixels(r).0 * ratio_terms(r).1 == 1024) by (nonlinear_arith)
                requires
                    seedream_pixels(r).0 == 1024,
                    ratio_terms(r).1 == 1,
            ;
            assert(seedream_pixels(r).1 * ratio_terms(r).0 == 1024) by (nonlinear_arith)
                requires
                    seedream_pixels(r).1 == 1024,
                    ratio_terms(r).0 == 1,
            ;
        },
        AspectRatio::PortraitTwoThree => {
            reveal_strlit("832x1248");
            reveal_strlit("2:3");
            assert(spec_seedream_size(r) =~= decimal(832) + seq!['x'] + decimal(1248));
            assert(spec_ratio_text(r) =~= decimal(2) + seq![':'] + decimal(3));
            assert(seedream_pixels(r).0 * ratio_terms(r).1 == 2496) by (nonlinear_arith)
                requires
                    seedream_pixels(r).0 == 832,
                    ratio_terms(r).1 == 3,
            ;
            assert(seedream_pixels(r).1 * ratio_terms(r).0 == 2496) by (nonlinear_arith)
                requires
                    seedream_pixels(r).1 == 1248,
                    ratio_terms(r).0 == 2,
            ;
        },
        AspectRatio::LandscapeThreeTwo => {
            reveal_strlit("1248x832");
            reveal_strlit("3:2");
            assert(spec_seedream_size(r) =~= decimal(1248) + seq!['x'] + decimal(832));
            assert(spec_ratio_text(r) =~= decimal(3) + seq![':'] + decimal(2));
            assert(seedream_pixels(r).0 * ratio_terms(r).1 == 2496) by (nonlinear_arith)
                requires
                    seedream_pixels(r).0 == 1248,
                    ratio_terms(r).1 == 2,
            ;
            assert(seedream_pixels(r).1 * ratio_terms(r).0 == 2496) by (nonlinear_arith)
                requires
                    seedream_pixels(r).1 == 832,
                    ratio_terms(r).0 == 3,
            ;
        },
        AspectRatio::PortraitThreeFour => {
            reveal_strlit("864x1152");
            reveal_strlit("3:4");
            assert(spec_seedream_size(r) =~= decimal(864) + seq!['x'] + decimal(1152));
            assert(spec_ratio_text(r) =~= decimal(3) + seq![':'] + decimal(4));
            assert(seedream_pixels(r).0 * ratio_terms(r).1 == 3456) by (nonlinear_arith)
                requires
                    seedream_pixels(r).0 == 864,
                    ratio_terms(r).1 == 4,
            ;
            assert(seedream_pixels(r).1 * ratio_terms(r).0 == 3456) by (nonlinear_arith)
                requires
                    seedream_pixels(r).1 == 1152,
                    ratio_terms(r).0 == 3,
            ;
        },
        AspectRatio::LandscapeFourThree => {
            reveal_strlit("1152x864");
            reveal_strlit("4:3");
            assert(spec_seedream_size(r) =~= decimal(1152) + seq!['x'] + decimal(864));
            assert(spec_ratio_text(r) =~= decimal(4) + seq![':'] + decimal(3));
            assert(seedream_pixels(r).0 * ratio_terms(r).1 == 3456) by (nonlinear_arith)
                requires
                    seedream_pixels(r).0 == 1152,
                    ratio_terms(r).1 == 3,
            ;
            assert(seedream_pixels(r).1 * ratio_terms(r).0 == 3456) by (nonlinear_arith)
                requires
                    seedream_pixels(r).1 == 864,
                    ratio_terms(r).0 == 4,
            ;
        },
        AspectRatio::PortraitFourFive => {
            reveal_strlit("896x1120");
            reveal_strlit("4:5");
            assert(spec_seedream_size(r) =~= decimal(896) + seq!['x'] + decimal(1120));
            assert(spec_ratio_text(r) =~= decimal(4) + seq![':'] + decimal(5));
            assert(seedream_pixels(r).0 * ratio_terms(r).1 == 4480) by (nonlinear_arith)
                requires
                    seedream_pixels(r).0 == 896,
                    ratio_terms(r).1 == 5,
            ;
            assert(seedream_pixels(r).1 * ratio_terms(r).0 == 4480) by (nonlinear_arith)
                requires
                    seedream_pixels(r).1 == 1120,
                    ratio_terms(r).0 == 4,
            ;
        },
        AspectRatio::LandscapeFiveFour => {
            reveal_strlit("1120x896");
            reveal_strlit("5:4");
            assert(spec_seedream_size(r) =~= decimal(1120) + seq!['x'] + decimal(896));
            assert(spec_ratio_text(r) =~= decimal(5) + seq![':'] + decimal(4));
            assert(seedream_pixels(r).0 * ratio_terms(r).1 == 4480) by (nonlinear_arith)
                requires
                    seedream_pixels(r).0 == 1120,
                    ratio_terms(r).1 == 4,
            ;
            assert(seedream_pixels(r).1 * ratio_terms(r).0 == 4480) by (nonlinear_arith)
                requires
                    seedream_pixels(r).1 == 896,
                    ratio_terms(r).0 == 5,
            ;
        },
        AspectRatio::PortraitNineSixteen => {
            reveal_strlit("720x1280");
            reveal_strlit("9:16");
            assert(spec_seedream_size(r) =~= decimal(720) + seq!['x'] + decimal(1280));
            assert(spec_ratio_text(r) =~= decimal(9) + seq![':'] + decimal(16));
            assert(seedream_pixels(r).0 * ratio_terms(r).1 == 11520) by (nonlinear_arith)
                requires
                    seedream_pixels(r).0 == 720,
                    ratio_terms(r).1 == 16,
            ;
            assert(seedream_pixels(r).1 * ratio_terms(r).0 == 11520) by (nonlinear_arith)
                requires
                    seedream_pixels(r).1 == 1280,
                    ratio_terms(r).0 == 9,
            ;
        },
        AspectRatio::LandscapeSixteenNine => {
            reveal_strlit("1280x720");
            reveal_strlit("16:9");
            assert(spec_seedream_size(r) =~= decimal(1280) + seq!['x'] + decimal(720));
            assert(spec_ratio_text(r) =~= decimal(16) + seq![':'] + decimal(9));
            assert(seedream_pixels(r).0 * ratio_terms(r).1 == 11520) by (nonlinear_arith)
                requires
                    seedream_pixels(r).0 == 1280,
                    ratio_terms(r).1 == 9,
            ;
            assert(seedream_pixels(r).1 * ratio_terms(r).0 == 11520) by (nonlinear_arith)
                requires
                    seedream_pixels(r).1 == 720,
                    ratio_terms(r).0 == 16,
            ;
        },
        AspectRatio::UltrawideTwentyOneNine => {
            reveal_strlit("1512x648");
            reveal_strlit("21:9");
            assert(spec_seedream_size(r) =~= decimal(1512) + seq!['x'] + decimal(648));
            assert(spec_ratio_text(r) =~= decimal(21) + seq![':'] + decimal(9));
            assert(seedream_pixels(r).0 * ratio_terms(r).1 == 13608) by (nonlinear_arith)
                requires
                    seedream_pixels(r).0 == 1512,
                    ratio_terms(r).1 == 9,
            ;
            assert(seedream_pixels(r).1 * ratio_terms(r).0 == 13608) by (nonlinear_arith)
                requires
                    seedream_pixels(r).1 == 648,
                    ratio_terms(r).0 == 21,
            ;
        },
    }
}

/// Every ratio, in the order offered.
pub open spec fn spec_common_ratios() -> Seq<AspectRatio> {
    seq![
        AspectRatio::Square,
        AspectRatio::PortraitTwoThree,
        AspectRatio::LandscapeThreeTwo,
        AspectRatio::PortraitThreeFour,
        AspectRatio::LandscapeFourThree,
        AspectRatio::PortraitFourFive,
        AspectRatio::LandscapeFiveFour,
        AspectRatio::PortraitNineSixteen,
        AspectRatio::LandscapeSixteenNine,
        AspectRatio::UltrawideTwentyOneNine,
    ]
}

impl AspectRatio {
    /// Every ratio, in the order offered.
    pub fn common() -> (ratios: &'static [AspectRatio])
        ensures
            ratios@ == spec_common_ratios(),
    {
        let ratios: &'static [AspectRatio] = &[
            AspectRatio::Square,
            AspectRatio::PortraitTwoThree,
            AspectRatio::LandscapeThreeTwo,
            AspectRatio::PortraitThreeFour,
            AspectRatio::LandscapeFourThree,
            AspectRatio::PortraitFourFive,
            AspectRatio::LandscapeFiveFour,
            AspectRatio::PortraitNineSixteen,
            AspectRatio::LandscapeSixteenNine,
            AspectRatio::UltrawideTwentyOneNine,
        ];
        assert(ratios@ =~= spec_common_ratios());
        ratios
    }

    /// The ratio as `w:h` text.
    pub fn as_str(self) -> (s: &'static str)
        ensures
            s@ == spec_ratio_text(self),
    {
        match self {
            AspectRatio::Square => "1:1",
            AspectRatio::PortraitTwoThree => "2:3",
            AspectRatio::LandscapeThreeTwo => "3:2",
            AspectRatio::PortraitThreeFour => "3:4",
            AspectRatio::LandscapeFourThree => "4:3",
            AspectRatio::PortraitFourFive => "4:5",
            AspectRatio::LandscapeFiveFour => "5:4",
            AspectRatio::PortraitNineSixteen => "9:16",
            AspectRatio::LandscapeSixteenNine => "16:9",
            AspectRatio::UltrawideTwentyOneNine => "21:9",
        }
    }

    /// The image size OpenAI is asked for.
    pub fn openai_size(self) -> (s: &'static str)
        ensures
            s@ == spec_openai_size(self),
    {
        match self {
            AspectRatio::Square => "1024x1024",
            AspectRatio::PortraitTwoThree => "1024x1536",
            AspectRatio::PortraitThreeFour => "1024x1536",
            AspectRatio::PortraitFourFive => "1024x1536",
            AspectRatio::PortraitNineSixteen => "1024x1792",
            AspectRatio::UltrawideTwentyOneNine => "1792x768",
            _ => "1536x1024",
        }
    }

    /// The image size Seedream is asked for.
    pub fn seedream_size(self) -> (s: &'static str)
        ensures
            s@ == spec_seedream_size(self),
    {
        match self {
            AspectRatio::Square => "1024x1024",
            AspectRatio::PortraitTwoThree => "832x1248",
            AspectRatio::LandscapeThreeTwo => "1248x832",
            AspectRatio::PortraitThreeFour => "864x1152",
            AspectRatio::LandscapeFourThree => "1152x864",
            AspectRatio::PortraitFourFive => "896x1120",
            AspectRatio::LandscapeFiveFour => "1120x896",
            AspectRatio::PortraitNineSixteen => "720x1280",
            AspectRatio::LandscapeSixteenNine => "1280x720",
            AspectRatio::UltrawideTwentyOneNine => "1512x648",
        }
    }
}

/// Requested rendering quality.
#[derive(Debug, Clone, Copy, PartialEq, Eq, Structural)]
pub enum GenerationQuality {
    Low,
    Medium,
    High,
}

impl Default for GenerationQuality {
    fn default() -> (q: Self)
        ensures
            q == GenerationQuality::Medium,
    {
        GenerationQuality::Medium
    }
}

impl GenerationQuality {
    /// `low`, `medium` or `high`.
    pub fn as_str(self) -> (s: &'static str)
        ensures
            s@ == (match self {
                GenerationQuality::Low => "low"@,
                GenerationQuality::Medium => "medium"@,
                GenerationQuality::High => "high"@,
            }),
    {
        match self {
            GenerationQuality::Low => "low",
            GenerationQuality::Medium => "medium",
            GenerationQuality::High => "high",
        }
    }
}

/// A reference image or mask sent to a provider.
#[derive(Debug, Clone)]
pub struct ImageInput {
    /// Encoded image bytes.
    pub bytes: Vec<u8>,
    /// `image/png`, `image/jpeg` or `image/webp`.
    pub mime_type: String,
}

/// The MIME types providers accept for input images.
pub open spec fn accepted_input_mime(m: Seq<char>) -> bool {
    m == "image/png"@ || m == "image/jpeg"@ || m == "image/webp"@
}

impl ImageInput {
    /// An input image; empty bytes or a MIME type other than PNG, JPEG or WebP is refused.
    pub fn new(bytes: Vec<u8>, mime_type: &str) -> (input: Result<ImageInput, AiError>)
        ensures
            input is Ok <==> bytes.len() > 0 && accepted_input_mime(mime_type@),
            input matches Ok(i) ==> i.bytes@ == bytes@ && i.mime_type@ == mime_type@,
            input matches Err(e) ==> e is InvalidRequest,
    {
        if bytes.len() == 0 {
            return Err(AiError::InvalidRequest(String::from_str("reference image is empty")));
        }
        let mime = crate::text::chars_of(mime_type);
        if !(crate::text::chars_equal(&mime, "image/png") || crate::text::chars_equal(
            &mime,
            "image/jpeg",
        ) || crate::text::chars_equal(&mime, "image/webp")) {
            return Err(
                AiError::InvalidRequest(
                    String::from_str("reference image must be PNG, JPEG, or WebP"),
                ),
            );
        }
        Ok(ImageInput { bytes, mime_type: mime_type.to_owned() })
    }
}

/// One generation request.
#[derive(Debug, Clone)]
pub struct GenerationRequest {
    /// What to draw.
    pub prompt: String,
    /// Images the result should build on.
    pub reference_images: Vec<ImageInput>,
    /// Region to repaint, where supported.
    pub mask: Option<ImageInput>,
    /// Output ratio.
    pub aspect_ratio: AspectRatio,
    /// Number of images wanted.
    pub count: u8,
    /// Rendering quality.
    pub quality: GenerationQuality,
}

impl GenerationRequest {
    /// A text-only request for one square image at medium quality.
    pub fn text(prompt: &str) -> (request: GenerationRequest)
        ensures
            request.prompt@ == prompt@,
            request.reference_images.len() == 0,
            request.mask is None,
            request.aspect_ratio == AspectRatio::Square,
            request.count == 1,
            request.quality == GenerationQuality::Medium,
    {
        GenerationRequest {
            prompt: prompt.to_owned(),
            reference_images: Vec::new(),
            mask: None,
            aspect_ratio: AspectRatio::Square,
            count: 1,
            quality: GenerationQuality::Medium,
        }
    }
}

/// What a provider can do.
#[derive(Debug, Clone, Copy)]
pub struct ProviderCapabilities {
    /// Most reference images per request.
    pub max_reference_images: u8,
    /// Output ratios it accepts.
    pub supported_aspect_ratios: &'static [AspectRatio],
    /// Most images per request.
    pub max_generation_count: u8,
    /// Generation from text alone.
    pub text_to_image: bool,
    /// Generation from reference images.
    pub image_to_image: bool,
    /// Masked region editing.
    pub region_edit: bool,
    /// Largest input image, in bytes.
    pub max_input_image_bytes: usize,
}

/// Some reference image or the mask is larger than `limit`.
pub open spec fn has_oversized_input(request: GenerationRequest, limit: usize) -> bool {
    (exists|i: int|
        0 <= i < request.reference_images.len() && #[trigger] request.reference_images[i].bytes.len()
            > limit) || (request.mask matches Some(m) && m.bytes.len() > limit)
}

/// The outcome `validate` gives for `request` under `caps`.
pub open spec fn is_validation_outcome(r: Result<(), AiError>, caps: ProviderCapabilities, request: GenerationRequest) -> bool {
    let blank = is_blank(request.prompt@);
    let bad_count = request.count == 0 || request.count > caps.max_generation_count;
    let bad_ratio = !caps.supported_aspect_ratios@.contains(request.aspect_ratio);
    let too_many = request.reference_images.len() > caps.max_reference_images;
    let no_refs = request.reference_images.len() == 0;
    let no_t2i = no_refs && !caps.text_to_image;
    let no_i2i = !no_refs && !caps.image_to_image;
    let no_region = request.mask is Some && !caps.region_edit;
    let oversized = has_oversized_input(request, caps.max_input_image_bytes);
    &&& (blank || bad_count) ==> (r matches Err(AiError::InvalidRequest(_)))
    &&& (!blank && !bad_count && bad_ratio) ==> (r matches Err(
        AiError::UnsupportedCapability(what),
    ) && what@ == "aspect ratio"@)
    &&& (!blank && !bad_count && !bad_ratio && too_many) ==> (r matches Err(
        AiError::TooManyReferenceImages { maximum, actual },
    ) && maximum == caps.max_reference_images && actual
        == request.reference_images.len())
    &&& (!blank && !bad_count && !bad_ratio && !too_many && no_t2i) ==> (r matches Err(
        AiError::UnsupportedCapability(what),
    ) && what@ == "text-to-image"@)
    &&& (!blank && !bad_count && !bad_ratio && !too_many && no_i2i) ==> (r matches Err(
        AiError::UnsupportedCapability(what),
    ) && what@ == "image-to-image"@)
    &&& (!blank && !bad_count && !bad_ratio && !too_many && !no_t2i && !no_i2i
        && no_region) ==> (r matches Err(AiError::UnsupportedCapability(what))
        && what@ == "region edit"@)
    &&& (!blank && !bad_count && !bad_ratio && !too_many && !no_t2i && !no_i2i
        && !no_region && oversized) ==> (r matches Err(
        AiError::ImageTooLarge { maximum_bytes },
    ) && maximum_bytes == caps.max_input_image_bytes)
    &&& r is Ok <==> !blank && !bad_count && !bad_ratio && !too_many && !no_t2i
        && !no_i2i && !no_region && !oversized
}

/// `request` passes every check of `caps`.
pub open spec fn is_valid_request(caps: ProviderCapabilities, request: GenerationRequest) -> bool {
    is_validation_outcome(Ok(()), caps, request)
}

impl ProviderCapabilities {
    /// Checks a request against these capabilities, in this order: blank prompt or image
    /// count outside `1..=max` (invalid request), unsupported ratio, too many references,
    /// text-to-image, image-to-image or region edit unsupported, then an oversized input.
    #[verifier::loop_isolation(false)]
    pub fn validate(self, request: &GenerationRequest) -> (r: Result<(), AiError>)
        ensures
            is_validation_outcome(r, self, *request),
    {
        if str_is_blank(request.prompt.as_str()) {
            return Err(AiError::InvalidRequest(String::from_str("prompt is empty")));
        }
        if request.count == 0 || request.count > self.max_generation_count {
            return Err(
                AiError::InvalidRequest(String::from_str("requested image count is out of range")),
            );
        }
        let mut found = false;
        let mut i: usize = 0;
        while i < self.supported_aspect_ratios.len()
            invariant
                i <= self.supported_aspect_ratios@.len(),
                found <==> exists|j: int|
                    0 <= j < i && self.supported_aspect_ratios@[j] == request.aspect_ratio,
            decreases self.supported_aspect_ratios@.len() - i,
        {
            if self.supported_aspect_ratios[i] == request.aspect_ratio {
                found = true;
            }
            i = i + 1;
        }
        if !found {
            return Err(AiError::UnsupportedCapability("aspect ratio"));
        }
        if request.reference_images.len() > self.max_reference_images as usize {
            return Err(
                AiError::TooManyReferenceImages {
                    maximum: self.max_reference_images,
                    actual: request.reference_images.len(),
                },
            );
        }
        if request.reference_images.len() == 0 && !self.text_to_image {
            return Err(AiError::UnsupportedCapability("text-to-image"));
        }
        if request.reference_images.len() != 0 && !self.image_to_image {
            return Err(AiError::UnsupportedCapability("image-to-image"));
        }
        if request.mask.is_some() && !self.region_edit {
            return Err(AiError::UnsupportedCapability("region edit"));
        }
        let mut k: usize = 0;
        while k < request.reference_images.len()
            invariant
                k <= request.reference_images.len(),
                forall|j: int|
                    0 <= j < k ==> #[trigger] request.reference_images[j].bytes.len()
                        <= self.max_input_image_bytes,
            decreases request.reference_images.len() - k,
        {
            if request.reference_images[k].bytes.len() > self.max_input_image_bytes {
                assert(request.reference_images[k as int].bytes.len() > self.max_input_image_bytes);
                return Err(AiError::ImageTooLarge { maximum_bytes: self.max_input_image_bytes });
            }
            k = k + 1;
        }
        match &request.mask {
            Some(mask) => {
                if mask.bytes.len() > self.max_input_image_bytes {
                    return Err(
                        AiError::ImageTooLarge { maximum_bytes: self.max_input_image_bytes },
                    );
                }
            },
            None => {},
        }
        Ok(())
    }
}

/// One generated image.
#[derive(Debug, Clone)]
pub struct GeneratedImage {
    /// Encoded bytes.
    pub bytes: Vec<u8>,
    /// Their MIME type.
    pub mime_type: String,
}

/// What a successful generation returns.
#[derive(Debug, Clone)]
pub struct GenerationResult {
    /// The images, never empty.
    pub images: Vec<GeneratedImage>,
    /// Which provider made them.
    pub provider: ProviderId,
    /// The provider's request identifier, when it sent one.
    pub request_id: Option<String>,
}

/// An image generation service.
pub trait Provider {
    /// Which provider this is.
    spec fn spec_id(&self) -> ProviderId;

    /// Which provider this is.
    fn id(&self) -> (id: ProviderId)
        ensures
            id == self.spec_id(),
    ;

    /// Whether `c` are the capabilities this provider reports.
    spec fn reports_capabilities(&self, c: ProviderCapabilities) -> bool;

    /// Whether `r` is an outcome this provider can give for `request`.
    spec fn generation_outcome(&self, request: GenerationRequest, r: Result<GenerationResult, AiError>) -> bool;

    /// What it can do.
    fn capabilities(&self) -> (c: ProviderCapabilities)
        ensures
            self.reports_capabilities(c),
    ;

    /// Runs one request with the given key.
    fn generate(&self, request: &GenerationRequest, api_key: &ApiKey) -> (r: Result<
        GenerationResult,
        AiError,
    >)
        ensures
            self.generation_outcome(*request, r),
    ;
}

} // verus!
