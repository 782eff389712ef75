//! One AI generation of a feature page: the prompts it sends, the checks before it
//! starts, the requests themselves and how what comes back is shaped and recorded.

use vstd::prelude::*;

use std::collections::BTreeSet;

use crate::ai::credentials::CredentialStore;
use crate::ai::registry::{registry_answer, ProviderRegistry};
use crate::ai::types::{
    spec_provider_name, ApiKey, AspectRatio, GeneratedImage, GenerationQuality, GenerationRequest, GenerationResult,
    Provider, ProviderCapabilities, ProviderId,
};
use crate::config::GenerationHistoryRecord;
use crate::naming::{ai_filename, spec_ai_filename};
use crate::ai_state::{same_choices, spec_error_kind, spec_tier_texts, AiErrorKind, AiStatus, AiUiState};
use crate::presets::{
    render_edit_prompt, render_industry_prompt, render_poster_background_prompt,
    spec_all_edit_presets, spec_edit_preset_count, spec_edit_preset_id, spec_edit_template,
    spec_industry_template, spec_poster_template, spec_render, trim, trim_ws, AiEditPreset,
    IndustryTool,
};
use crate::ai::error::AiError;
use crate::ai::types::ImageInput;
use crate::cover::{
    aspect_ratio_is_close, cover_possible, exact_cover, is_cover_of, lemma_cover_unique, spec_ratio_is_close,
};
use crate::error::CoreError;
use crate::format::{decode, encode, spec_decoded, spec_encode, EncodeSettings, OutputFormat, PngCompression};
use crate::raster::{lemma_view_ext, pixel_offset, rgba_len, Raster, RasterView};
use crate::section::{spec_ai_spec, spec_id, Feature};
use crate::text::{push_chars, push_str, string_from_chars};
use crate::ui_rules::{exact_output_dimensions, industry_tool, spec_exact_output_dimensions, spec_industry_tool};

verus! {

/// One prompt to send, with the tier it was made for.
#[derive(Debug, Clone)]
pub struct AiPromptTask {
    /// The tier (or preset) identifier.
    pub tier_id: String,
    /// The full prompt text.
    pub prompt: String,
}

/// A prompt task as plain text: (tier, prompt).
pub open spec fn task_view(task: AiPromptTask) -> (Seq<char>, Seq<char>) {
    (task.tier_id@, task.prompt@)
}

/// The prompt tasks as plain text.
pub open spec fn task_views(tasks: Seq<AiPromptTask>) -> Seq<(Seq<char>, Seq<char>)> {
    tasks.map_values(|task: AiPromptTask| task_view(task))
}

/// `{label}{value}. {instruction}`.
pub open spec fn labelled(label: Seq<char>, value: Seq<char>, instruction: Seq<char>) -> Seq<char> {
    label + value + ". "@ + instruction
}

/// The instruction sent with `tier`: the custom recolor tier carries the chosen colour.
pub open spec fn tier_instruction(
    feature: Feature,
    tier: Seq<char>,
    color: Seq<char>,
    instruction: Seq<char>,
) -> Seq<char> {
    if feature == Feature::ProductRecolor && tier == "custom"@ {
        labelled("Requested custom color: "@, color, instruction)
    } else {
        instruction
    }
}

/// The task of one industry tier.
pub open spec fn industry_task(
    tool: IndustryTool,
    feature: Feature,
    tier: Seq<char>,
    color: Seq<char>,
    instruction: Seq<char>,
) -> (Seq<char>, Seq<char>) {
    (tier, spec_render(spec_industry_template(tool), tier, tier_instruction(feature, tier, color, instruction)))
}

/// The tasks of the selected tiers among the first `n`, in tier order.
pub open spec fn selected_tier_tasks(
    tool: IndustryTool,
    feature: Feature,
    tiers: Seq<Seq<char>>,
    selected: Set<usize>,
    color: Seq<char>,
    instruction: Seq<char>,
    n: nat,
) -> Seq<(Seq<char>, Seq<char>)>
    decreases n,
{
    if n == 0 {
        Seq::empty()
    } else {
        let earlier = selected_tier_tasks(tool, feature, tiers, selected, color, instruction, (n - 1) as nat);
        if selected.contains((n - 1) as usize) {
            earlier.push(industry_task(tool, feature, tiers[n - 1], color, instruction))
        } else {
            earlier
        }
    }
}

/// The smallest selected index below `n`.
pub open spec fn first_selected(selected: Set<usize>, n: nat) -> Option<int>
    decreases n,
{
    if n == 0 {
        None
    } else {
        match first_selected(selected, (n - 1) as nat) {
            Some(i) => Some(i),
            None => if selected.contains((n - 1) as usize) {
                Some(n - 1)
            } else {
                None
            },
        }
    }
}

/// The prompts a page sends for `feature`: a free prompt, the chosen editing preset, the
/// poster style, the composed tier, or one prompt per selected tier. The instruction
/// and title count after trimming; an empty instruction is refused where the feature
/// depends on it.
pub open spec fn spec_ai_prompts(
    feature: Feature,
    preset_index: usize,
    selected: Set<usize>,
    composed: Option<Seq<char>>,
    instruction: Seq<char>,
    title: Seq<char>,
    color: Seq<char>,
) -> Result<Seq<(Seq<char>, Seq<char>)>, AiErrorKind> {
    let ins = trim_ws(instruction);
    if (feature == Feature::TextToImage || feature == Feature::CoverFactory || feature
        == Feature::ArticleIllustration) && ins.len() == 0 {
        Err(AiErrorKind::InvalidRequest)
    } else if feature == Feature::ImageEdit {
        let preset = spec_all_edit_presets()[preset_index as int];
        let id = spec_edit_preset_id(preset);
        let prompt = match spec_edit_template(preset) {
            Some(t) => spec_render(t, id, ins),
            None => ins,
        };
        if trim_ws(prompt).len() == 0 {
            Err(AiErrorKind::InvalidRequest)
        } else {
            Ok(seq![(id, prompt)])
        }
    } else if feature == Feature::Poster {
        match spec_ai_spec(feature) {
            None => Err(AiErrorKind::Unsupported),
            Some((list, _, _, _)) => {
                let tiers = spec_tier_texts(list);
                let tier = match first_selected(selected, tiers.len()) {
                    Some(i) => tiers[i],
                    None => "tech-launch"@,
                };
                Ok(seq![(tier, spec_render(spec_poster_template(), tier, ins))])
            },
        }
    } else {
        match spec_industry_tool(feature) {
            None => Ok(seq![("prompt"@, ins)]),
            Some(tool) => {
                let t = trim_ws(title);
                let full = if feature == Feature::PromotionalPoster && t.len() > 0 {
                    labelled("Main title: "@, t, ins)
                } else {
                    ins
                };
                match spec_ai_spec(feature) {
                    None => Err(AiErrorKind::Unsupported),
                    Some((list, _, _, _)) => match composed {
                        Some(tier) => Ok(seq![(tier, spec_render(spec_industry_template(tool), tier, full))]),
                        None => {
                            let tiers = spec_tier_texts(list);
                            Ok(selected_tier_tasks(tool, feature, tiers, selected, color, full, tiers.len()))
                        },
                    },
                }
            },
        }
    }
}

fn labelled_text(label: &str, value: &Vec<char>, instruction: &String) -> (text: String)
    ensures
        text@ == labelled(label@, value@, instruction@),
{
    let mut text = String::new();
    push_str(&mut text, label);
    push_chars(&mut text, value);
    push_str(&mut text, ". ");
    push_str(&mut text, instruction.as_str());
    assert(text@ =~= labelled(label@, value@, instruction@));
    text
}

fn one_task(tier_id: String, prompt: String) -> (tasks: Vec<AiPromptTask>)
    ensures
        task_views(tasks@) == seq![(tier_id@, prompt@)],
{
    let mut tasks: Vec<AiPromptTask> = Vec::new();
    tasks.push(AiPromptTask { tier_id, prompt });
    assert(task_views(tasks@) =~= seq![(tier_id@, prompt@)]);
    tasks
}

/// The prompts of the selected tiers, in tier order.
fn tier_tasks(
    tool: IndustryTool,
    feature: Feature,
    tiers: &'static [&'static str],
    state: &AiUiState,
    color: &str,
    instruction: &String,
) -> (tasks: Vec<AiPromptTask>)
    ensures
        task_views(tasks@) == selected_tier_tasks(
            tool,
            feature,
            tiers@.map_values(|t: &str| t@),
            state.selected_tiers@,
            color@,
            instruction@,
            tiers@.len(),
        ),
{
    let ghost texts = tiers@.map_values(|t: &str| t@);
    let mut tasks: Vec<AiPromptTask> = Vec::new();
    let mut i: usize = 0;
    while i < tiers.len()
        invariant
            i <= tiers@.len(),
            texts == tiers@.map_values(|t: &str| t@),
            task_views(tasks@) == selected_tier_tasks(
                tool,
                feature,
                texts,
                state.selected_tiers@,
                color@,
                instruction@,
                i as nat,
            ),
        decreases tiers@.len() - i,
    {
        if state.selected_tiers.contains(&i) {
            let tier = tiers[i];
            let custom = crate::text::chars_equal(&crate::text::chars_of(tier), "custom");
            let text = if feature == Feature::ProductRecolor && custom {
                labelled_text("Requested custom color: ", &crate::text::chars_of(color), instruction)
            } else {
                instruction.clone()
            };
            let prompt = render_industry_prompt(tool, tier, text.as_str());
            let ghost before = tasks@;
            tasks.push(AiPromptTask { tier_id: tier.to_owned(), prompt });
            proof {
                assert(texts[i as int] == tier@);
                assert(task_views(tasks@) =~= task_views(before).push(
                    industry_task(tool, feature, texts[i as int], color@, instruction@),
                ));
            }
        }
        i = i + 1;
    }
    tasks
}

/// The first selected tier of `tiers`, or the default poster style.
fn first_selected_tier(tiers: &'static [&'static str], state: &AiUiState) -> (tier: &'static str)
    ensures
        tier@ == match first_selected(state.selected_tiers@, tiers@.len()) {
            Some(i) => tiers@.map_values(|t: &str| t@)[i],
            None => "tech-launch"@,
        },
{
    let ghost texts = tiers@.map_values(|t: &str| t@);
    let mut i: usize = 0;
    while i < tiers.len()
        invariant
            i <= tiers@.len(),
            texts == tiers@.map_values(|t: &str| t@),
            first_selected(state.selected_tiers@, i as nat) is None,
        decreases tiers@.len() - i,
    {
        if state.selected_tiers.contains(&i) {
            proof {
                lemma_first_selected_stays(state.selected_tiers@, (i + 1) as nat, tiers@.len());
            }
            return tiers[i];
        }
        i = i + 1;
    }
    "tech-launch"
}

/// Once the smallest selected index below `n` is found, larger bounds find it too.
proof fn lemma_first_selected_stays(selected: Set<usize>, n: nat, m: nat)
    requires
        n <= m,
        first_selected(selected, n) is Some,
    ensures
        first_selected(selected, m) == first_selected(selected, n),
    decreases m - n,
{
    if n < m {
        lemma_first_selected_stays(selected, n, (m - 1) as nat);
    }
}

/// The prompts the page sends for `feature`, from the typed instruction, the poster
/// title and the custom colour (as hex text): see [`spec_ai_prompts`].
pub fn ai_prompts(
    feature: Feature,
    state: &AiUiState,
    instruction: &str,
    poster_title: &str,
    custom_color: &str,
) -> (prompts: Result<Vec<AiPromptTask>, AiErrorKind>)
    requires
        feature == Feature::ImageEdit ==> state.edit_preset_index < spec_edit_preset_count(),
    ensures
        match spec_ai_prompts(
            feature,
            state.edit_preset_index,
            state.selected_tiers@,
            state.spec_composed_tier(feature),
            instruction@,
            poster_title@,
            custom_color@,
        ) {
            Ok(s) => (prompts matches Ok(v) && task_views(v@) == s),
            Err(e) => prompts == Err::<Vec<AiPromptTask>, AiErrorKind>(e),
        },
{
    let ins_chars = trim(instruction);
    let ins = string_from_chars(&ins_chars);
    if (feature == Feature::TextToImage || feature == Feature::CoverFactory || feature
        == Feature::ArticleIllustration) && ins_chars.len() == 0 {
        return Err(AiErrorKind::InvalidRequest);
    }
    if feature == Feature::ImageEdit {
        let presets = AiEditPreset::all();
        let preset = presets[state.edit_preset_index];
        let id = preset.id();
        let prompt = match render_edit_prompt(preset, id, ins.as_str()) {
            Some(p) => p,
            None => ins,
        };
        if trim(prompt.as_str()).len() == 0 {
            return Err(AiErrorKind::InvalidRequest);
        }
        return Ok(one_task(id.to_owned(), prompt));
    }
    if feature == Feature::Poster {
        let spec = match feature.ai_spec() {
            Some(spec) => spec,
            None => return Err(AiErrorKind::Unsupported),
        };
        let tier = first_selected_tier(spec.tiers, state);
        let prompt = render_poster_background_prompt(tier, ins.as_str());
        return Ok(one_task(tier.to_owned(), prompt));
    }
    match industry_tool(feature) {
        None => Ok(one_task(String::from_str("prompt"), ins)),
        Some(tool) => {
            let title = trim(poster_title);
            let full = if feature == Feature::PromotionalPoster && title.len() > 0 {
                labelled_text("Main title: ", &title, &ins)
            } else {
                ins
            };
            let spec = match feature.ai_spec() {
                Some(spec) => spec,
                None => return Err(AiErrorKind::Unsupported),
            };
            match state.composed_tier(feature) {
                Some(tier) => {
                    let prompt = render_industry_prompt(tool, tier.as_str(), full.as_str());
                    Ok(one_task(tier, prompt))
                },
                None => Ok(tier_tasks(tool, feature, spec.tiers, state, custom_color, &full)),
            }
        },
    }
}

/// What a started generation sends.
pub struct AiGenerationPlan {
    /// The page that asked.
    pub feature: Feature,
    /// The provider it goes to.
    pub provider: ProviderId,
    /// The prompts, in order.
    pub prompts: Vec<AiPromptTask>,
    /// Output ratio.
    pub aspect_ratio: AspectRatio,
    /// Images per prompt.
    pub count: u8,
    /// Quality tier.
    pub quality: GenerationQuality,
    /// Whether the drawn region is sent as a mask.
    pub region_edit: bool,
}

/// Whether the page asks for a region removal (the removal editing preset).
pub open spec fn spec_is_removal(feature: Feature, preset_index: usize) -> bool {
    feature == Feature::ImageEdit && spec_all_edit_presets()[preset_index as int] == AiEditPreset::Removal
}

/// Why a generation may not start, if it may not: an unsupported feature, no prompt, a
/// missing source image, an unknown provider, too many reference images, or a region
/// removal the provider cannot do or for which no region was drawn.
pub open spec fn spec_generation_refusal(
    feature: Feature,
    prompt_count: Option<nat>,
    image_count: nat,
    capabilities: Option<ProviderCapabilities>,
    removal: bool,
    region_chosen: bool,
) -> Option<AiErrorKind> {
    match spec_ai_spec(feature) {
        None => Some(AiErrorKind::Unsupported),
        Some((_, _, needs_image, _)) => if prompt_count is None || prompt_count == Some(0nat) {
            Some(AiErrorKind::InvalidRequest)
        } else if needs_image && image_count == 0 {
            Some(AiErrorKind::InvalidRequest)
        } else {
            match capabilities {
                None => Some(AiErrorKind::Provider),
                Some(c) => if image_count > c.max_reference_images {
                    Some(AiErrorKind::Unsupported)
                } else if removal && !c.region_edit {
                    Some(AiErrorKind::Unsupported)
                } else if removal && !region_chosen {
                    Some(AiErrorKind::RegionNotSelected)
                } else {
                    None
                },
            }
        },
    }
}

/// Starts a generation of `feature` with the page's `prompts`, for `image_count`
/// reference images, with the provider's `capabilities` (`None` for an unknown provider)
/// and whether a region was drawn. While a generation runs nothing happens; a refused
/// start shows why; a started one shows progress, forgets the previous results and
/// returns what to send: posters are portrait 9:16, several prompts make one image each.
pub fn start_ai_generation(
    state: &mut AiUiState,
    feature: Feature,
    prompts: Result<Vec<AiPromptTask>, AiErrorKind>,
    image_count: usize,
    capabilities: Option<ProviderCapabilities>,
    region_chosen: bool,
) -> (plan: Option<AiGenerationPlan>)
    requires
        feature == Feature::ImageEdit ==> old(state).edit_preset_index < spec_edit_preset_count(),
    ensures
        old(state).status == AiStatus::Generating ==> plan is None && same_choices(*final(state), *old(state))
            && final(state).status == old(state).status && final(state).selected_results@ == old(
            state,
        ).selected_results@ && final(state).result_count == old(state).result_count,
        old(state).status != AiStatus::Generating ==> same_choices(*final(state), *old(state)) && match spec_generation_refusal(
            feature,
            match prompts {
                Ok(v) => Some(v.len() as nat),
                Err(_) => None,
            },
            image_count as nat,
            capabilities,
            spec_is_removal(feature, old(state).edit_preset_index),
            region_chosen,
        ) {
            Some(kind) => plan is None && final(state).status == AiStatus::Failed(kind)
                && final(state).selected_results@ == old(state).selected_results@
                && final(state).result_count == old(state).result_count,
            None => (plan matches Some(p) && prompts matches Ok(v) && p.prompts@ == v@ && p.feature == feature
                && p.provider == old(state).provider && p.aspect_ratio == (if feature == Feature::Poster {
                AspectRatio::PortraitNineSixteen
            } else {
                old(state).aspect_ratio
            }) && p.count == (if v.len() == 1 {
                old(state).count
            } else {
                1
            }) && p.quality == old(state).quality && p.region_edit == spec_is_removal(
                feature,
                old(state).edit_preset_index,
            )) && final(state).status == AiStatus::Generating && final(state).selected_results@
                == Set::<usize>::empty() && final(state).result_count == 0,
        },
{
    if state.status == AiStatus::Generating {
        return None;
    }
    let spec = match feature.ai_spec() {
        Some(spec) => spec,
        None => {
            state.status = AiStatus::Failed(AiErrorKind::Unsupported);
            return None;
        },
    };
    let prompts = match prompts {
        Ok(prompts) => prompts,
        Err(_) => {
            state.status = AiStatus::Failed(AiErrorKind::InvalidRequest);
            return None;
        },
    };
    if prompts.len() == 0 || (spec.needs_image && image_count == 0) {
        state.status = AiStatus::Failed(AiErrorKind::InvalidRequest);
        return None;
    }
    let capabilities = match capabilities {
        Some(capabilities) => capabilities,
        None => {
            state.status = AiStatus::Failed(AiErrorKind::Provider);
            return None;
        },
    };
    if image_count > capabilities.max_reference_images as usize {
        state.status = AiStatus::Failed(AiErrorKind::Unsupported);
        return None;
    }
    let removal = feature == Feature::ImageEdit && AiEditPreset::all()[state.edit_preset_index]
        == AiEditPreset::Removal;
    if removal && !capabilities.region_edit {
        state.status = AiStatus::Failed(AiErrorKind::Unsupported);
        return None;
    }
    if removal && !region_chosen {
        state.status = AiStatus::Failed(AiErrorKind::RegionNotSelected);
        return None;
    }
    let aspect_ratio = if feature == Feature::Poster {
        AspectRatio::PortraitNineSixteen
    } else {
        state.aspect_ratio
    };
    let count = if prompts.len() == 1 {
        state.count
    } else {
        1
    };
    state.status = AiStatus::Generating;
    state.selected_results = BTreeSet::new();
    state.result_count = 0;
    Some(AiGenerationPlan {
        feature,
        provider: state.provider,
        prompts,
        aspect_ratio,
        count,
        quality: state.quality,
        region_edit: removal,
    })
}


/// A drawn region in pixel edges: columns `left..right` of rows `top..bottom`.
#[derive(Debug, Clone, Copy, PartialEq, Eq, Structural)]
pub struct MaskRect {
    pub left: u32,
    pub top: u32,
    pub right: u32,
    pub bottom: u32,
}

/// Whether pixel (`x`, `y`) lies in the region.
pub open spec fn in_region(x: int, y: int, rect: MaskRect) -> bool {
    rect.left <= x < rect.right && rect.top <= y < rect.bottom
}

/// `m` is the region mask of a `width` × `height` image: fully transparent inside the
/// region, opaque white outside.
pub open spec fn is_region_mask(m: RasterView, width: u32, height: u32, rect: MaskRect) -> bool {
    &&& m.width == width
    &&& m.height == height
    &&& m.pixels.len() == rgba_len(width as int, height as int)
    &&& forall|x: int, y: int, k: int|
        0 <= x < width && 0 <= y < height && 0 <= k < 4 ==> #[trigger] m.at(x, y, k) == if in_region(x, y, rect) {
            0u8
        } else {
            255u8
        }
}

/// The region mask of a `width` × `height` image.
pub fn region_mask(width: u32, height: u32, rect: MaskRect) -> (mask: Raster)
    requires
        rgba_len(width as int, height as int) <= usize::MAX,
    ensures
        mask.wf(),
        is_region_mask(mask@, width, height, rect),
{
    let w = width;
    let h = height;
    let mut pixels: Vec<u8> = Vec::new();
    let mut y: u32 = 0;
    while y < h
        invariant
            y <= h,
            w == width,
            h == height,
            rgba_len(w as int, h as int) <= usize::MAX,
            pixels.len() == 4 * (y * w),
            forall|xx: int, yy: int, k: int|
                0 <= xx < w && 0 <= yy < y && 0 <= k < 4 ==> #[trigger] pixels@[pixel_offset(w as int, xx, yy) + k]
                    == if in_region(xx, yy, rect) {
                    0u8
                } else {
                    255u8
                },
        decreases h - y,
    {
        let mut x: u32 = 0;
        while x < w
            invariant
                y < h,
                x <= w,
                w == width,
                h == height,
                rgba_len(w as int, h as int) <= usize::MAX,
                pixels.len() == 4 * (y * w + x),
                forall|xx: int, yy: int, k: int|
                    0 <= xx < w && 0 <= yy < h && 0 <= k < 4 && (yy < y || (yy == y && xx < x))
                        ==> #[trigger] pixels@[pixel_offset(w as int, xx, yy) + k] == if in_region(xx, yy, rect) {
                        0u8
                    } else {
                        255u8
                    },
            decreases w - x,
        {
            proof {
                crate::beautify::lemma_offset(w as int, h as int, x as int, y as int);
            }
            let inside = rect.left <= x && x < rect.right && rect.top <= y && y < rect.bottom;
            let value: u8 = if inside {
                0
            } else {
                255
            };
            pixels.push(value);
            pixels.push(value);
            pixels.push(value);
            pixels.push(value);
            proof {
                assert forall|xx: int, yy: int, k: int|
                    0 <= xx < w && 0 <= yy < h && 0 <= k < 4 && (yy < y || (yy == y && xx < x + 1))
                        implies #[trigger] pixels@[pixel_offset(w as int, xx, yy) + k] == if in_region(xx, yy, rect) {
                        0u8
                    } else {
                        255u8
                    } by {
                    if !(yy == y && xx == x) {
                        crate::beautify::lemma_offset_before(w as int, xx, yy, k, x as int, y as int);
                    }
                }
                assert(pixels.len() == 4 * (y * w + (x + 1))) by (nonlinear_arith)
                    requires
                        pixels.len() == 4 * (y * w + x) + 4,
                ;
            }
            x = x + 1;
        }
        proof {
            assert(4 * (y * w + w) == 4 * ((y + 1) * w)) by (nonlinear_arith);
        }
        y = y + 1;
    }
    proof {
        assert(4 * (h * w) == 4 * (w * h)) by (nonlinear_arith);
    }
    let mask = Raster { width: w, height: h, pixels };
    assert(mask@.pixels == pixels@);
    mask
}

/// Default PNG settings.
pub open spec fn png_settings() -> EncodeSettings {
    EncodeSettings::Png { compression: PngCompression::Default }
}

/// What the provider gets for a PNG of `view`: the encoded image, refused when the
/// encoder fails or writes nothing.
pub open spec fn png_input(view: RasterView) -> Option<Seq<u8>> {
    match spec_encode(view, png_settings()) {
        Ok(bytes) => if bytes.len() > 0 {
            Some(bytes)
        } else {
            None
        },
        Err(_) => None,
    }
}

/// A PNG of `image` as a provider input; a failed or empty encoding is an invalid
/// request.
fn png_image_input(image: &Raster) -> (input: Result<ImageInput, AiError>)
    requires
        image.wf(),
    ensures
        match png_input(image@) {
            Some(bytes) => (input matches Ok(i) && i.bytes@ == bytes && i.mime_type@ == "image/png"@),
            None => (input matches Err(e) && e is InvalidRequest),
        },
{
    let settings = EncodeSettings::Png { compression: PngCompression::Default };
    match encode(image, settings) {
        Ok(bytes) => ImageInput::new(bytes, "image/png"),
        Err(_) => Err(AiError::InvalidRequest(String::from_str("image encoding failed"))),
    }
}

/// The region mask of a `width` × `height` image as a PNG provider input.
pub fn selection_mask(width: u32, height: u32, rect: MaskRect) -> (input: Result<ImageInput, AiError>)
    requires
        rgba_len(width as int, height as int) <= usize::MAX,
    ensures
        exists|m: RasterView| #[trigger] is_region_mask(m, width, height, rect) && match png_input(m) {
            Some(bytes) => (input matches Ok(i) && i.bytes@ == bytes && i.mime_type@ == "image/png"@),
            None => (input matches Err(e) && e is InvalidRequest),
        },
{
    let mask = region_mask(width, height, rect);
    let input = png_image_input(&mask);
    assert(is_region_mask(mask@, width, height, rect));
    input
}


/// One generated image, ready to show and to save.
#[derive(Debug, Clone)]
pub struct RenderedAiImage {
    /// The bytes to save and their MIME type.
    pub generated: GeneratedImage,
    /// The decoded pixels shown.
    pub image: Raster,
    /// Width in pixels.
    pub width: u32,
    /// Height in pixels.
    pub height: u32,
    /// The tier it was made for.
    pub tier_id: String,
}

/// How a generation ended.
pub enum AiTaskOutcome {
    /// The images, in prompt order.
    Finished(Vec<RenderedAiImage>),
    /// Why it stopped.
    Failed(AiErrorKind),
}

/// Whether a provider image for `tier` can be used: it decodes, and where the business
/// format fixes a size, it can be fitted to that size and the fitted image encodes.
pub open spec fn normalizable(feature: Feature, tier: Seq<char>, bytes: Seq<u8>) -> bool {
    match spec_decoded(bytes) {
        None => false,
        Some(d) => match spec_exact_output_dimensions(feature, tier) {
            None => true,
            Some((w, h)) => cover_possible(d.width as nat, d.height as nat, w as nat, h as nat) && exists|
                c: RasterView,
            | #[trigger] is_cover_of(c, d, w, h) && spec_encode(c, png_settings()) is Ok,
        },
    }
}

/// `image` and `out` are what `generated` becomes for `tier`: the decoded image and the
/// same bytes, or, where the format fixes a size, the fitted image and its PNG.
pub open spec fn normalized(
    feature: Feature,
    tier: Seq<char>,
    generated: GeneratedImage,
    image: Raster,
    out: GeneratedImage,
) -> bool {
    &&& image.wf()
    &&& match spec_decoded(generated.bytes@) {
        None => false,
        Some(d) => match spec_exact_output_dimensions(feature, tier) {
            None => image@ == d && out.bytes@ == generated.bytes@ && out.mime_type@ == generated.mime_type@,
            Some((w, h)) => is_cover_of(image@, d, w, h) && spec_encode(image@, png_settings())
                == Ok::<Seq<u8>, (OutputFormat, Seq<char>)>(out.bytes@) && out.mime_type@ == "image/png"@,
        },
    }
}

/// Brings a decoded provider image to the size its business format fixes (a fitted
/// PNG); other images are kept as they came.
pub fn normalize_ai_output(feature: Feature, tier_id: &str, image: Raster, generated: GeneratedImage) -> (out: Result<
    (Raster, GeneratedImage),
    CoreError,
>)
    requires
        spec_decoded(generated.bytes@) == Some(image@),
        image.wf(),
    ensures
        out is Ok <==> normalizable(feature, tier_id@, generated.bytes@),
        out matches Ok((i, g)) ==> normalized(feature, tier_id@, generated, i, g),
{
    let (width, height) = match exact_output_dimensions(feature, tier_id) {
        Some(dims) => dims,
        None => return Ok((image, generated)),
    };
    let fitted = match exact_cover(&image, width, height) {
        Ok(fitted) => fitted,
        Err(e) => return Err(e),
    };
    let settings = EncodeSettings::Png { compression: PngCompression::Default };
    let bytes = match encode(&fitted, settings) {
        Ok(bytes) => bytes,
        Err(e) => {
            proof {
                assert forall|c: RasterView| #[trigger] is_cover_of(c, image@, width, height) implies !(spec_encode(
                    c,
                    png_settings(),
                ) is Ok) by {
                    lemma_cover_unique(c, fitted@, image@, width, height);
                }
            }
            return Err(e);
        },
    };
    Ok((fitted, GeneratedImage { bytes, mime_type: String::from_str("image/png") }))
}

/// The images of one provider answer for `tier`, in order; an answer without images, or
/// with one that cannot be used, is a provider failure.
pub fn render_generated(feature: Feature, tier_id: &String, images: Vec<GeneratedImage>) -> (rendered: Result<
    Vec<RenderedAiImage>,
    AiErrorKind,
>)
    ensures
        rendered is Ok <==> images.len() > 0 && forall|i: int| 0 <= i < images.len() ==> normalizable(
            feature,
            tier_id@,
            #[trigger] images@[i].bytes@,
        ),
        rendered matches Ok(items) ==> items.len() == images.len() && forall|i: int| 0 <= i < items.len() ==> {
            &&& normalized(feature, tier_id@, images@[i], (#[trigger] items@[i]).image, items@[i].generated)
            &&& items@[i].width == items@[i].image.width
            &&& items@[i].height == items@[i].image.height
            &&& items@[i].tier_id@ == tier_id@
        },
        rendered matches Err(kind) ==> kind == AiErrorKind::Provider,
{
    if images.len() == 0 {
        return Err(AiErrorKind::Provider);
    }
    let mut items: Vec<RenderedAiImage> = Vec::new();
    let mut i: usize = 0;
    while i < images.len()
        invariant
            i <= images.len(),
            items.len() == i,
            forall|j: int| 0 <= j < i ==> normalizable(feature, tier_id@, #[trigger] images@[j].bytes@),
            forall|j: int| 0 <= j < i ==> {
                &&& normalized(feature, tier_id@, images@[j], (#[trigger] items@[j]).image, items@[j].generated)
                &&& items@[j].width == items@[j].image.width
                &&& items@[j].height == items@[j].image.height
                &&& items@[j].tier_id@ == tier_id@
            },
        decreases images.len() - i,
    {
        let generated = GeneratedImage { bytes: images[i].bytes.clone(), mime_type: images[i].mime_type.clone() };
        assert(generated.bytes@ == images@[i as int].bytes@);
        let image = match decode(generated.bytes.as_slice()) {
            Ok(image) => image,
            Err(_) => return Err(AiErrorKind::Provider),
        };
        let (image, out) = match normalize_ai_output(feature, tier_id.as_str(), image, generated) {
            Ok(pair) => pair,
            Err(_) => return Err(AiErrorKind::Provider),
        };
        let width = image.width;
        let height = image.height;
        items.push(RenderedAiImage { generated: out, image, width, height, tier_id: tier_id.clone() });
        i = i + 1;
    }
    Ok(items)
}


/// Region masks of one size and region are equal.
proof fn lemma_region_mask_unique(a: RasterView, b: RasterView, width: u32, height: u32, rect: MaskRect)
    requires
        is_region_mask(a, width, height, rect),
        is_region_mask(b, width, height, rect),
    ensures
        a == b,
{
    assert forall|x: int, y: int, k: int| 0 <= x < a.width && 0 <= y < a.height && 0 <= k < 4 implies #[trigger] a.at(
        x,
        y,
        k,
    ) == b.at(x, y, k) by {}
    lemma_view_ext(a, b);
}

/// Every size a business format fixes is at most 2000 pixels on each side.
proof fn lemma_exact_dimensions_small(feature: Feature, tier: Seq<char>)
    ensures
        spec_exact_output_dimensions(feature, tier) matches Some((w, h)) ==> w <= 2000 && h <= 2000
            && rgba_len(w as int, h as int) <= 16_000_000,
{
    if let Some((w, h)) = spec_exact_output_dimensions(feature, tier) {
        assert(w * h <= 2000 * 2000) by (nonlinear_arith)
            requires
                w <= 2000,
                h <= 2000,
        ;
    }
}

/// The fitted PNG that platform adaptation makes locally when the source already has
/// nearly the target's proportions.
fn local_cover(source: &Raster, width: u32, height: u32, tier_id: &String) -> (rendered: Option<RenderedAiImage>)
    requires
        source.wf(),
        rgba_len(width as int, height as int) <= usize::MAX,
    ensures
        rendered is Some <==> cover_possible(source.width as nat, source.height as nat, width as nat, height as nat)
            && exists|c: RasterView| #[trigger] is_cover_of(c, source@, width, height) && spec_encode(
            c,
            png_settings(),
        ) is Ok,
        rendered matches Some(item) ==> {
            &&& item.image.wf()
            &&& is_cover_of(item.image@, source@, width, height)
            &&& item.width == width
            &&& item.height == height
            &&& spec_encode(item.image@, png_settings()) == Ok::<Seq<u8>, (OutputFormat, Seq<char>)>(
                item.generated.bytes@,
            )
            &&& item.generated.mime_type@ == "image/png"@
            &&& item.tier_id@ == tier_id@
        },
{
    let image = match exact_cover(source, width, height) {
        Ok(image) => image,
        Err(_) => return None,
    };
    let settings = EncodeSettings::Png { compression: PngCompression::Default };
    let bytes = match encode(&image, settings) {
        Ok(bytes) => bytes,
        Err(_) => {
            proof {
                assert forall|c: RasterView| #[trigger] is_cover_of(c, source@, width, height) implies !(spec_encode(
                    c,
                    png_settings(),
                ) is Ok) by {
                    lemma_cover_unique(c, image@, source@, width, height);
                }
            }
            return None;
        },
    };
    Some(RenderedAiImage {
        generated: GeneratedImage { bytes, mime_type: String::from_str("image/png") },
        image,
        width,
        height,
        tier_id: tier_id.clone(),
    })
}

/// Whether every reference image, and the mask of the drawn region at the first image's
/// size, can go to the provider as a PNG.
pub open spec fn inputs_ready(images: Seq<Raster>, mask: Option<MaskRect>) -> bool {
    &&& forall|i: int| 0 <= i < images.len() ==> png_input((#[trigger] images[i])@) is Some
    &&& mask matches Some(rect) ==> images.len() > 0 && forall|m: RasterView| #[trigger]
        is_region_mask(m, images[0].width, images[0].height, rect) ==> png_input(m) is Some
}

/// `refs` are the PNGs of `images`, in order.
pub open spec fn references_of(refs: Seq<ImageInput>, images: Seq<Raster>) -> bool {
    &&& refs.len() == images.len()
    &&& forall|i: int| 0 <= i < refs.len() ==> png_input(images[i]@) == Some((#[trigger] refs[i]).bytes@)
        && refs[i].mime_type@ == "image/png"@
}

/// `sent` is the mask that goes with `images`: none without a region, else the PNG of the
/// region's mask at the first image's size.
pub open spec fn mask_of(sent: Option<ImageInput>, images: Seq<Raster>, mask: Option<MaskRect>) -> bool {
    match mask {
        None => sent is None,
        Some(rect) => {
            &&& images.len() > 0
            &&& sent matches Some(m)
            &&& exists|mv: RasterView| #[trigger]
                is_region_mask(mv, images[0].width, images[0].height, rect) && png_input(mv) == Some(m.bytes@)
            &&& m.mime_type@ == "image/png"@
        },
    }
}

/// `request` is what prompt `t` of `plan` sends: its text, the reference PNGs, the mask,
/// and the plan's ratio, count and quality.
pub open spec fn is_ai_request(
    request: GenerationRequest,
    plan: AiGenerationPlan,
    t: int,
    images: Seq<Raster>,
    mask: Option<MaskRect>,
) -> bool {
    &&& request.prompt@ == plan.prompts@[t].prompt@
    &&& references_of(request.reference_images@, images)
    &&& mask_of(request.mask, images, mask)
    &&& request.aspect_ratio == plan.aspect_ratio
    &&& request.count == plan.count
    &&& request.quality == plan.quality
}

/// Whether prompt `t` is answered without the provider: platform adaptation of a first
/// image whose proportions are close to the size the prompt's format fixes.
pub open spec fn answered_locally(plan: AiGenerationPlan, images: Seq<Raster>, t: int) -> bool {
    &&& plan.feature == Feature::PlatformAdaptation
    &&& images.len() > 0
    &&& spec_exact_output_dimensions(plan.feature, plan.prompts@[t].tier_id@) matches Some((w, h))
    &&& spec_ratio_is_close(images[0].width as nat, images[0].height as nat, w as nat, h as nat)
}

/// Whether the local answer to prompt `t` can be made: the first image can be fitted to
/// the fixed size and the fitted image encodes as PNG.
pub open spec fn local_possible(plan: AiGenerationPlan, images: Seq<Raster>, t: int) -> bool {
    &&& spec_exact_output_dimensions(plan.feature, plan.prompts@[t].tier_id@) matches Some((w, h))
    &&& cover_possible(images[0].width as nat, images[0].height as nat, w as nat, h as nat)
    &&& exists|c: RasterView| #[trigger] is_cover_of(c, images[0]@, w, h) && spec_encode(c, png_settings()) is Ok
}

/// `item` is the local answer to prompt `t`: the first image fitted to the fixed size,
/// with its PNG.
pub open spec fn is_local_item(plan: AiGenerationPlan, images: Seq<Raster>, t: int, item: RenderedAiImage) -> bool {
    &&& spec_exact_output_dimensions(plan.feature, plan.prompts@[t].tier_id@) matches Some((w, h))
    &&& item.image.wf()
    &&& is_cover_of(item.image@, images[0]@, w, h)
    &&& item.width == w
    &&& item.height == h
    &&& spec_encode(item.image@, png_settings()) == Ok::<Seq<u8>, (OutputFormat, Seq<char>)>(item.generated.bytes@)
    &&& item.generated.mime_type@ == "image/png"@
    &&& item.tier_id@ == plan.prompts@[t].tier_id@
}

/// Whether a provider answer of `answer` can be used for `tier`.
pub open spec fn renderable(feature: Feature, tier: Seq<char>, answer: Seq<GeneratedImage>) -> bool {
    answer.len() > 0 && forall|i: int| 0 <= i < answer.len() ==> normalizable(feature, tier, #[trigger] answer[i].bytes@)
}

/// `part` is what a provider answer of `answer` becomes for `tier`, image by image.
pub open spec fn rendered_answer(
    feature: Feature,
    tier: Seq<char>,
    answer: Seq<GeneratedImage>,
    part: Seq<RenderedAiImage>,
) -> bool {
    &&& answer.len() > 0
    &&& part.len() == answer.len()
    &&& forall|i: int| 0 <= i < part.len() ==> {
        &&& normalized(feature, tier, answer[i], (#[trigger] part[i]).image, part[i].generated)
        &&& part[i].width == part[i].image.width
        &&& part[i].height == part[i].image.height
        &&& part[i].tier_id@ == tier
    }
}

/// `part` answers prompt `t`: the local answer, or the rendering of what the registry
/// answered to the request for `t`.
pub open spec fn answers_prompt<P: Provider>(
    providers: Seq<P>,
    plan: AiGenerationPlan,
    images: Seq<Raster>,
    mask: Option<MaskRect>,
    t: int,
    part: Seq<RenderedAiImage>,
) -> bool {
    if answered_locally(plan, images, t) {
        part.len() == 1 && is_local_item(plan, images, t, part[0])
    } else {
        exists|request: GenerationRequest, result: GenerationResult|
            is_ai_request(request, plan, t, images, mask) && #[trigger] registry_answer(
                providers,
                plan.provider,
                request,
                Ok::<GenerationResult, AiError>(result),
            ) && rendered_answer(plan.feature, plan.prompts@[t].tier_id@, result.images@, part)
    }
}

/// How the request for prompt `t` can fail with `kind`: the registry refuses it with an
/// error of that kind, or answers with images that cannot be used (a provider failure).
pub open spec fn request_fails<P: Provider>(
    providers: Seq<P>,
    plan: AiGenerationPlan,
    images: Seq<Raster>,
    mask: Option<MaskRect>,
    t: int,
    kind: AiErrorKind,
) -> bool {
    ||| exists|request: GenerationRequest, error: AiError|
        is_ai_request(request, plan, t, images, mask) && #[trigger] registry_answer(
            providers,
            plan.provider,
            request,
            Err::<GenerationResult, AiError>(error),
        ) && kind == spec_error_kind(error)
    ||| exists|request: GenerationRequest, result: GenerationResult|
        is_ai_request(request, plan, t, images, mask) && #[trigger] registry_answer(
            providers,
            plan.provider,
            request,
            Ok::<GenerationResult, AiError>(result),
        ) && !renderable(plan.feature, plan.prompts@[t].tier_id@, result.images@) && kind == AiErrorKind::Provider
}

/// How prompt `t` can end a run with `kind`: a local answer that cannot be made is a
/// provider failure; otherwise the key store's refusal (of whatever kind it reports) or
/// the request's failure decides.
pub open spec fn fails_prompt<P: Provider>(
    providers: Seq<P>,
    plan: AiGenerationPlan,
    images: Seq<Raster>,
    mask: Option<MaskRect>,
    t: int,
    kind: AiErrorKind,
) -> bool {
    if answered_locally(plan, images, t) {
        !local_possible(plan, images, t) && kind == AiErrorKind::Provider
    } else {
        (exists|error: AiError| kind == #[trigger] spec_error_kind(error)) || request_fails(
            providers,
            plan,
            images,
            mask,
            t,
            kind,
        )
    }
}

/// Prompt `t` is the first one: every prompt before it was answered locally, and its own
/// local answer cannot be made.
pub open spec fn first_local_failure(plan: AiGenerationPlan, images: Seq<Raster>, t: int) -> bool {
    &&& answered_locally(plan, images, t)
    &&& !local_possible(plan, images, t)
    &&& forall|s: int| 0 <= s < t ==> #[trigger] answered_locally(plan, images, s) && local_possible(plan, images, s)
}

/// The PNG inputs of `images` and the mask PNG of the drawn region, or `None` when one of
/// them cannot be made (or a region comes without an image).
fn prepare_inputs(images: &Vec<Raster>, mask: Option<MaskRect>) -> (prepared: Option<
    (Vec<ImageInput>, Option<ImageInput>),
>)
    requires
        forall|i: int| 0 <= i < images.len() ==> (#[trigger] images@[i]).wf(),
    ensures
        prepared is Some <==> inputs_ready(images@, mask),
        prepared matches Some((refs, sent)) ==> references_of(refs@, images@) && mask_of(sent, images@, mask),
{
    let mut refs: Vec<ImageInput> = Vec::new();
    let mut i: usize = 0;
    while i < images.len()
        invariant
            i <= images.len(),
            refs.len() == i,
            forall|j: int| 0 <= j < images.len() ==> (#[trigger] images@[j]).wf(),
            forall|j: int| 0 <= j < i ==> png_input((#[trigger] images@[j])@) is Some,
            forall|j: int| 0 <= j < i ==> png_input(images@[j]@) == Some((#[trigger] refs@[j]).bytes@)
                && refs@[j].mime_type@ == "image/png"@,
        decreases images.len() - i,
    {
        match png_image_input(&images[i]) {
            Ok(input) => refs.push(input),
            Err(_) => return None,
        }
        i = i + 1;
    }
    let rect = match mask {
        Some(rect) => rect,
        None => return Some((refs, None)),
    };
    if images.len() == 0 {
        return None;
    }
    let first = &images[0];
    let made = selection_mask(first.width, first.height, rect);
    let ghost m0 = choose|m: RasterView| #[trigger] is_region_mask(m, first.width, first.height, rect) && match png_input(m) {
        Some(bytes) => (made matches Ok(i) && i.bytes@ == bytes && i.mime_type@ == "image/png"@),
        None => (made matches Err(e) && e is InvalidRequest),
    };
    match made {
        Ok(input) => {
            proof {
                assert forall|m: RasterView| #[trigger] is_region_mask(m, first.width, first.height, rect) implies png_input(m) is Some by {
                    lemma_region_mask_unique(m, m0, first.width, first.height, rect);
                }
            }
            Some((refs, Some(input)))
        },
        Err(_) => {
            proof {
                lemma_region_mask_unique(m0, m0, first.width, first.height, rect);
            }
            None
        },
    }
}

/// A copy of `input`.
fn copy_input(input: &ImageInput) -> (copy: ImageInput)
    ensures
        copy.bytes@ == input.bytes@,
        copy.mime_type@ == input.mime_type@,
{
    ImageInput { bytes: input.bytes.clone(), mime_type: input.mime_type.clone() }
}

/// A copy of `inputs`, item by item.
fn copy_inputs(inputs: &Vec<ImageInput>) -> (copy: Vec<ImageInput>)
    ensures
        copy.len() == inputs.len(),
        forall|i: int| 0 <= i < copy.len() ==> (#[trigger] copy@[i]).bytes@ == inputs@[i].bytes@
            && copy@[i].mime_type@ == inputs@[i].mime_type@,
{
    let mut copy: Vec<ImageInput> = Vec::new();
    let mut i: usize = 0;
    while i < inputs.len()
        invariant
            i <= inputs.len(),
            copy.len() == i,
            forall|j: int| 0 <= j < i ==> (#[trigger] copy@[j]).bytes@ == inputs@[j].bytes@
                && copy@[j].mime_type@ == inputs@[j].mime_type@,
        decreases inputs.len() - i,
    {
        copy.push(copy_input(&inputs[i]));
        i = i + 1;
    }
    copy
}

/// The local answer to prompt `t`: `None` when the prompt goes to the provider, else the
/// fitted image, or `None` inside when it cannot be made.
fn local_answer(plan: &AiGenerationPlan, images: &Vec<Raster>, t: usize) -> (answer: Option<Option<RenderedAiImage>>)
    requires
        t < plan.prompts.len(),
        forall|i: int| 0 <= i < images.len() ==> (#[trigger] images@[i]).wf(),
    ensures
        answer is Some <==> answered_locally(*plan, images@, t as int),
        answer matches Some(o) ==> (o is Some <==> local_possible(*plan, images@, t as int)),
        answer matches Some(Some(item)) ==> is_local_item(*plan, images@, t as int, item),
{
    if plan.feature != Feature::PlatformAdaptation || images.len() == 0 {
        return None;
    }
    let tier_id = &plan.prompts[t].tier_id;
    let (width, height) = match exact_output_dimensions(plan.feature, tier_id.as_str()) {
        Some(dims) => dims,
        None => return None,
    };
    let source = &images[0];
    proof {
        lemma_exact_dimensions_small(plan.feature, tier_id@);
    }
    if !aspect_ratio_is_close(source.width, source.height, width, height) {
        return None;
    }
    Some(local_cover(source, width, height, tier_id))
}

/// Sends the request for prompt `t` with `api_key` and renders the answer.
fn provider_answer<P: Provider>(
    registry: &ProviderRegistry<P>,
    plan: &AiGenerationPlan,
    t: usize,
    images: &Vec<Raster>,
    mask: Option<MaskRect>,
    references: &Vec<ImageInput>,
    mask_input: &Option<ImageInput>,
    api_key: &ApiKey,
) -> (answer: Result<Vec<RenderedAiImage>, AiErrorKind>)
    requires
        t < plan.prompts.len(),
        references_of(references@, images@),
        mask_of(*mask_input, images@, mask),
    ensures
        answer matches Ok(part) ==> exists|request: GenerationRequest, result: GenerationResult|
            is_ai_request(request, *plan, t as int, images@, mask) && #[trigger] registry_answer(
                registry.spec_providers(),
                plan.provider,
                request,
                Ok::<GenerationResult, AiError>(result),
            ) && rendered_answer(plan.feature, plan.prompts@[t as int].tier_id@, result.images@, part@),
        answer matches Err(kind) ==> request_fails(registry.spec_providers(), *plan, images@, mask, t as int, kind),
{
    let sent_mask = match mask_input {
        Some(m) => Some(copy_input(m)),
        None => None,
    };
    let request = GenerationRequest {
        prompt: plan.prompts[t].prompt.clone(),
        reference_images: copy_inputs(references),
        mask: sent_mask,
        aspect_ratio: plan.aspect_ratio,
        count: plan.count,
        quality: plan.quality,
    };
    assert(is_ai_request(request, *plan, t as int, images@, mask));
    let response = registry.generate(plan.provider, &request, api_key);
    match response {
        Ok(result) => {
            let ghost answer = result.images@;
            match render_generated(plan.feature, &plan.prompts[t].tier_id, result.images) {
                Ok(part) => Ok(part),
                Err(kind) => {
                    assert(!renderable(plan.feature, plan.prompts@[t as int].tier_id@, answer));
                    Err(kind)
                },
            }
        },
        Err(e) => {
            let kind = AiErrorKind::from_error(&e);
            Err(kind)
        },
    }
}

/// Runs a planned generation on `images` (with `mask` as the drawn region of the first
/// one): every reference image goes as a PNG; each prompt either is answered locally
/// (platform adaptation of a source with nearly the right proportions) or is sent with
/// the provider's key, fetched once; answers are decoded and fitted to the size their
/// format fixes. The first failure ends the run.
#[verifier::rlimit(40)]
pub fn run_ai_task<P: Provider, S: CredentialStore>(
    registry: &ProviderRegistry<P>,
    credentials: &S,
    plan: &AiGenerationPlan,
    images: &Vec<Raster>,
    mask: Option<MaskRect>,
) -> (outcome: AiTaskOutcome)
    requires
        forall|i: int| 0 <= i < images.len() ==> (#[trigger] images@[i]).wf(),
    ensures
        !inputs_ready(images@, mask) ==> (outcome matches AiTaskOutcome::Failed(k) && k
            == AiErrorKind::InvalidRequest),
        inputs_ready(images@, mask) && (forall|t: int| 0 <= t < plan.prompts.len() ==> #[trigger] answered_locally(
            *plan,
            images@,
            t,
        ) && local_possible(*plan, images@, t)) ==> outcome is Finished,
        inputs_ready(images@, mask) ==> forall|t: int| 0 <= t < plan.prompts.len() && #[trigger] first_local_failure(
            *plan,
            images@,
            t,
        ) ==> (outcome matches AiTaskOutcome::Failed(k) && k == AiErrorKind::Provider),
        outcome matches AiTaskOutcome::Finished(items) ==> inputs_ready(images@, mask) && exists|
            parts: Seq<Seq<RenderedAiImage>>,
        |
            #![trigger parts.flatten()]
            parts.len() == plan.prompts.len() && items@ == parts.flatten() && forall|t: int|
                0 <= t < parts.len() ==> answers_prompt(
                    registry.spec_providers(),
                    *plan,
                    images@,
                    mask,
                    t,
                    #[trigger] parts[t],
                ),
        outcome matches AiTaskOutcome::Failed(k) ==> (!inputs_ready(images@, mask) && k
            == AiErrorKind::InvalidRequest) || (inputs_ready(images@, mask) && exists|t: int|
            0 <= t < plan.prompts.len() && #[trigger] fails_prompt(
                registry.spec_providers(),
                *plan,
                images@,
                mask,
                t,
                k,
            )),
{
    let (references, mask_input) = match prepare_inputs(images, mask) {
        Some(prepared) => prepared,
        None => return AiTaskOutcome::Failed(AiErrorKind::InvalidRequest),
    };
    let mut key: Option<ApiKey> = None;
    let mut rendered: Vec<RenderedAiImage> = Vec::new();
    let ghost mut parts: Seq<Seq<RenderedAiImage>> = Seq::empty();
    let mut t: usize = 0;
    while t < plan.prompts.len()
        invariant
            t <= plan.prompts.len(),
            forall|i: int| 0 <= i < images.len() ==> (#[trigger] images@[i]).wf(),
            inputs_ready(images@, mask),
            references_of(references@, images@),
            mask_of(mask_input, images@, mask),
            parts.len() == t,
            rendered@ == parts.flatten_alt(),
            forall|s: int| 0 <= s < t ==> answers_prompt(
                registry.spec_providers(),
                *plan,
                images@,
                mask,
                s,
                #[trigger] parts[s],
            ),
            forall|s: int| 0 <= s < t ==> #[trigger] answered_locally(*plan, images@, s) ==> local_possible(
                *plan,
                images@,
                s,
            ),
        decreases plan.prompts.len() - t,
    {
        let ghost before = parts;
        match local_answer(plan, images, t) {
            Some(Some(item)) => {
                let ghost part = seq![item];
                rendered.push(item);
                proof {
                    parts = before.push(part);
                    assert(parts.drop_last() =~= before);
                    assert(rendered@ =~= before.flatten_alt() + part);
                    assert(answers_prompt(registry.spec_providers(), *plan, images@, mask, t as int, parts[t as int]));
                }
            },
            Some(None) => {
                proof {
                    assert(fails_prompt(
                        registry.spec_providers(),
                        *plan,
                        images@,
                        mask,
                        t as int,
                        AiErrorKind::Provider,
                    ));
                }
                return AiTaskOutcome::Failed(AiErrorKind::Provider);
            },
            None => {
                if key.is_none() {
                    key = match credentials.get(plan.provider) {
                        Ok(k) => Some(k),
                        Err(e) => {
                            let kind = AiErrorKind::from_error(&e);
                            proof {
                                assert(fails_prompt(registry.spec_providers(), *plan, images@, mask, t as int, kind));
                            }
                            return AiTaskOutcome::Failed(kind);
                        },
                    };
                }
                let api_key = match &key {
                    Some(k) => k,
                    None => {
                        proof {
                            assert(AiErrorKind::KeyRequired == spec_error_kind(AiError::ApiKeyRequired));
                            assert(fails_prompt(
                                registry.spec_providers(),
                                *plan,
                                images@,
                                mask,
                                t as int,
                                AiErrorKind::KeyRequired,
                            ));
                        }
                        return AiTaskOutcome::Failed(AiErrorKind::KeyRequired);
                    },
                };
                let mut part = match provider_answer(
                    registry,
                    plan,
                    t,
                    images,
                    mask,
                    &references,
                    &mask_input,
                    api_key,
                ) {
                    Ok(part) => part,
                    Err(kind) => {
                        proof {
                            assert(fails_prompt(registry.spec_providers(), *plan, images@, mask, t as int, kind));
                        }
                        return AiTaskOutcome::Failed(kind);
                    },
                };
                let ghost added = part@;
                rendered.append(&mut part);
                proof {
                    parts = before.push(added);
                    assert(parts.drop_last() =~= before);
                    assert(rendered@ =~= before.flatten_alt() + added);
                    assert(answers_prompt(registry.spec_providers(), *plan, images@, mask, t as int, parts[t as int]));
                }
            },
        }
        t = t + 1;
    }
    proof {
        parts.lemma_flatten_and_flatten_alt_are_equivalent();
    }
    AiTaskOutcome::Finished(rendered)
}

/// Ends a generation with `outcome`. A finished run is always recorded in the history
/// (provider, feature, number of images, no paths yet); the page shows the results, or
/// the error, only when it is still the page and the generation that asked (`current`),
/// and otherwise returns to idle.
pub fn finish_ai_generation(
    state: &mut AiUiState,
    feature: Feature,
    provider: ProviderId,
    outcome: &AiTaskOutcome,
    current: bool,
    now_unix_ms: u64,
) -> (record: Option<GenerationHistoryRecord>)
    ensures
        same_choices(*final(state), *old(state)),
        match outcome {
            AiTaskOutcome::Finished(items) => (record matches Some(r) && r.created_at_unix_ms == now_unix_ms
                && r.provider@ == spec_provider_name(provider) && r.feature@ == spec_id(feature) && r.output_count
                == items.len() && r.saved_paths.len() == 0) && if current {
                final(state).status == AiStatus::Ready(items.len()) && final(state).selected_results@ == Set::new(
                    |i: usize| i < items.len(),
                ) && final(state).result_count == items.len()
            } else {
                final(state).status == AiStatus::Idle && final(state).selected_results@ == old(
                    state,
                ).selected_results@ && final(state).result_count == old(state).result_count
            },
            AiTaskOutcome::Failed(kind) => record is None && final(state).status == (if current {
                AiStatus::Failed(*kind)
            } else {
                AiStatus::Idle
            }) && final(state).selected_results@ == old(state).selected_results@ && final(state).result_count
                == old(state).result_count,
        },
{
    match outcome {
        AiTaskOutcome::Finished(items) => {
            let record = GenerationHistoryRecord {
                created_at_unix_ms: now_unix_ms,
                provider: provider.as_str().to_owned(),
                feature: feature.id().to_owned(),
                output_count: items.len(),
                saved_paths: Vec::new(),
            };
            if current {
                state.set_result_count(items.len());
            } else {
                state.status = AiStatus::Idle;
            }
            Some(record)
        },
        AiTaskOutcome::Failed(kind) => {
            state.status = if current {
                AiStatus::Failed(*kind)
            } else {
                AiStatus::Idle
            };
            None
        },
    }
}

/// The file extension an AI result is saved with, from its MIME type.
pub open spec fn spec_result_extension(mime: Seq<char>) -> Seq<char> {
    if mime == "image/jpeg"@ {
        "jpg"@
    } else if mime == "image/webp"@ {
        "webp"@
    } else {
        "png"@
    }
}

/// The file extension an AI result is saved with: `jpg` for JPEG, `webp` for WebP,
/// `png` otherwise.
pub fn result_extension(mime_type: &str) -> (extension: &'static str)
    ensures
        extension@ == spec_result_extension(mime_type@),
{
    let mime = crate::text::chars_of(mime_type);
    if crate::text::chars_equal(&mime, "image/jpeg") {
        "jpg"
    } else if crate::text::chars_equal(&mime, "image/webp") {
        "webp"
    } else {
        "png"
    }
}

/// The file name of the `index`-th (from 0) AI result of a batch saved at
/// `created_at_unix_ms`.
pub fn result_filename(created_at_unix_ms: u64, index: usize, image: &GeneratedImage) -> (name: String)
    requires
        index < usize::MAX,
    ensures
        name@ == spec_ai_filename(
            created_at_unix_ms as nat,
            (index + 1) as nat,
            spec_result_extension(image.mime_type@),
        ),
{
    ai_filename(created_at_unix_ms, index + 1, result_extension(image.mime_type.as_str()))
}

} // verus!
