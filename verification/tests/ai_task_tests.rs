use std::sync::{Arc, Mutex};

use base64::Engine;
use impressy::ai::credentials::{CredentialStore, MemoryCredentialStore};
use impressy::ai::registry::ProviderRegistry;
use impressy::ai::transport::{HttpRequest, HttpResponse, HttpTransport, TransportError};
use impressy::ai::types::{
    ApiKey, AspectRatio, GeneratedImage, GenerationQuality, ProviderCapabilities, ProviderId,
};
use impressy::ai_state::{AiErrorKind, AiStatus, AiUiState};
use impressy::ai_task::{
    ai_prompts, finish_ai_generation, result_extension, result_filename, run_ai_task,
    selection_mask, start_ai_generation, AiGenerationPlan, AiPromptTask, AiTaskOutcome, MaskRect,
};
use impressy::format::{decode, encode, EncodeSettings, PngCompression};
use impressy::raster::Raster;
use impressy::section::Feature;

fn filled(width: u32, height: u32, rgba: [u8; 4]) -> Raster {
    let mut pixels = Vec::new();
    for _ in 0..width * height {
        pixels.extend_from_slice(&rgba);
    }
    Raster { width, height, pixels }
}

fn alpha(raster: &Raster, x: u32, y: u32) -> u8 {
    raster.pixels[(4 * (y * raster.width + x) + 3) as usize]
}

fn png_of(raster: &Raster) -> Vec<u8> {
    encode(raster, EncodeSettings::Png { compression: PngCompression::Default }).unwrap()
}

struct CountingTransport {
    body: Vec<u8>,
    calls: Mutex<usize>,
}

impl CountingTransport {
    fn answering_with(image: &Raster) -> Arc<Self> {
        let data = base64::engine::general_purpose::STANDARD.encode(png_of(image));
        let body = format!(r#"{{"data":[{{"b64_json":"{data}"}}]}}"#).into_bytes();
        Arc::new(Self { body, calls: Mutex::new(0) })
    }

    fn calls(&self) -> usize {
        *self.calls.lock().unwrap()
    }
}

impl HttpTransport for CountingTransport {
    fn execute(&self, _request: HttpRequest) -> Result<HttpResponse, TransportError> {
        *self.calls.lock().map_err(|_| TransportError::Failed)? += 1;
        Ok(HttpResponse { status: 200, headers: Vec::new(), body: self.body.clone() })
    }
}

fn store_with_key(provider: ProviderId) -> MemoryCredentialStore {
    let mut store = MemoryCredentialStore::new();
    store.set(provider, &ApiKey::new("provider-secret").unwrap()).unwrap();
    store
}

fn plan(feature: Feature, provider: ProviderId, prompts: Vec<(&str, &str)>) -> AiGenerationPlan {
    AiGenerationPlan {
        feature,
        provider,
        prompts: prompts
            .into_iter()
            .map(|(tier, prompt)| AiPromptTask { tier_id: tier.to_string(), prompt: prompt.to_string() })
            .collect(),
        aspect_ratio: AspectRatio::Square,
        count: 1,
        quality: GenerationQuality::Medium,
        region_edit: false,
    }
}

fn caps(region_edit: bool) -> ProviderCapabilities {
    ProviderCapabilities {
        max_reference_images: 2,
        supported_aspect_ratios: &[AspectRatio::Square],
        max_generation_count: 4,
        text_to_image: true,
        image_to_image: true,
        region_edit,
        max_input_image_bytes: 1 << 20,
    }
}

#[test]
fn ai_region_mask_is_transparent_only_inside_selection() {
    let input = selection_mask(10, 10, MaskRect { left: 2, top: 3, right: 6, bottom: 5 }).expect("mask");
    assert_eq!(input.mime_type, "image/png");
    let mask = decode(&input.bytes).expect("decode mask");
    assert_eq!(alpha(&mask, 0, 0), 255);
    assert_eq!(alpha(&mask, 3, 4), 0);
    assert_eq!(alpha(&mask, 8, 8), 255);
}

#[test]
fn text_prompts_need_an_instruction_and_are_trimmed() {
    let state = AiUiState::default();
    assert!(matches!(ai_prompts(Feature::TextToImage, &state, "   ", "", ""), Err(AiErrorKind::InvalidRequest)));
    let prompts = ai_prompts(Feature::TextToImage, &state, "  a red fox ", "", "").unwrap();
    assert_eq!(prompts.len(), 1);
    assert_eq!(prompts[0].tier_id, "prompt");
    assert_eq!(prompts[0].prompt, "a red fox");
}

#[test]
fn freeform_edit_sends_the_instruction_under_its_preset() {
    let mut state = AiUiState::default();
    state.set_edit_preset(11);
    let prompts = ai_prompts(Feature::ImageEdit, &state, " brighten the sky ", "", "").unwrap();
    assert_eq!(prompts[0].tier_id, "freeform");
    assert_eq!(prompts[0].prompt, "brighten the sky");
    assert!(ai_prompts(Feature::ImageEdit, &state, "  ", "", "").is_err());
}

#[test]
fn poster_uses_the_first_selected_style() {
    let state = AiUiState::default();
    let prompts = ai_prompts(Feature::Poster, &state, "", "", "").unwrap();
    assert_eq!(prompts[0].tier_id, "tech-launch");
    assert!(prompts[0].prompt.contains("Visual style: tech-launch."));
}

#[test]
fn industry_tools_send_one_prompt_per_selected_tier_in_order() {
    let mut state = AiUiState::default();
    state.toggle_tier(Feature::ProductRecolor, 3);
    state.toggle_tier(Feature::ProductRecolor, 1);
    let prompts = ai_prompts(Feature::ProductRecolor, &state, "keep the logo", "", "#ff0000").unwrap();
    let tiers: Vec<&str> = prompts.iter().map(|task| task.tier_id.as_str()).collect();
    assert_eq!(tiers, vec!["burgundy", "navy", "custom"]);
    assert!(prompts[2].prompt.contains("Requested custom color: #ff0000. keep the logo"));
    assert!(!prompts[0].prompt.contains("Requested custom color"));
}

#[test]
fn promotional_posters_carry_the_trimmed_title() {
    let state = AiUiState::default();
    let prompts = ai_prompts(Feature::PromotionalPoster, &state, "spring sale", "  Big Deals ", "").unwrap();
    assert_eq!(prompts.len(), 1);
    assert!(prompts[0].prompt.contains("Main title: Big Deals. spring sale"));
}

#[test]
fn composed_tiers_make_a_single_prompt() {
    let state = AiUiState::default();
    let prompts = ai_prompts(Feature::IdPhoto, &state, "", "", "").unwrap();
    assert_eq!(prompts.len(), 1);
    assert_eq!(prompts[0].tier_id, "one-inch-blue-suit");
    assert!(ai_prompts(Feature::CoverFactory, &state, "", "", "").is_err());
}

#[test]
fn generation_start_refuses_and_explains() {
    let task = || Ok(vec![AiPromptTask { tier_id: "prompt".into(), prompt: "p".into() }]);

    let mut state = AiUiState::default();
    assert!(start_ai_generation(&mut state, Feature::Edit, task(), 0, Some(caps(false)), false).is_none());
    assert_eq!(state.status, AiStatus::Failed(AiErrorKind::Unsupported));

    let mut state = AiUiState::default();
    assert!(start_ai_generation(&mut state, Feature::TextToImage, Ok(vec![]), 0, Some(caps(false)), false).is_none());
    assert_eq!(state.status, AiStatus::Failed(AiErrorKind::InvalidRequest));

    let mut state = AiUiState::default();
    assert!(start_ai_generation(&mut state, Feature::AvatarStudio, task(), 0, Some(caps(false)), false).is_none());
    assert_eq!(state.status, AiStatus::Failed(AiErrorKind::InvalidRequest));

    let mut state = AiUiState::default();
    assert!(start_ai_generation(&mut state, Feature::TextToImage, task(), 0, None, false).is_none());
    assert_eq!(state.status, AiStatus::Failed(AiErrorKind::Provider));

    let mut state = AiUiState::default();
    assert!(start_ai_generation(&mut state, Feature::AvatarStudio, task(), 3, Some(caps(false)), false).is_none());
    assert_eq!(state.status, AiStatus::Failed(AiErrorKind::Unsupported));

    let mut state = AiUiState::default();
    assert!(start_ai_generation(&mut state, Feature::ImageEdit, task(), 1, Some(caps(false)), true).is_none());
    assert_eq!(state.status, AiStatus::Failed(AiErrorKind::Unsupported));

    let mut state = AiUiState::default();
    assert!(start_ai_generation(&mut state, Feature::ImageEdit, task(), 1, Some(caps(true)), false).is_none());
    assert_eq!(state.status, AiStatus::Failed(AiErrorKind::RegionNotSelected));
}

#[test]
fn started_generation_plans_the_request_and_blocks_a_second_one() {
    let mut state = AiUiState::default();
    state.count = 3;
    let two = Ok(vec![
        AiPromptTask { tier_id: "a".into(), prompt: "p".into() },
        AiPromptTask { tier_id: "b".into(), prompt: "q".into() },
    ]);
    let plan = start_ai_generation(&mut state, Feature::Poster, two, 0, Some(caps(false)), false).unwrap();
    assert_eq!(plan.aspect_ratio, AspectRatio::PortraitNineSixteen);
    assert_eq!(plan.count, 1);
    assert_eq!(plan.prompts.len(), 2);
    assert!(!plan.region_edit);
    assert_eq!(state.status, AiStatus::Generating);

    let again = Ok(vec![AiPromptTask { tier_id: "a".into(), prompt: "p".into() }]);
    assert!(start_ai_generation(&mut state, Feature::Poster, again, 0, Some(caps(false)), false).is_none());
    assert_eq!(state.status, AiStatus::Generating);

    let mut state = AiUiState::default();
    let region = start_ai_generation(
        &mut state,
        Feature::ImageEdit,
        Ok(vec![AiPromptTask { tier_id: "removal".into(), prompt: "p".into() }]),
        1,
        Some(caps(true)),
        true,
    )
    .unwrap();
    assert!(region.region_edit);
    assert_eq!(region.aspect_ratio, AspectRatio::Square);
}

#[test]
fn provider_images_are_decoded_and_fitted_to_business_sizes() {
    let transport = CountingTransport::answering_with(&filled(20, 10, [1, 2, 3, 255]));
    let registry = ProviderRegistry::standard(transport.clone());
    let store = store_with_key(ProviderId::Seedream);
    let plan = plan(Feature::AvatarStudio, ProviderId::Seedream, vec![("clay-3d", "make it clay")]);

    let outcome = run_ai_task(&registry, &store, &plan, &vec![filled(4, 4, [9, 9, 9, 255])], None);
    let AiTaskOutcome::Finished(items) = outcome else { panic!("generation should finish") };
    assert_eq!(items.len(), 1);
    assert_eq!((items[0].width, items[0].height), (1024, 1024));
    assert_eq!(items[0].tier_id, "clay-3d");
    assert_eq!(items[0].generated.mime_type, "image/png");
    assert_eq!(transport.calls(), 1);
}

#[test]
fn platform_adaptation_of_a_close_source_is_made_locally() {
    let transport = CountingTransport::answering_with(&filled(2, 2, [0, 0, 0, 255]));
    let registry = ProviderRegistry::standard(transport.clone());
    let store = MemoryCredentialStore::new();
    let plan = plan(Feature::PlatformAdaptation, ProviderId::Seedream, vec![("taobao-main-800x800", "p")]);

    let outcome = run_ai_task(&registry, &store, &plan, &vec![filled(820, 800, [5, 6, 7, 255])], None);
    let AiTaskOutcome::Finished(items) = outcome else { panic!("local adaptation should finish") };
    assert_eq!((items[0].width, items[0].height), (800, 800));
    assert_eq!(transport.calls(), 0);
}

#[test]
fn missing_key_and_missing_mask_source_fail_before_any_request() {
    let transport = CountingTransport::answering_with(&filled(2, 2, [0, 0, 0, 255]));
    let registry = ProviderRegistry::standard(transport.clone());
    let plan = plan(Feature::TextToImage, ProviderId::OpenAi, vec![("prompt", "p")]);

    let outcome = run_ai_task(&registry, &MemoryCredentialStore::new(), &plan, &vec![], None);
    assert!(matches!(outcome, AiTaskOutcome::Failed(AiErrorKind::KeyRequired)));

    let mask = Some(MaskRect { left: 0, top: 0, right: 1, bottom: 1 });
    let outcome = run_ai_task(&registry, &store_with_key(ProviderId::OpenAi), &plan, &vec![], mask);
    assert!(matches!(outcome, AiTaskOutcome::Failed(AiErrorKind::InvalidRequest)));
    assert_eq!(transport.calls(), 0);
}

#[test]
fn finished_generations_are_recorded_but_shown_only_on_their_page() {
    let item = || {
        let image = filled(2, 2, [1, 1, 1, 255]);
        impressy::ai_task::RenderedAiImage {
            generated: GeneratedImage { bytes: png_of(&image), mime_type: "image/png".into() },
            image,
            width: 2,
            height: 2,
            tier_id: "prompt".into(),
        }
    };
    let mut state = AiUiState::default();
    let record = finish_ai_generation(
        &mut state,
        Feature::TextToImage,
        ProviderId::NanoBanana,
        &AiTaskOutcome::Finished(vec![item(), item()]),
        true,
        42,
    )
    .unwrap();
    assert_eq!(record.provider, "nano-banana");
    assert_eq!(record.feature, Feature::TextToImage.id());
    assert_eq!(record.output_count, 2);
    assert_eq!(record.created_at_unix_ms, 42);
    assert_eq!(state.status, AiStatus::Ready(2));
    assert_eq!(state.selected_results.len(), 2);

    let mut away = AiUiState::default();
    assert!(finish_ai_generation(&mut away, Feature::TextToImage, ProviderId::Seedream, &AiTaskOutcome::Finished(vec![item()]), false, 1).is_some());
    assert_eq!(away.status, AiStatus::Idle);

    let mut failed = AiUiState::default();
    assert!(finish_ai_generation(&mut failed, Feature::TextToImage, ProviderId::Seedream, &AiTaskOutcome::Failed(AiErrorKind::Network), true, 1).is_none());
    assert_eq!(failed.status, AiStatus::Failed(AiErrorKind::Network));
}

#[test]
fn saved_results_are_named_by_time_order_and_type() {
    assert_eq!(result_extension("image/jpeg"), "jpg");
    assert_eq!(result_extension("image/webp"), "webp");
    assert_eq!(result_extension("image/gif"), "png");
    let image = GeneratedImage { bytes: vec![1], mime_type: "image/webp".into() };
    assert_eq!(result_filename(1_700_000_000_000, 0, &image), "impressy-ai-1700000000000-01.webp");
}
