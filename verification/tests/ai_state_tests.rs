use impressy::ai::types::{AspectRatio, ProviderCapabilities, ProviderId};
use impressy::ai_state::{
    compose_article_tier, compose_cover_tier, compose_id_photo_tier, compose_try_on_tier, tier_list,
    AiUiState, TierList,
};
use impressy::section::Feature;

#[test]
fn composed_industry_tiers_join_independent_axes() {
    assert_eq!(compose_id_photo_tier(0, 0, 0), "one-inch-blue-suit");
    assert_eq!(compose_id_photo_tier(2, 2, 1), "visa-white-female-suit");
    assert_eq!(compose_try_on_tier(0, 1), "asian-female-studio");
    assert_eq!(compose_cover_tier(0, 1), "wechat-editorial");
    assert_eq!(compose_article_tier(0, 1), "ppt-flat");
}

#[test]
fn out_of_range_axis_falls_back_to_the_first_choice() {
    assert_eq!(compose_try_on_tier(99, 0), compose_try_on_tier(0, 0));
    assert_eq!(compose_cover_tier(0, 99), compose_cover_tier(0, 0));
}

#[test]
fn multi_tier_tools_enforce_selection_limit() {
    let mut state = AiUiState::default();
    for index in 0..tier_list(TierList::Avatar).len() {
        state.toggle_tier(Feature::AvatarStudio, index);
    }
    assert_eq!(state.selected_tiers.len(), 6);
    assert!(state.selected_tiers.contains(&0));
}

#[test]
fn provider_cycle_and_capabilities_clamp_parameters() {
    let mut state = AiUiState::new(ProviderId::Seedream);
    state.count = 9;
    state.aspect_ratio = AspectRatio::UltrawideTwentyOneNine;
    state.cycle_provider();
    assert_eq!(state.provider, ProviderId::NanoBanana);
    state.apply_capabilities(ProviderCapabilities {
        max_reference_images: 1,
        supported_aspect_ratios: &[AspectRatio::Square],
        max_generation_count: 1,
        text_to_image: true,
        image_to_image: true,
        region_edit: false,
        max_input_image_bytes: 1024,
    });
    assert_eq!(state.count, 1);
    assert_eq!(state.aspect_ratio, AspectRatio::Square);
}
