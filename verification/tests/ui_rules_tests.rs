use impressy::config::AppConfig;
use impressy::format::{EncodeSettings, PngCompression};
use impressy::section::Feature;
use impressy::ui_rules::{
    default_export_settings, exact_output_dimensions, format_file_size, initial_paths_feature,
};

#[test]
fn file_size_format_uses_readable_binary_units() {
    assert_eq!(format_file_size(512), "512 B");
    assert_eq!(format_file_size(1536), "1.5 KiB");
    assert_eq!(format_file_size(2 * 1024 * 1024), "2.00 MiB");
}

#[test]
fn file_size_format_switches_units_at_exact_powers() {
    assert_eq!(format_file_size(0), "0 B");
    assert_eq!(format_file_size(1023), "1023 B");
    assert_eq!(format_file_size(1024), "1.0 KiB");
    assert_eq!(format_file_size(1024 * 1024), "1.00 MiB");
}

#[test]
fn default_png_export_uses_persisted_compression() {
    let config = AppConfig {
        default_png_compression: PngCompression::Best,
        ..AppConfig::default()
    };
    assert_eq!(
        default_export_settings(&config),
        EncodeSettings::Png {
            compression: PngCompression::Best,
        }
    );
}

#[test]
fn multiple_initial_paths_open_the_batch_workspace() {
    assert_eq!(initial_paths_feature(1), Feature::Edit);
    assert_eq!(initial_paths_feature(2), Feature::Batch);
    assert_eq!(initial_paths_feature(100), Feature::Batch);
}

#[test]
fn ai_output_postprocessing_uses_exact_business_dimensions() {
    assert_eq!(
        exact_output_dimensions(Feature::IdPhoto, "one-inch-blue-suit"),
        Some((295, 413))
    );
    assert_eq!(
        exact_output_dimensions(Feature::PromotionalPoster, "new-arrival"),
        Some((1200, 1600))
    );
    assert_eq!(
        exact_output_dimensions(Feature::PlatformAdaptation, "wechat-cover-900x383"),
        Some((900, 383))
    );
}

#[test]
fn navigation_lists_every_feature_once() {
    let groups = impressy::ui_rules::navigation_groups();
    assert_eq!(groups[0].label_key, "nav.basic_image");
    assert_eq!(groups[4].label_key, "nav.video_tools");
    let mut seen: Vec<impressy::section::Feature> = Vec::new();
    for group in groups.iter() {
        for feature in group.features {
            assert!(!seen.contains(feature));
            seen.push(*feature);
        }
    }
    assert_eq!(seen.len(), 27);
}
