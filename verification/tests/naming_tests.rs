use impressy::naming::{batch_filename, sanitize_stem};
use impressy::format::OutputFormat;

#[test]
fn filename_sanitization_keeps_outputs_inside_the_selected_directory() {
    assert_eq!(sanitize_stem("hero:cover?.png"), "hero_cover_.png");
    assert_eq!(sanitize_stem("..."), "image");
    assert_eq!(sanitize_stem("封面"), "封面");
}

#[test]
fn batch_names_are_numbered_and_carry_the_format_extension() {
    let name = batch_filename("holiday", 0, OutputFormat::Png);
    assert!(name.ends_with(".png"));
    assert!(name.starts_with("holiday"));
    assert_ne!(batch_filename("holiday", 1, OutputFormat::Png), name);
}

#[test]
fn ai_filenames_are_timestamped_sequential_and_extension_safe() {
    let first = impressy::naming::ai_filename(1_700_000_000_000, 1, ".PNG");
    let second = impressy::naming::ai_filename(1_700_000_000_000, 2, "../webp");
    assert_eq!(first, "impressy-ai-1700000000000-01.png");
    assert_eq!(second, "impressy-ai-1700000000000-02.webp");
}

#[test]
fn batch_filenames_are_sequential_and_unique() {
    let stems = ["", "a/b", "..", "same", "same", "封面", "x\\y", "hero:cover"];
    for format in [OutputFormat::Png, OutputFormat::Jpeg, OutputFormat::Webp] {
        let names: Vec<String> = stems.iter().enumerate().map(|(index, stem)| batch_filename(stem, index, format)).collect();
        let unique: std::collections::HashSet<&String> = names.iter().collect();
        assert_eq!(unique.len(), names.len());
        for (index, name) in names.iter().enumerate() {
            let sequence = format!("-impressy-{}.", index + 1);
            assert!(name.contains(&sequence));
            assert!(name.ends_with(format.extension()));
            assert!(!name.contains('/') && !name.contains('\\'));
        }
    }
}

#[test]
fn sanitizing_twice_changes_nothing() {
    let once = sanitize_stem(" .hero:cover?. ");
    assert_eq!(once, "hero_cover_");
    assert_eq!(sanitize_stem(&once), once);
    assert_eq!(sanitize_stem(&sanitize_stem("...")), "image");
}
