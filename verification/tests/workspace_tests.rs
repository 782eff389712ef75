use impressy::error::CoreError;
use impressy::format::OutputFormat;
use impressy::ui_message::ErrorKind;
use impressy::workspace::{batch_item_name, core_error_kind, is_supported_image_path, ClipboardFormat};

#[test]
fn supported_image_path_filter_is_case_insensitive() {
    assert!(is_supported_image_path("sample.PNG"));
    assert!(is_supported_image_path("sample.WebP"));
    assert!(!is_supported_image_path("notes.txt"));
    assert!(!is_supported_image_path("no-extension"));
}

#[test]
fn hidden_files_and_trailing_dots_have_no_image_extension() {
    assert!(!is_supported_image_path(".png"));
    assert!(!is_supported_image_path("photo."));
    assert!(is_supported_image_path("archive.tar.JPEG"));
}

#[test]
fn clipboard_format_follows_the_encoded_extension() {
    assert_eq!(ClipboardFormat::from_extension("jpg"), ClipboardFormat::Jpeg);
    assert_eq!(ClipboardFormat::from_extension("jpeg"), ClipboardFormat::Jpeg);
    assert_eq!(ClipboardFormat::from_extension("gif"), ClipboardFormat::Gif);
    assert_eq!(ClipboardFormat::from_extension("webp"), ClipboardFormat::Webp);
    assert_eq!(ClipboardFormat::from_extension("bmp"), ClipboardFormat::Bmp);
    assert_eq!(ClipboardFormat::from_extension("tiff"), ClipboardFormat::Png);
}

#[test]
fn batch_items_without_a_name_are_numbered_from_one() {
    let names = vec!["first".to_string(), String::new()];
    assert_eq!(batch_item_name(&names, 0), "first");
    assert_eq!(batch_item_name(&names, 1), "#2");
    assert_eq!(batch_item_name(&names, 9), "#10");
}

#[test]
fn encoder_errors_are_reported_as_encoding_failures() {
    let encode = CoreError::ImageEncode { format: OutputFormat::Png, detail: "x".to_string() };
    assert_eq!(core_error_kind(&encode), ErrorKind::Encode);
    let other = CoreError::InvalidArgument("bad".to_string());
    assert_eq!(core_error_kind(&other), ErrorKind::Operation);
}
