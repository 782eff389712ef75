use impressy::error::CoreError;
use impressy::format::OutputFormat;
use impressy::path_load::{LoadItem, PathLoader};
use impressy::raster::Raster;
use impressy::ui_message::{ErrorKind, UiMessage};
use impressy::workspace::decode_input;
use impressy::workspace_state::{InfoMessage, WorkspaceOutcome};

fn filled(width: u32, height: u32) -> Raster {
    Raster { width, height, pixels: vec![9; (width * height * 4) as usize] }
}

fn decoded(width: u32, name: &str) -> LoadItem {
    LoadItem::Decoded {
        image: filled(width, 2),
        file_name: format!("{name}.png"),
        stem: name.to_string(),
        bytes: vec![width as u8],
    }
}

#[test]
fn a_single_document_stops_at_its_first_image() {
    let mut loader = PathLoader::new(true);
    assert!(loader.accept(LoadItem::Failed { kind: ErrorKind::Io, detail: "missing".into() }));
    assert!(!loader.accept(decoded(3, "first")));
    let outcome: WorkspaceOutcome<(), ()> = loader.finish(false);
    let WorkspaceOutcome::Loaded { images, source_names, source_bytes, info, status, single, .. } = outcome else {
        panic!("an image was opened");
    };
    assert_eq!(images.len(), 1);
    assert_eq!(source_names, vec!["first.png".to_string()]);
    assert_eq!(source_bytes, Some(vec![3]));
    assert!(matches!(info, InfoMessage::Image { ref name, width: 3, height: 2 } if name == "first.png"));
    assert_eq!(status, UiMessage::LoadedImage);
    assert!(single);
}

#[test]
fn input_images_count_openings_and_failures() {
    let mut loader = PathLoader::new(false);
    assert!(loader.accept(decoded(1, "a")));
    assert!(loader.accept(LoadItem::Failed { kind: ErrorKind::CorruptedImage, detail: "bad".into() }));
    assert!(loader.accept(decoded(2, "b")));
    let outcome: WorkspaceOutcome<(), ()> = loader.finish(true);
    let WorkspaceOutcome::Loaded { source_names, source_bytes, info, status, append, .. } = outcome else {
        panic!("images were opened");
    };
    assert_eq!(source_names, vec!["a".to_string(), "b".to_string()]);
    assert!(source_bytes.is_none());
    assert!(matches!(info, InfoMessage::Empty));
    assert_eq!(status, UiMessage::LoadedMultiple { successes: 2, failures: 1 });
    assert!(append);
}

#[test]
fn nothing_opened_reports_the_last_failure() {
    let mut loader = PathLoader::new(false);
    loader.accept(LoadItem::Failed { kind: ErrorKind::Io, detail: "first".into() });
    loader.accept(LoadItem::Failed { kind: ErrorKind::Permission, detail: "second".into() });
    let outcome: WorkspaceOutcome<(), ()> = loader.finish(false);
    assert!(matches!(outcome, WorkspaceOutcome::Failed { kind: ErrorKind::Permission, ref detail } if detail == "second"));

    let empty: WorkspaceOutcome<(), ()> = PathLoader::new(true).finish(false);
    assert!(matches!(empty, WorkspaceOutcome::Failed { kind: ErrorKind::CorruptedImage, .. }));
}

#[test]
fn opened_bytes_are_told_apart_as_unsupported_or_corrupted() {
    assert!(matches!(decode_input(b"plain text"), Err((ErrorKind::UnsupportedFormat, _))));
    let broken_png = [0x89, b'P', b'N', b'G', 0x0D, 0x0A, 0x1A, 0x0A, 0, 0];
    assert!(matches!(decode_input(&broken_png), Err((ErrorKind::CorruptedImage, _))));
}

#[test]
fn library_errors_read_as_one_line() {
    assert_eq!(CoreError::InvalidArgument("rows".into()).message(), "invalid argument: rows");
    assert_eq!(
        CoreError::ImageTooLarge { width: 10, height: 20, max_pixels: 100 }.message(),
        "image of 10×20 exceeds 100 pixels"
    );
    assert_eq!(
        CoreError::ImageEncode { format: OutputFormat::Jpeg, detail: "x".into() }.message(),
        "JPEG encoding failed: x"
    );
}
