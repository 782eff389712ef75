use impressy::document::{CurrentDocument, EditKind, InputSet, DEFAULT_HISTORY_BUDGET_BYTES};
use impressy::raster::Raster;

fn filled(width: u32, height: u32, value: u8) -> Raster {
    let mut pixels = Vec::new();
    for _ in 0..width * height {
        pixels.extend_from_slice(&[value, value, value, 255]);
    }
    Raster { width, height, pixels }
}

fn image(value: u8) -> Raster {
    filled(2, 2, value)
}

fn first_channel(raster: &Raster) -> u8 {
    raster.pixels[0]
}

#[test]
fn preview_is_version_bound_and_one_apply_adds_one_history_entry() {
    let mut document = CurrentDocument::new(image(1), 1);
    let base = document.snapshot();

    assert!(document.set_transient(base.version, image(2), EditKind::Beautify));
    assert_eq!(first_channel(&document.snapshot().image), 1);
    assert_eq!(first_channel(document.displayed_image()), 2);
    assert_eq!(document.undo_steps(), 0);

    assert!(document.apply_transient());
    assert_eq!(first_channel(&document.snapshot().image), 2);
    assert_eq!(document.undo_steps(), 1);
    assert!(!document.set_transient(base.version, image(3), EditKind::Resize));
}

#[test]
fn separate_documents_never_share_a_version_identity() {
    let first = CurrentDocument::new(image(1), 1);
    let second = CurrentDocument::new(image(1), 2);

    assert_ne!(first.snapshot().version, second.snapshot().version);
}

#[test]
fn crop_preview_keeps_the_overlay_canvas_and_commits_exact_preview_pixels() {
    let mut document = CurrentDocument::new(image(1), 1);
    let base = document.snapshot();
    let cropped = filled(1, 2, 7);

    assert!(document.set_transient(base.version, cropped.clone(), EditKind::Crop));
    let shown = document.displayed_image();
    assert_eq!((shown.width, shown.height), (2, 2));
    assert!(document.apply_transient());
    assert_eq!(document.snapshot().image, cropped);
    assert_eq!(document.undo_steps(), 1);
}

#[test]
fn tool_specific_apply_never_commits_another_tools_preview() {
    let mut document = CurrentDocument::new(image(1), 1);
    let version = document.snapshot().version;
    assert!(document.set_transient(version, image(2), EditKind::Crop));

    assert!(!document.apply_transient_kind(EditKind::Resize));
    assert_eq!(first_channel(&document.snapshot().image), 1);
    assert!(document.apply_transient());
    assert_eq!(first_channel(&document.snapshot().image), 2);
}

#[test]
fn undo_and_redo_restore_exact_pixels_and_dirty_state() {
    let mut document = CurrentDocument::new(image(1), 1);
    let version = document.snapshot().version;
    assert!(document.commit(version, image(2), EditKind::Rotate));
    assert!(document.is_dirty());
    assert!(document.undo());
    assert_eq!(first_channel(&document.snapshot().image), 1);
    assert!(!document.is_dirty());
    assert!(document.redo());
    assert_eq!(first_channel(&document.snapshot().image), 2);
    assert!(document.is_dirty());
    assert!(document.mark_exported(document.snapshot().version));
    assert!(!document.is_dirty());
    assert!(document.undo());
    assert!(!document.is_dirty());
    assert!(document.redo());
    assert!(!document.is_dirty());
}

#[test]
fn history_budget_evicts_oldest_checkpoints() {
    let bytes_per_image = image(1).pixels.len();
    let mut document = CurrentDocument::with_history_budget(image(0), bytes_per_image * 2, 1);
    for value in 1..=4 {
        let version = document.snapshot().version;
        assert!(document.commit(version, image(value), EditKind::Rotate));
    }
    assert_eq!(document.undo_steps(), 2);
    assert!(document.undo());
    assert!(document.undo());
    assert!(!document.undo());
    assert_eq!(first_channel(&document.snapshot().image), 2);
}

#[test]
fn undo_drops_an_oversized_redo_checkpoint_to_keep_the_history_budget() {
    let mut document = CurrentDocument::with_history_budget(image(0), 64, 1);
    let large = filled(16, 16, 1);
    let version = document.snapshot().version;
    assert!(document.commit(version, large, EditKind::Resize));

    assert!(document.undo());
    assert!(!document.can_redo());
    assert_eq!(document.history_bytes(), 0);
}

#[test]
fn input_set_has_independent_versioned_order() {
    let mut document = CurrentDocument::new(image(9), 1);
    let document_version = document.snapshot().version;
    let mut inputs = InputSet::new();
    inputs.replace(vec![image(1), image(2)], vec!["a".into(), "b".into()]);
    let first_version = inputs.version();
    assert!(inputs.move_item(0, 1));
    assert_ne!(inputs.version(), first_version);
    assert_eq!(inputs.names(), &vec!["b".to_string(), "a".to_string()]);
    assert_eq!(document.snapshot().version, document_version);
    assert!(document.commit(document_version, image(10), EditKind::Rotate));
    assert_eq!(first_channel(&inputs.images()[0]), 2);

    let moved_version = inputs.version();
    inputs.append(vec![image(3)], vec!["c".into()]);
    assert_ne!(inputs.version(), moved_version);
    assert_eq!(inputs.names(), &vec!["b".to_string(), "a".to_string(), "c".to_string()]);
}

#[test]
fn arbitrary_edit_sequences_round_trip_pixels_and_export_state() {
    let sequences: Vec<Vec<u8>> = vec![vec![7], vec![1, 2, 3], (0..23).map(|v| v * 11).collect()];
    for values in sequences {
        for export_final in [false, true] {
            let mut document = CurrentDocument::with_history_budget(image(0), DEFAULT_HISTORY_BUDGET_BYTES, 1);
            for value in &values {
                let version = document.snapshot().version;
                assert!(document.commit(version, image(*value), EditKind::Rotate));
            }
            if export_final {
                assert!(document.mark_exported(document.snapshot().version));
            }
            let final_value = *values.last().unwrap();

            while document.undo() {}
            assert_eq!(first_channel(&document.snapshot().image), 0);
            assert!(!document.is_dirty());

            while document.redo() {}
            assert_eq!(first_channel(&document.snapshot().image), final_value);
            assert_eq!(document.is_dirty(), !export_final);
        }
    }
}
