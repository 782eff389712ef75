use impressy::document::EditKind;
use impressy::export_plan::CollisionPolicy;
use impressy::format::{EncodeSettings, PngCompression, Quality};
use impressy::slice::SliceGrid;
use impressy::raster::Raster;
use impressy::ui_message::{ErrorKind, UiMessage};
use impressy::workspace_state::{
    DocumentUpdate, EncodedResultKind, ExportSource, ImageSource, OutputDirectoryCommand, PathLoad,
    WorkspaceCommand, WorkspaceCommandRoute, InfoMessage, JobInputs, OutcomeGuard,
    Workspace, WorkspaceOperation, WorkspaceOutcome,
};

type Ws = Workspace<(), ()>;

fn filled(width: u32, height: u32, rgba: [u8; 4]) -> Raster {
    let mut pixels = Vec::new();
    for _ in 0..width * height {
        pixels.extend_from_slice(&rgba);
    }
    Raster { width, height, pixels }
}

fn loaded(images: Vec<Raster>, names: Vec<String>, single: bool) -> WorkspaceOutcome<(), ()> {
    WorkspaceOutcome::Loaded {
        images,
        source_names: names,
        source_bytes: None,
        info: InfoMessage::Empty,
        status: UiMessage::LoadedImage,
        single,
        append: false,
    }
}

fn workspace_with_images(count: usize) -> Ws {
    let mut workspace = Ws::new();
    let images: Vec<Raster> = (0..count).map(|_| filled(2, 2, [255, 0, 0, 255])).collect();
    let names: Vec<String> = (0..count).map(|index| format!("image-{index}")).collect();
    workspace.apply(OutcomeGuard::Always, loaded(images, names, false));
    if count > 0 {
        workspace.apply(
            OutcomeGuard::Always,
            loaded(vec![filled(2, 2, [255, 0, 0, 255])], vec!["image-0".to_string()], true),
        );
    }
    workspace
}

fn gif_result() -> WorkspaceOutcome<(), ()> {
    WorkspaceOutcome::Bytes {
        bytes: vec![1, 2, 3],
        extension: "gif",
        kind: EncodedResultKind::Gif,
        preview: None,
        status: UiMessage::GifReady,
    }
}

#[test]
fn async_picker_with_no_supported_images_keeps_workspace_reusable() {
    let mut workspace = Ws::new();
    assert!(workspace.prepare_paths(&vec!["notes.txt".to_string()], true).is_none());
    assert_eq!(workspace.status(), UiMessage::NeedImage);
    assert!(!workspace.is_busy());
    assert!(workspace.prepare_paths(&vec!["photo.png".to_string()], false).is_some());
}

#[test]
fn async_picker_paths_keep_all_supported_collage_inputs() {
    let mut workspace = Ws::new();
    let names = vec!["first.PNG".to_string(), "notes.txt".to_string(), "second.webp".to_string()];
    let load = workspace.prepare_paths(&names, true).expect("supported paths should create a load job");
    assert!(!load.single);
    assert!(!load.append);
    assert_eq!(load.indices, vec![0, 2]);
    assert!(workspace.is_busy());
}

#[test]
fn appended_paths_keep_every_supported_input() {
    let mut workspace = Ws::new();
    let names = vec!["a.gif".to_string(), "b".to_string(), "c.bmp".to_string()];
    let load = workspace.prepare_append_paths(&names).unwrap();
    assert_eq!(load, PathLoad { indices: vec![0, 2], single: false, append: true });
}

#[test]
fn cancelled_and_failed_prompts_leave_workspace_ready_for_the_next_command() {
    for status in [UiMessage::CancelledOpen, UiMessage::Error(ErrorKind::Io)] {
        let mut workspace = Ws::new();
        workspace.set_status(status);
        assert!(!workspace.is_busy());
        assert!(workspace.prepare_paths(&vec!["photo.png".to_string()], false).is_some());
    }
}

#[test]
fn concrete_save_path_prepares_save_job_without_opening_a_dialog() {
    let mut workspace = workspace_with_images(1);
    let job = workspace.prepare_save_path(None).expect("a selected path should prepare the save job");
    assert!(matches!(job.source, ExportSource::Image(_)));
    assert_eq!(job.collision_policy, CollisionPolicy::PreserveBoth);
    assert!(workspace.is_busy());
}

#[test]
fn dirty_document_export_ignores_an_unrelated_encoded_feature_result() {
    let mut workspace = workspace_with_images(1);
    workspace.apply(OutcomeGuard::Always, gif_result());
    let job = workspace
        .prepare_document_export_path(CollisionPolicy::PreserveBoth)
        .expect("the guarded export should target the dirty document");
    assert!(matches!(job.source, ExportSource::Image(_)));
}

#[test]
fn encoded_feature_result_is_exportable_without_a_current_document() {
    let mut workspace = Ws::new();
    workspace.apply(OutcomeGuard::Always, gif_result());
    assert!(workspace.has_encoded_result(EncodedResultKind::Gif));
    let job = workspace
        .prepare_save_path(Some(EncodedResultKind::Gif))
        .expect("an encoded feature result should remain exportable");
    assert!(matches!(job.source, ExportSource::Bytes { extension: "gif", .. }));
}

#[test]
fn encoded_results_are_scoped_to_the_feature_that_created_them() {
    let mut workspace = workspace_with_images(1);
    workspace.apply(OutcomeGuard::Always, gif_result());
    assert!(!workspace.has_encoded_result(EncodedResultKind::Exif));
    let job = workspace
        .prepare_save_path(Some(EncodedResultKind::Exif))
        .expect("a result from another feature must fall back to the document");
    assert!(matches!(job.source, ExportSource::Image(_)));
}

#[test]
fn export_extension_matches_the_actual_selected_encoder() {
    let mut workspace = workspace_with_images(1);
    workspace.apply(OutcomeGuard::Always, gif_result());
    let jpeg = EncodeSettings::Jpeg { quality: Quality::new(85).unwrap() };
    let png = EncodeSettings::Png { compression: PngCompression::Default };
    assert_eq!(workspace.export_extension(jpeg, None), "jpg");
    assert_eq!(workspace.export_extension(png, Some(EncodedResultKind::Gif)), "gif");
}

#[test]
fn generated_output_defers_replacement_of_a_dirty_document() {
    let mut workspace = workspace_with_images(1);
    let version = workspace.document_version().unwrap();
    workspace.apply(
        OutcomeGuard::Always,
        WorkspaceOutcome::Image {
            image: filled(2, 2, [2, 0, 0, 255]),
            status: UiMessage::SavedReady,
            update: Some(DocumentUpdate {
                base_version: version,
                kind: EditKind::Rotate,
                preview: false,
                preview_generation: None,
            }),
        },
    );
    assert!(workspace.is_dirty());
    let effects = workspace.apply(
        OutcomeGuard::Always,
        WorkspaceOutcome::Image {
            image: filled(2, 2, [3, 0, 0, 255]),
            status: UiMessage::QrGenerated,
            update: None,
        },
    );
    assert_eq!(workspace.ai_reference_snapshot().unwrap().image.pixels[0], 2);
    let (image, status) = effects.replacement_document.expect("deferred replacement");
    assert_eq!(image.pixels[0], 3);
    assert_eq!(status, UiMessage::QrGenerated);
}

#[test]
fn late_preview_cannot_replace_a_newer_task_status() {
    let mut workspace = workspace_with_images(1);
    let Some(JobInputs::Preview { document, generation }) =
        workspace.prepare(WorkspaceOperation::PreviewTransform)
    else {
        panic!("preview job");
    };
    assert!(workspace.prepare(WorkspaceOperation::Transform).is_some());
    workspace.set_status(UiMessage::BatchProgress { completed: 1, total: 2 });
    workspace.apply(
        OutcomeGuard::Always,
        WorkspaceOutcome::Image {
            image: filled(1, 1, [0, 0, 0, 255]),
            status: UiMessage::SavedReady,
            update: Some(DocumentUpdate {
                base_version: document.version,
                kind: EditKind::Resize,
                preview: true,
                preview_generation: Some(generation),
            }),
        },
    );
    assert_eq!(workspace.status(), UiMessage::BatchProgress { completed: 1, total: 2 });
    assert!(!workspace.has_transient_preview());
}

#[test]
fn requesting_a_new_preview_removes_the_previous_transient() {
    let mut workspace = workspace_with_images(1);
    let Some(JobInputs::Preview { document, generation }) =
        workspace.prepare(WorkspaceOperation::PreviewTransform)
    else {
        panic!("preview job");
    };
    workspace.apply(
        OutcomeGuard::Always,
        WorkspaceOutcome::Image {
            image: filled(1, 1, [4, 0, 0, 255]),
            status: UiMessage::SavedReady,
            update: Some(DocumentUpdate {
                base_version: document.version,
                kind: EditKind::Resize,
                preview: true,
                preview_generation: Some(generation),
            }),
        },
    );
    assert!(workspace.has_transient_preview());
    assert!(workspace.prepare(WorkspaceOperation::PreviewTransform).is_some());
    assert!(!workspace.has_transient_preview());
}

#[test]
fn ai_reference_uses_applied_pixels_instead_of_transient_preview_pixels() {
    let mut workspace = workspace_with_images(1);
    let Some(JobInputs::Preview { document, generation }) =
        workspace.prepare(WorkspaceOperation::PreviewTransform)
    else {
        panic!("preview job");
    };
    workspace.apply(
        OutcomeGuard::Always,
        WorkspaceOutcome::Image {
            image: filled(2, 2, [9, 0, 0, 255]),
            status: UiMessage::SavedReady,
            update: Some(DocumentUpdate {
                base_version: document.version,
                kind: EditKind::Beautify,
                preview: true,
                preview_generation: Some(generation),
            }),
        },
    );
    let reference = workspace.ai_reference_snapshot().expect("document reference");
    assert_eq!(reference.version, document.version);
    assert_eq!(reference.image.pixels[0], 255);
}

#[test]
fn busy_workspace_rejects_generated_document_replacement() {
    let mut workspace = workspace_with_images(1);
    let version = workspace.document_version();
    assert!(workspace.prepare(WorkspaceOperation::Transform).is_some());
    assert!(!workspace.use_ai_result(filled(2, 2, [9, 0, 0, 255]), "AI".to_string()));
    assert_eq!(workspace.document_version(), version);
    assert_eq!(workspace.status(), UiMessage::Busy);
}

#[test]
fn strip_exif_uses_the_latest_applied_document_pixels() {
    let mut workspace = workspace_with_images(1);
    let version = workspace.document_version().unwrap();
    workspace.apply(
        OutcomeGuard::Always,
        WorkspaceOutcome::Image {
            image: filled(2, 2, [7, 8, 9, 255]),
            status: UiMessage::SavedReady,
            update: Some(DocumentUpdate {
                base_version: version,
                kind: EditKind::Rotate,
                preview: false,
                preview_generation: None,
            }),
        },
    );
    let Some(JobInputs::Document(snapshot)) = workspace.prepare(WorkspaceOperation::StripExif) else {
        panic!("strip EXIF job");
    };
    assert_eq!(&snapshot.image.pixels[0..4], &[7, 8, 9, 255]);
}

#[test]
fn concrete_directory_prepares_slice_job_without_opening_a_dialog() {
    let mut workspace = workspace_with_images(1);
    let grid = SliceGrid::new(2, 3).expect("valid slice grid");
    let job = workspace
        .prepare_slice_directory(grid, CollisionPolicy::PreserveBoth)
        .expect("a selected directory should prepare the slice job");
    assert_eq!(job.grid, grid);
    assert_eq!(job.collision_policy, CollisionPolicy::PreserveBoth);
    assert_eq!((job.document.image.width, job.document.image.height), (2, 2));
    assert!(workspace.is_busy());
}

#[test]
fn concrete_paths_prepare_image_watermark_batch_without_dialogs() {
    let mut workspace = workspace_with_images(2);
    let inputs = workspace
        .prepare_batch_paths(true)
        .expect("selected output and watermark paths should prepare the batch job");
    assert_eq!(inputs.images.len(), 2);
    assert_eq!(inputs.names, vec!["image-0".to_string(), "image-1".to_string()]);
    assert!(workspace.is_busy());

    let mut refused = workspace_with_images(2);
    assert!(refused.prepare_batch_paths(false).is_none());
    assert_eq!(refused.status(), UiMessage::NeedImage);
}

#[test]
fn commands_route_to_pickers_prompts_or_direct_operations() {
    assert_eq!(
        WorkspaceCommand::AppendMultiple.route(),
        WorkspaceCommandRoute::OpenImages { multiple: true, append: true }
    );
    assert_eq!(WorkspaceCommand::SaveResult.route(), WorkspaceCommandRoute::SaveResult);
    assert_eq!(
        WorkspaceCommand::Slice.route(),
        WorkspaceCommandRoute::OutputDirectory(OutputDirectoryCommand::Slice)
    );
    assert_eq!(
        WorkspaceCommand::MakeGif.route(),
        WorkspaceCommandRoute::Direct(WorkspaceOperation::MakeGif)
    );
}

#[test]
fn dimensions_report_inputs_and_the_opened_original() {
    let mut workspace = workspace_with_images(2);
    assert_eq!(workspace.input_dimensions(1), Some((2, 2)));
    assert_eq!(workspace.input_dimensions(2), None);
    assert_eq!(workspace.original_dimensions(), Some((2, 2)));
    assert!(matches!(workspace.image_for_estimate(), Some(ImageSource::Document(_))));
    assert!(Ws::new().original_dimensions().is_none());
    assert!(workspace.prepare_paste());
}

#[test]
fn concrete_path_preparation_respects_busy_state() {
    let mut workspace = workspace_with_images(1);
    assert!(workspace.prepare_paste());
    assert!(workspace.prepare_save_path(None).is_none());
    assert_eq!(workspace.status(), UiMessage::Busy);
}

#[test]
fn removing_and_reordering_images_preserves_names_and_focus() {
    let mut workspace = workspace_with_images(3);
    assert!(workspace.move_image(2, 0));
    assert_eq!(workspace.source_name(0), Some("image-2"));
    assert_eq!(workspace.source_name(1), Some("image-0"));
    assert_eq!(workspace.focus_index(), 0);
    assert!(workspace.remove_image(1));
    assert_eq!(workspace.image_count(), 2);
    assert_eq!(workspace.source_name(0), Some("image-2"));
    assert_eq!(workspace.source_name(1), Some("image-1"));
    assert!(!workspace.is_busy());
}

#[test]
fn error_outcome_keeps_workspace_reusable() {
    let mut workspace = Ws::new();
    assert!(workspace.prepare_paste());
    assert!(workspace.is_busy());
    workspace.apply(
        OutcomeGuard::Always,
        WorkspaceOutcome::Failed { kind: ErrorKind::CorruptedImage, detail: "test decode failure".to_string() },
    );
    assert!(!workspace.is_busy());
    assert_eq!(workspace.status(), UiMessage::Error(ErrorKind::CorruptedImage));
    assert!(workspace.prepare_paste());
}

#[test]
fn stale_input_outcome_does_not_replace_current_status() {
    let mut workspace = workspace_with_images(2);
    let Some(JobInputs::Inputs { version, .. }) = workspace.prepare(WorkspaceOperation::Collage) else {
        panic!("collage job");
    };
    workspace.apply(OutcomeGuard::Always, WorkspaceOutcome::Failed { kind: ErrorKind::Io, detail: String::new() });
    assert!(workspace.remove_image(0));
    workspace.set_status(UiMessage::NeedMultipleImages);
    workspace.apply(
        OutcomeGuard::Inputs(version),
        WorkspaceOutcome::Image { image: filled(1, 1, [1, 1, 1, 255]), status: UiMessage::CollageReady, update: None },
    );
    assert_eq!(workspace.status(), UiMessage::NeedMultipleImages);
    assert!(!workspace.is_busy());
}

#[test]
fn stale_document_outcome_does_not_replace_current_status() {
    let mut workspace = workspace_with_images(1);
    let old_version = workspace.document_version().unwrap();
    assert!(workspace.restore_original());
    workspace.set_status(UiMessage::OriginalRestored);
    workspace.apply(
        OutcomeGuard::Document(old_version),
        WorkspaceOutcome::Info { info: InfoMessage::QrContent("late".to_string()), status: UiMessage::QrDecoded },
    );
    assert_eq!(workspace.status(), UiMessage::OriginalRestored);
}

#[test]
fn undo_and_redo_report_remaining_steps() {
    let mut workspace = workspace_with_images(1);
    assert!(workspace.restore_original());
    assert!(workspace.can_undo());
    assert!(workspace.undo());
    assert_eq!(workspace.status(), UiMessage::UndoApplied { remaining: 0 });
    assert!(workspace.redo());
    assert_eq!(workspace.status(), UiMessage::RedoApplied { remaining: 0 });
}
