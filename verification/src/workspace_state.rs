//! The state of the image workspace behind a feature page, and its decisions.
//!
//! The application runs jobs (reading files, encoding, writing) away from the window and
//! asks this state machine two things: may a job start, and with what inputs (`prepare_*`),
//! and how a finished job's outcome changes what is shown (`apply`). Window-side
//! resources such as rendered previews and thumbnails follow the state through
//! [`Workspace::preview_source`] and [`Workspace::preview_revision`].

use vstd::prelude::*;

use crate::document::{
    next_revision, CurrentDocument, DocumentSnapshot, DocumentState, DocumentVersion, EditKind,
    InputSet, InputSetVersion, InputSetView,
};
use crate::export_plan::CollisionPolicy;
use crate::format::{spec_extension, spec_settings_format, EncodeSettings};
use crate::raster::{Raster, RasterView};
use crate::slice::SliceGrid;
use crate::ui_message::{BatchItemResult, ErrorKind, UiMessage};
use crate::workspace::ClipboardFormat;

verus! {

/// Which feature produced encoded bytes (results are only offered to that feature).
#[derive(Debug, Clone, Copy, PartialEq, Eq, Structural)]
pub enum EncodedResultKind {
    Gif,
    Exif,
}

/// Encoded bytes produced by a feature, with the file extension they belong under.
#[derive(Debug, Clone)]
pub struct EncodedResult {
    pub bytes: Vec<u8>,
    pub extension: &'static str,
    pub kind: EncodedResultKind,
}

/// The informational text shown below the preview. `E` is the application's record of
/// EXIF fields.
#[derive(Debug, Clone)]
pub enum InfoMessage<E> {
    /// Nothing.
    Empty,
    /// An opened image: its name and dimensions.
    Image { name: String, width: u32, height: u32 },
    /// An image pasted from the clipboard.
    ClipboardImage { width: u32, height: u32 },
    /// Decoded QR text.
    QrContent(String),
    /// EXIF fields (none found when `None`).
    Exif(Option<E>),
    /// One line per batch item.
    BatchResults(Vec<BatchItemResult>),
}

/// What the preview area shows.
#[derive(Debug, Clone, Copy, PartialEq, Eq, Structural)]
pub enum PreviewSource {
    /// Nothing.
    Nothing,
    /// The document's displayed image.
    Document,
    /// Input image `index`.
    Input(usize),
    /// An image kept by the workspace (a result's preview).
    Image,
}

/// An operation of a feature page that runs as a job on the workspace's images (its
/// parameters stay with the application).
#[derive(Debug, Clone, Copy, PartialEq, Eq, Structural)]
pub enum WorkspaceOperation {
    Transform,
    PreviewTransform,
    ReadExif,
    StripExif,
    GenerateQr,
    DecodeQr,
    Collage,
    MakeGif,
}

/// What a job of a [`WorkspaceOperation`] works on.
pub enum JobInputs {
    /// A copy of the applied document.
    Document(DocumentSnapshot),
    /// A copy of the applied document for a preview, and the request's generation.
    Preview { document: DocumentSnapshot, generation: u64 },
    /// The bytes the document was opened from.
    SourceBytes(Vec<u8>),
    /// Nothing from the workspace.
    Nothing,
    /// The applied document's image.
    FirstImage(Raster),
    /// The input images and the version they belong to.
    Inputs { images: Vec<Raster>, version: InputSetVersion },
}

/// The status that asks for what a document job lacks.
pub open spec fn missing_document_status(operation: WorkspaceOperation) -> UiMessage {
    match operation {
        WorkspaceOperation::StripExif => UiMessage::NeedExifImage,
        WorkspaceOperation::DecodeQr => UiMessage::NeedQrImage,
        _ => UiMessage::NeedImage,
    }
}

/// What a save, export or copy job encodes or writes.
pub enum ExportSource {
    /// Encoded bytes of a feature, written as they are.
    Bytes { bytes: Vec<u8>, extension: &'static str },
    /// The applied document, to be encoded.
    Image(DocumentSnapshot),
}

/// A save or export job: what it writes and what it does when the file is taken.
pub struct ExportJob {
    pub source: ExportSource,
    pub collision_policy: CollisionPolicy,
}

/// A slicing job: the document, its grid and what it does with taken file names.
pub struct SliceJob {
    pub document: DocumentSnapshot,
    pub grid: SliceGrid,
    pub collision_policy: CollisionPolicy,
}

/// Files to load: the positions of the supported ones, whether only the first is opened
/// as the document, and whether they are added to the current inputs.
#[derive(Debug, Clone, PartialEq, Eq)]
pub struct PathLoad {
    pub indices: Vec<usize>,
    pub single: bool,
    pub append: bool,
}

/// The image an estimate or an AI request works from.
pub enum ImageSource {
    /// A copy of the applied document.
    Document(DocumentSnapshot),
}

/// A command of a feature page (its parameters stay with the application).
#[derive(Debug, Clone, Copy, PartialEq, Eq, Structural)]
pub enum WorkspaceCommand {
    OpenSingle,
    OpenMultiple,
    AppendMultiple,
    SaveResult,
    Transform,
    PreviewTransform,
    ReadExif,
    StripExif,
    GenerateQr,
    DecodeQr,
    Collage,
    Slice,
    MakeGif,
    Batch,
}

/// A command that writes into a directory the person chooses first.
#[derive(Debug, Clone, Copy, PartialEq, Eq, Structural)]
pub enum OutputDirectoryCommand {
    Slice,
    Batch,
}

/// How a command proceeds: through a file picker, a save prompt, a directory prompt, or
/// directly as a workspace operation.
#[derive(Debug, Clone, Copy, PartialEq, Eq, Structural)]
pub enum WorkspaceCommandRoute {
    OpenImages { multiple: bool, append: bool },
    SaveResult,
    OutputDirectory(OutputDirectoryCommand),
    Direct(WorkspaceOperation),
}

/// The route of each command.
pub open spec fn spec_route(command: WorkspaceCommand) -> WorkspaceCommandRoute {
    match command {
        WorkspaceCommand::OpenSingle => WorkspaceCommandRoute::OpenImages { multiple: false, append: false },
        WorkspaceCommand::OpenMultiple => WorkspaceCommandRoute::OpenImages { multiple: true, append: false },
        WorkspaceCommand::AppendMultiple => WorkspaceCommandRoute::OpenImages { multiple: true, append: true },
        WorkspaceCommand::SaveResult => WorkspaceCommandRoute::SaveResult,
        WorkspaceCommand::Slice => WorkspaceCommandRoute::OutputDirectory(OutputDirectoryCommand::Slice),
        WorkspaceCommand::Batch => WorkspaceCommandRoute::OutputDirectory(OutputDirectoryCommand::Batch),
        WorkspaceCommand::Transform => WorkspaceCommandRoute::Direct(WorkspaceOperation::Transform),
        WorkspaceCommand::PreviewTransform => WorkspaceCommandRoute::Direct(WorkspaceOperation::PreviewTransform),
        WorkspaceCommand::ReadExif => WorkspaceCommandRoute::Direct(WorkspaceOperation::ReadExif),
        WorkspaceCommand::StripExif => WorkspaceCommandRoute::Direct(WorkspaceOperation::StripExif),
        WorkspaceCommand::GenerateQr => WorkspaceCommandRoute::Direct(WorkspaceOperation::GenerateQr),
        WorkspaceCommand::DecodeQr => WorkspaceCommandRoute::Direct(WorkspaceOperation::DecodeQr),
        WorkspaceCommand::Collage => WorkspaceCommandRoute::Direct(WorkspaceOperation::Collage),
        WorkspaceCommand::MakeGif => WorkspaceCommandRoute::Direct(WorkspaceOperation::MakeGif),
    }
}

impl WorkspaceCommand {
    /// How this command proceeds.
    pub fn route(self) -> (route: WorkspaceCommandRoute)
        ensures
            route == spec_route(self),
    {
        match self {
            WorkspaceCommand::OpenSingle => WorkspaceCommandRoute::OpenImages { multiple: false, append: false },
            WorkspaceCommand::OpenMultiple => WorkspaceCommandRoute::OpenImages { multiple: true, append: false },
            WorkspaceCommand::AppendMultiple => WorkspaceCommandRoute::OpenImages { multiple: true, append: true },
            WorkspaceCommand::SaveResult => WorkspaceCommandRoute::SaveResult,
            WorkspaceCommand::Slice => WorkspaceCommandRoute::OutputDirectory(OutputDirectoryCommand::Slice),
            WorkspaceCommand::Batch => WorkspaceCommandRoute::OutputDirectory(OutputDirectoryCommand::Batch),
            WorkspaceCommand::Transform => WorkspaceCommandRoute::Direct(WorkspaceOperation::Transform),
            WorkspaceCommand::PreviewTransform => WorkspaceCommandRoute::Direct(WorkspaceOperation::PreviewTransform),
            WorkspaceCommand::ReadExif => WorkspaceCommandRoute::Direct(WorkspaceOperation::ReadExif),
            WorkspaceCommand::StripExif => WorkspaceCommandRoute::Direct(WorkspaceOperation::StripExif),
            WorkspaceCommand::GenerateQr => WorkspaceCommandRoute::Direct(WorkspaceOperation::GenerateQr),
            WorkspaceCommand::DecodeQr => WorkspaceCommandRoute::Direct(WorkspaceOperation::DecodeQr),
            WorkspaceCommand::Collage => WorkspaceCommandRoute::Direct(WorkspaceOperation::Collage),
            WorkspaceCommand::MakeGif => WorkspaceCommandRoute::Direct(WorkspaceOperation::MakeGif),
        }
    }
}

/// The inputs of a batch job.
pub struct BatchInputs {
    /// The input images, in order.
    pub images: Vec<Raster>,
    /// Their names.
    pub names: Vec<String>,
    /// The input-set version the job belongs to.
    pub version: InputSetVersion,
    /// The item whose output becomes the preview.
    pub preview_index: usize,
}

/// The version a job's outcome belongs to; the outcome is ignored once that version is
/// no longer current.
#[derive(Debug, Clone, Copy, PartialEq, Eq, Structural)]
pub enum OutcomeGuard {
    /// The outcome always applies.
    Always,
    /// The outcome was computed from this version of the input images.
    Inputs(InputSetVersion),
    /// The outcome was computed from this version of the document.
    Document(DocumentVersion),
}

/// How a job's image relates to the document it was computed from.
#[derive(Debug, Clone, Copy, PartialEq, Eq, Structural)]
pub struct DocumentUpdate {
    /// The document version the image was computed from.
    pub base_version: DocumentVersion,
    /// The edit that produced it.
    pub kind: EditKind,
    /// Whether it is a preview waiting to be applied.
    pub preview: bool,
    /// The preview request it answers.
    pub preview_generation: Option<u64>,
}

/// What a finished job reports.
pub enum WorkspaceOutcome<E, R> {
    /// Images were opened: one document (`single`), or input images replacing or
    /// appended to the current ones.
    Loaded {
        images: Vec<Raster>,
        source_names: Vec<String>,
        source_bytes: Option<Vec<u8>>,
        info: InfoMessage<E>,
        status: UiMessage,
        single: bool,
        append: bool,
    },
    /// An image was computed: an edit of the document when `update` says so, otherwise a
    /// new generated document.
    Image { image: Raster, status: UiMessage, update: Option<DocumentUpdate> },
    /// Encoded bytes of a feature, with an optional preview image.
    Bytes {
        bytes: Vec<u8>,
        extension: &'static str,
        kind: EncodedResultKind,
        preview: Option<Raster>,
        status: UiMessage,
    },
    /// Information to show.
    Info { info: InfoMessage<E>, status: UiMessage },
    /// Files were written into `directory`; `exported_version` is the document version
    /// that was saved, if any.
    Written {
        status: UiMessage,
        directory: String,
        info: Option<InfoMessage<E>>,
        exported_version: Option<DocumentVersion>,
    },
    /// A batch finished (or was cancelled).
    BatchFinished {
        status: UiMessage,
        directory: String,
        results: Vec<BatchItemResult>,
        retry: Option<R>,
        preview: Option<Raster>,
    },
    /// Bytes are ready for the clipboard.
    Clipboard { bytes: Vec<u8>, format: ClipboardFormat, status: UiMessage },
    /// The job failed.
    Failed { kind: ErrorKind, detail: String },
    /// A preview job failed.
    PreviewFailed {
        generation: Option<u64>,
        base_version: DocumentVersion,
        kind: ErrorKind,
        detail: String,
    },
}

/// What the application still has to do after an outcome is applied.
pub struct WorkspaceEffects {
    /// Remember this directory as the last output directory.
    pub last_output_dir: Option<String>,
    /// Put these bytes on the clipboard.
    pub clipboard: Option<(Vec<u8>, ClipboardFormat)>,
    /// The document was saved in its current version.
    pub document_exported: bool,
    /// A generated image waits for the user to decide about the unsaved document.
    pub replacement_document: Option<(Raster, UiMessage)>,
}

/// No effect at all.
pub open spec fn no_effects(fx: WorkspaceEffects) -> bool {
    fx.last_output_dir is None && fx.clipboard is None && !fx.document_exported && fx.replacement_document is None
}

/// Whether an outcome answers a preview request.
pub open spec fn is_preview_outcome<E, R>(outcome: WorkspaceOutcome<E, R>) -> bool {
    (outcome matches WorkspaceOutcome::Image { update: Some(u), .. } && u.preview) || outcome is PreviewFailed
}

/// Whether the version an outcome belongs to is no longer current.
pub open spec fn is_stale<E, R>(v: WorkspaceView<E, R>, guard: OutcomeGuard) -> bool {
    match guard {
        OutcomeGuard::Always => false,
        OutcomeGuard::Inputs(x) => x != InputSetVersion(v.inputs.version),
        OutcomeGuard::Document(x) => !(v.document matches Some(d) && d.version == x),
    }
}

/// The view once a versioned outcome arrives: its job is over.
pub open spec fn released<E, R>(v: WorkspaceView<E, R>, guard: OutcomeGuard) -> WorkspaceView<E, R> {
    if guard is Always {
        v
    } else {
        WorkspaceView { busy: false, ..v }
    }
}

/// A new document made from `image` under identifier `id`; `exported` tells whether it
/// counts as saved.
pub open spec fn fresh_document(image: RasterView, id: u64, exported: bool) -> DocumentState {
    DocumentState {
        original: image,
        current: image,
        version: DocumentVersion { document_id: id, revision: 1 },
        exported,
        undo: Seq::empty(),
        redo: Seq::empty(),
        budget: crate::document::DEFAULT_HISTORY_BUDGET_BYTES as nat,
        transient: None,
    }
}

/// The view showing a kept image `p`.
pub open spec fn showing_image<E, R>(v: WorkspaceView<E, R>, p: Option<Raster>) -> WorkspaceView<E, R> {
    match p {
        Some(img) => WorkspaceView {
            preview: PreviewSource::Image,
            preview_image: Some(img@),
            preview_dimensions: Some((img.width, img.height)),
            ..v
        },
        None => v,
    }
}

/// The optional byte view.
pub open spec fn bytes_view(b: Option<Vec<u8>>) -> Option<Seq<u8>> {
    match b {
        Some(x) => Some(x@),
        None => None,
    }
}

/// What applying a non-ignored outcome does, starting from `b` (the workspace with its job
/// over): `f` is the resulting workspace and `fx` what remains for the application.
pub open spec fn applied<E, R>(
    b: WorkspaceView<E, R>,
    outcome: WorkspaceOutcome<E, R>,
    f: WorkspaceView<E, R>,
    fx: WorkspaceEffects,
) -> bool {
    match outcome {
        WorkspaceOutcome::Loaded { images, source_names, source_bytes, info, status, single, append } => {
            &&& no_effects(fx)
            &&& if single {
                if images.len() > 0 {
                    let d = fresh_document(images[0]@, b.next_document_id, true);
                    f == WorkspaceView {
                        document: Some(d),
                        document_name: if source_names.len() > 0 {
                            Some(source_names[0]@)
                        } else {
                            None
                        },
                        source_bytes: bytes_view(source_bytes),
                        result: None,
                        preview: PreviewSource::Document,
                        preview_image: None,
                        preview_dimensions: Some((images[0].width, images[0].height)),
                        info,
                        status,
                        next_document_id: next_document_id(b.next_document_id),
                        ..b
                    }
                } else {
                    f == WorkspaceView { info, status, ..b }
                }
            } else {
                let inputs = if append {
                    InputSetView {
                        images: b.inputs.images + crate::document::raster_views(images@),
                        names: b.inputs.names + crate::document::string_views(source_names@),
                        version: next_revision(b.inputs.version),
                    }
                } else {
                    InputSetView {
                        images: crate::document::raster_views(images@),
                        names: crate::document::string_views(source_names@),
                        version: next_revision(b.inputs.version),
                    }
                };
                let focus: nat = if append { b.focus_index } else { 0 };
                f == WorkspaceView {
                    inputs,
                    retry: None,
                    focus_index: focus,
                    result: None,
                    preview: if focus < inputs.images.len() {
                        PreviewSource::Input(focus as usize)
                    } else {
                        PreviewSource::Nothing
                    },
                    preview_image: None,
                    preview_dimensions: if focus < inputs.images.len() {
                        Some((inputs.images[focus as int].width, inputs.images[focus as int].height))
                    } else {
                        None
                    },
                    info,
                    status,
                    ..b
                }
            }
        },
        WorkspaceOutcome::Image { image, status, update } => match update {
            Some(u) => {
                &&& no_effects(fx)
                &&& match b.document {
                    None => f == b,
                    Some(d) => {
                        let accepted = if u.preview {
                            u.preview_generation == Some(b.preview_generation) && u.base_version == d.version
                        } else {
                            u.base_version == d.version
                        };
                        let next = if u.preview {
                            DocumentState {
                                transient: Some(crate::document::PreviewView { base_version: u.base_version, image: image@, kind: u.kind }),
                                ..d
                            }
                        } else {
                            crate::document::after_commit(d, image@, u.kind)
                        };
                        if accepted {
                            f == showing_document(WorkspaceView { document: Some(next), result: None, status, ..b })
                        } else {
                            f == b
                        }
                    },
                }
            },
            None => if b.document matches Some(d) && !d.exported {
                f == b && fx.replacement_document == Some((image, status)) && fx.last_output_dir is None
                    && fx.clipboard is None && !fx.document_exported
            } else {
                &&& no_effects(fx)
                &&& f == showing_document(WorkspaceView {
                    document: Some(fresh_document(image@, b.next_document_id, false)),
                    document_name: None,
                    source_bytes: None,
                    result: None,
                    status,
                    next_document_id: next_document_id(b.next_document_id),
                    ..b
                })
            },
        },
        WorkspaceOutcome::Bytes { bytes, extension, kind, preview, status } => {
            &&& no_effects(fx)
            &&& f == showing_image(WorkspaceView { result: Some((bytes@, extension@, kind)), status, ..b }, preview)
        },
        WorkspaceOutcome::Info { info, status } => no_effects(fx) && f == WorkspaceView { info, status, ..b },
        WorkspaceOutcome::Written { status, directory, info, exported_version } => {
            let marked = exported_version matches Some(v) && (b.document matches Some(d) && d.version == v);
            &&& fx.last_output_dir == Some(directory)
            &&& fx.clipboard is None && fx.replacement_document is None
            &&& fx.document_exported == marked
            &&& f == WorkspaceView {
                status,
                info: match info {
                    Some(i) => i,
                    None => b.info,
                },
                document: if marked {
                    Some(DocumentState { exported: true, ..b.document->0 })
                } else {
                    b.document
                },
                ..b
            }
        },
        WorkspaceOutcome::BatchFinished { status, directory, results, retry, preview } => {
            &&& fx.last_output_dir == Some(directory)
            &&& fx.clipboard is None && fx.replacement_document is None && !fx.document_exported
            &&& f == showing_image(
                WorkspaceView { batch_active: false, retry, info: InfoMessage::BatchResults(results), status, ..b },
                preview,
            )
        },
        WorkspaceOutcome::Clipboard { bytes, format, status } => {
            &&& fx.clipboard == Some((bytes, format))
            &&& fx.last_output_dir is None && fx.replacement_document is None && !fx.document_exported
            &&& f == with_status(b, status)
        },
        WorkspaceOutcome::Failed { kind, .. } => no_effects(fx) && f == WorkspaceView {
            batch_active: false,
            status: UiMessage::Error(kind),
            ..b
        },
        WorkspaceOutcome::PreviewFailed { generation, base_version, kind, .. } => {
            &&& no_effects(fx)
            &&& if generation == Some(b.preview_generation) && (b.document matches Some(d) && d.version == base_version) {
                f == with_status(b, UiMessage::Error(kind))
            } else {
                f == b
            }
        },
    }
}

/// The outcome can be applied: images are well formed and each loaded image has a name.
pub open spec fn outcome_wf<E, R>(outcome: WorkspaceOutcome<E, R>) -> bool {
    match outcome {
        WorkspaceOutcome::Loaded { images, source_names, .. } => images.len() == source_names.len()
            && forall|i: int| 0 <= i < images.len() ==> (#[trigger] images[i]).wf(),
        WorkspaceOutcome::Image { image, .. } => image.wf(),
        _ => true,
    }
}

/// A preview computed for a request that has since been superseded (its generation is
/// no longer current) changes nothing when it arrives.
pub proof fn law_superseded_preview_is_never_applied<E, R>(
    b: WorkspaceView<E, R>,
    image: Raster,
    status: UiMessage,
    u: DocumentUpdate,
    f: WorkspaceView<E, R>,
    fx: WorkspaceEffects,
)
    requires
        u.preview,
        u.preview_generation != Some(b.preview_generation),
        applied(b, WorkspaceOutcome::Image { image, status, update: Some(u) }, f, fx),
    ensures
        f == b,
        no_effects(fx),
{
}

/// A generated image never silently replaces a document with unsaved changes: the
/// document stays, and the image is handed back for the user to decide.
pub proof fn law_dirty_document_is_never_replaced_silently<E, R>(
    b: WorkspaceView<E, R>,
    image: Raster,
    status: UiMessage,
    f: WorkspaceView<E, R>,
    fx: WorkspaceEffects,
)
    requires
        b.document matches Some(d) && !d.exported,
        applied(b, WorkspaceOutcome::Image { image, status, update: None }, f, fx),
    ensures
        f.document == b.document,
        fx.replacement_document == Some((image, status)),
{
}

/// A newly opened document never shares a version with the document it replaces, as
/// long as identifiers handed out so far are below the next one.
pub proof fn law_new_documents_get_new_versions<E, R>(
    b: WorkspaceView<E, R>,
    images: Vec<Raster>,
    source_names: Vec<String>,
    source_bytes: Option<Vec<u8>>,
    info: InfoMessage<E>,
    status: UiMessage,
    f: WorkspaceView<E, R>,
    fx: WorkspaceEffects,
)
    requires
        images.len() > 0,
        b.document matches Some(d) && d.version.document_id < b.next_document_id,
        applied(
            b,
            WorkspaceOutcome::Loaded { images, source_names, source_bytes, info, status, single: true, append: false },
            f,
            fx,
        ),
    ensures
        f.document matches Some(n) && n.version != b.document->0.version,
{
}

/// A failed job leaves the workspace ready for the next command: not busy, no batch
/// running, and the failure shown.
pub proof fn law_failure_leaves_workspace_reusable<E, R>(
    o: WorkspaceView<E, R>,
    guard: OutcomeGuard,
    kind: ErrorKind,
    detail: String,
    f: WorkspaceView<E, R>,
    fx: WorkspaceEffects,
)
    requires
        !is_stale(o, guard),
        applied(WorkspaceView { busy: false, ..o }, WorkspaceOutcome::Failed { kind, detail }, f, fx),
    ensures
        !f.busy,
        !f.batch_active,
        f.status == UiMessage::Error(kind),
{
}

/// The model of the workspace.
pub struct WorkspaceView<E, R> {
    pub document: Option<DocumentState>,
    pub document_name: Option<Seq<char>>,
    pub inputs: InputSetView,
    pub source_bytes: Option<Seq<u8>>,
    pub result: Option<(Seq<u8>, Seq<char>, EncodedResultKind)>,
    pub preview: PreviewSource,
    pub preview_image: Option<RasterView>,
    pub preview_dimensions: Option<(u32, u32)>,
    pub focus_index: nat,
    pub status: UiMessage,
    pub info: InfoMessage<E>,
    pub busy: bool,
    pub preview_generation: u64,
    pub batch_active: bool,
    pub retry: Option<R>,
    pub next_document_id: u64,
}

/// The workspace behind one feature page. `E` is the application's EXIF record and `R`
/// what it keeps to retry the failed items of a batch.
pub struct Workspace<E, R> {
    document: Option<CurrentDocument>,
    document_name: Option<String>,
    input_set: InputSet,
    source_bytes: Option<Vec<u8>>,
    result: Option<EncodedResult>,
    preview: PreviewSource,
    preview_image: Option<Raster>,
    preview_dimensions: Option<(u32, u32)>,
    preview_revision: u64,
    focus_index: usize,
    status: UiMessage,
    info: InfoMessage<E>,
    busy: bool,
    preview_generation: u64,
    batch_active: bool,
    retry: Option<R>,
    next_document_id: u64,
}

/// The generation after `g`: one more, wrapping to 1 (never 0).
pub open spec fn next_generation(g: u64) -> u64 {
    next_revision(g)
}

/// The document identifier after `id` (the last one is kept once reached).
pub open spec fn next_document_id(id: u64) -> u64 {
    if id == u64::MAX {
        id
    } else {
        (id + 1) as u64
    }
}

/// `kept` lists, in increasing order, exactly the positions of `names` that have a
/// supported image extension, and is not empty.
pub open spec fn kept_supported(names: Seq<String>, kept: Seq<usize>) -> bool {
    &&& kept.len() > 0
    &&& forall|j: int| 0 <= j < kept.len() ==> kept[j] < names.len()
        && crate::workspace::spec_is_supported_image_name(names[#[trigger] kept[j] as int]@)
    &&& forall|a: int, b: int| 0 <= a < b < kept.len() ==> kept[a] < kept[b]
    &&& forall|i: int| 0 <= i < names.len() && crate::workspace::spec_is_supported_image_name(#[trigger] names[i]@)
        ==> kept.contains(i as usize)
}

impl<E, R> View for Workspace<E, R> {
    type V = WorkspaceView<E, R>;

    closed spec fn view(&self) -> WorkspaceView<E, R> {
        WorkspaceView {
            document: match self.document {
                Some(d) => Some(d@),
                None => None,
            },
            document_name: match self.document_name {
                Some(n) => Some(n@),
                None => None,
            },
            inputs: self.input_set@,
            source_bytes: match self.source_bytes {
                Some(b) => Some(b@),
                None => None,
            },
            result: match self.result {
                Some(r) => Some((r.bytes@, r.extension@, r.kind)),
                None => None,
            },
            preview: self.preview,
            preview_image: match self.preview_image {
                Some(i) => Some(i@),
                None => None,
            },
            preview_dimensions: self.preview_dimensions,
            focus_index: self.focus_index as nat,
            status: self.status,
            info: self.info,
            busy: self.busy,
            preview_generation: self.preview_generation,
            batch_active: self.batch_active,
            retry: self.retry,
            next_document_id: self.next_document_id,
        }
    }
}

/// The view with only the status replaced.
pub open spec fn with_status<E, R>(v: WorkspaceView<E, R>, status: UiMessage) -> WorkspaceView<E, R> {
    WorkspaceView { status, ..v }
}

/// The view after a job starts: busy, processing.
pub open spec fn started<E, R>(v: WorkspaceView<E, R>) -> WorkspaceView<E, R> {
    WorkspaceView { busy: true, status: UiMessage::Processing, ..v }
}

/// The view showing the document's displayed image (unchanged without a document).
pub open spec fn showing_document<E, R>(v: WorkspaceView<E, R>) -> WorkspaceView<E, R> {
    match v.document {
        Some(d) => WorkspaceView {
            preview: PreviewSource::Document,
            preview_image: None,
            preview_dimensions: Some(
                (crate::document::displayed(d).width, crate::document::displayed(d).height),
            ),
            ..v
        },
        None => v,
    }
}

/// `new` is `old` showing input image `index`, with that image's name and size as the
/// information text (nothing changes when there is no such image).
pub open spec fn shows_input<E, R>(old: WorkspaceView<E, R>, new: WorkspaceView<E, R>, index: nat) -> bool {
    if index < old.inputs.images.len() {
        &&& new == WorkspaceView {
            preview: PreviewSource::Input(index as usize),
            preview_image: None,
            preview_dimensions: Some(
                (old.inputs.images[index as int].width, old.inputs.images[index as int].height),
            ),
            info: new.info,
            ..old
        }
        &&& new.info matches InfoMessage::Image { name, width, height }
        &&& name@ == old.inputs.names[index as int]
        &&& width == old.inputs.images[index as int].width
        &&& height == old.inputs.images[index as int].height
    } else {
        new == old
    }
}

/// Whether `source` is what a save or copy should write: feature `kind`'s bytes when
/// held, otherwise a snapshot of the applied document, otherwise nothing.
pub open spec fn spec_export_source_ok<E, R>(
    v: WorkspaceView<E, R>,
    kind: Option<EncodedResultKind>,
    source: Option<ExportSource>,
) -> bool {
    match (kind, v.result) {
        (Some(k), Some(r)) if r.2 == k => source matches Some(ExportSource::Bytes { bytes, extension })
            && bytes@ == r.0 && extension@ == r.1,
        _ => match v.document {
            Some(d) => source matches Some(ExportSource::Image(s)) && s.version == d.version
                && s.image@ == d.current && s.image.wf(),
            None => source is None,
        },
    }
}

/// Copies of a list of rasters.
fn clone_rasters(images: &Vec<Raster>) -> (copies: Vec<Raster>)
    ensures
        crate::document::raster_views(copies@) == crate::document::raster_views(images@),
{
    let mut copies: Vec<Raster> = Vec::new();
    let mut i: usize = 0;
    while i < images.len()
        invariant
            i <= images.len(),
            crate::document::raster_views(copies@) == crate::document::raster_views(images@.take(i as int)),
        decreases images.len() - i,
    {
        let ghost before = copies@;
        let copy = images[i].clone_raster();
        copies.push(copy);
        proof {
            assert(images@.take(i + 1) =~= images@.take(i as int).push(images@[i as int]));
            assert(copies@ =~= before.push(copy));
            assert(crate::document::raster_views(copies@) =~= crate::document::raster_views(before).push(copy@));
            assert(crate::document::raster_views(images@.take(i + 1)) =~= crate::document::raster_views(images@.take(i as int)).push(images@[i as int]@));
        }
        i = i + 1;
    }
    assert(images@.take(i as int) =~= images@);
    copies
}

/// Copies of a list of strings.
fn clone_strings(names: &Vec<String>) -> (copies: Vec<String>)
    ensures
        crate::document::string_views(copies@) == crate::document::string_views(names@),
{
    let mut copies: Vec<String> = Vec::new();
    let mut i: usize = 0;
    while i < names.len()
        invariant
            i <= names.len(),
            crate::document::string_views(copies@) == crate::document::string_views(names@.take(i as int)),
        decreases names.len() - i,
    {
        let ghost before = copies@;
        let copy = names[i].clone();
        copies.push(copy);
        proof {
            assert(names@.take(i + 1) =~= names@.take(i as int).push(names@[i as int]));
            assert(copies@ =~= before.push(copy));
            assert(crate::document::string_views(copies@) =~= crate::document::string_views(before).push(copy@));
            assert(crate::document::string_views(names@.take(i + 1)) =~= crate::document::string_views(names@.take(i as int)).push(names@[i as int]@));
        }
        i = i + 1;
    }
    assert(names@.take(i as int) =~= names@);
    copies
}

impl<E, R> Workspace<E, R> {
    /// The internal invariant: the document and input set are well formed, the focus is
    /// inside the input set (or 0 when it is empty), and a kept preview image is present
    /// exactly when it is shown.
    pub closed spec fn wf(&self) -> bool {
        &&& self.document matches Some(d) ==> d.wf()
        &&& self.input_set.wf()
        &&& self.input_set@.images.len() == self.input_set@.names.len()
        &&& (self.input_set@.images.len() == 0 ==> self.focus_index == 0)
        &&& (self.input_set@.images.len() > 0 ==> self.focus_index < self.input_set@.images.len())
        &&& (self.preview is Image <==> self.preview_image is Some)
        &&& (self.preview matches PreviewSource::Input(i) ==> i < self.input_set@.images.len())
        &&& (self.preview is Document ==> self.document is Some)
    }

    /// An empty workspace: no document, no inputs, nothing shown, idle.
    pub fn new() -> (state: Self)
        ensures
            state.wf(),
            state@.document is None,
            state@.document_name is None,
            state@.inputs.images.len() == 0,
            state@.source_bytes is None,
            state@.result is None,
            state@.preview == PreviewSource::Nothing,
            state@.status == UiMessage::Empty,
            state@.info is Empty,
            !state@.busy,
            state@.preview_generation == 0,
            !state@.batch_active,
            state@.retry is None,
    {
        Workspace {
            document: None,
            document_name: None,
            input_set: InputSet::new(),
            source_bytes: None,
            result: None,
            preview: PreviewSource::Nothing,
            preview_image: None,
            preview_dimensions: None,
            preview_revision: 0,
            focus_index: 0,
            status: UiMessage::Empty,
            info: InfoMessage::Empty,
            busy: false,
            preview_generation: 0,
            batch_active: false,
            retry: None,
            next_document_id: 1,
        }
    }

    /// The count of changes of what the preview shows.
    pub closed spec fn spec_preview_revision(&self) -> u64 {
        self.preview_revision
    }

    /// Counts every change of what the preview shows (the application re-renders when it
    /// changes).
    pub fn preview_revision(&self) -> (revision: u64)
        ensures
            revision == self.spec_preview_revision(),
    {
        self.preview_revision
    }

    /// Records a change of what the preview shows: the revision moves on (wrapping to 0
    /// after the largest value), so it differs from the one before; nothing else changes.
    fn touch_preview(&mut self)
        ensures
            final(self)@ == old(self)@,
            final(self).wf() == old(self).wf(),
            final(self).spec_preview_revision() == if old(self).spec_preview_revision() == u64::MAX {
                0
            } else {
                (old(self).spec_preview_revision() + 1) as u64
            },
    {
        self.preview_revision = if self.preview_revision == u64::MAX {
            0
        } else {
            self.preview_revision + 1
        };
    }

    /// What the preview shows.
    pub fn preview_source(&self) -> (source: PreviewSource)
        ensures
            source == self@.preview,
    {
        self.preview
    }

    /// The kept preview image, when one is shown.
    pub fn preview_image(&self) -> (image: Option<&Raster>)
        ensures
            match image {
                Some(i) => self@.preview_image == Some(i@),
                None => self@.preview_image is None,
            },
    {
        self.preview_image.as_ref()
    }

    /// The dimensions of what the preview shows.
    pub fn preview_dimensions(&self) -> (dims: Option<(u32, u32)>)
        ensures
            dims == self@.preview_dimensions,
    {
        self.preview_dimensions
    }

    /// The document's displayed image (a pending preview, or the applied image).
    pub fn displayed_image(&self) -> (image: Option<&Raster>)
        requires
            self.wf(),
        ensures
            match image {
                Some(i) => self@.document matches Some(d) && i@ == crate::document::displayed(d),
                None => self@.document is None,
            },
    {
        match &self.document {
            Some(d) => Some(d.displayed_image()),
            None => None,
        }
    }

    /// The document's original image.
    pub fn original_image(&self) -> (image: Option<&Raster>)
        requires
            self.wf(),
        ensures
            match image {
                Some(i) => self@.document matches Some(d) && i@ == d.original,
                None => self@.document is None,
            },
    {
        match &self.document {
            Some(d) => Some(d.original()),
            None => None,
        }
    }

    /// Input image `index`.
    pub fn input_image(&self, index: usize) -> (image: Option<&Raster>)
        ensures
            match image {
                Some(i) => index < self@.inputs.images.len() && i@ == self@.inputs.images[index as int],
                None => index >= self@.inputs.images.len(),
            },
    {
        self.input_set.image(index)
    }

    /// The dimensions of input image `index`.
    pub fn input_dimensions(&self, index: usize) -> (dims: Option<(u32, u32)>)
        ensures
            match dims {
                Some(d) => index < self@.inputs.images.len() && d == (
                    self@.inputs.images[index as int].width,
                    self@.inputs.images[index as int].height,
                ),
                None => index >= self@.inputs.images.len(),
            },
    {
        match self.input_set.image(index) {
            Some(image) => Some((image.width, image.height)),
            None => None,
        }
    }

    /// The dimensions of the document as it was opened.
    pub fn original_dimensions(&self) -> (dims: Option<(u32, u32)>)
        requires
            self.wf(),
        ensures
            match dims {
                Some(d) => self@.document matches Some(s) && d == (s.original.width, s.original.height),
                None => self@.document is None,
            },
    {
        match &self.document {
            Some(d) => {
                let original = d.original();
                Some((original.width, original.height))
            },
            None => None,
        }
    }

    /// The applied document's dimensions.
    pub fn current_dimensions(&self) -> (dims: Option<(u32, u32)>)
        requires
            self.wf(),
        ensures
            match dims {
                Some(d) => self@.document matches Some(s) && d == (s.current.width, s.current.height),
                None => self@.document is None,
            },
    {
        match &self.document {
            Some(d) => {
                let snapshot_dims = d.current_dimensions();
                Some(snapshot_dims)
            },
            None => None,
        }
    }

    /// Whether a document is open.
    pub fn has_image(&self) -> (has: bool)
        ensures
            has == self@.document is Some,
    {
        self.document.is_some()
    }

    /// Whether encoded bytes of feature `kind` are held.
    pub fn has_encoded_result(&self, kind: EncodedResultKind) -> (has: bool)
        ensures
            has == (self@.result matches Some(r) && r.2 == kind),
    {
        match &self.result {
            Some(r) => r.kind == kind,
            None => false,
        }
    }

    /// The size of the encoded bytes of feature `kind`.
    pub fn encoded_result_byte_len(&self, kind: EncodedResultKind) -> (len: Option<usize>)
        ensures
            match len {
                Some(n) => self@.result matches Some(r) && r.2 == kind && n == r.0.len(),
                None => !(self@.result matches Some(r) && r.2 == kind),
            },
    {
        match &self.result {
            Some(r) => if r.kind == kind {
                Some(r.bytes.len())
            } else {
                None
            },
            None => None,
        }
    }

    /// Forgets the encoded bytes.
    pub fn clear_encoded_result(&mut self)
        ensures
            final(self)@ == (WorkspaceView { result: None, ..old(self)@ }),
            final(self).wf() == old(self).wf(),
    {
        self.result = None;
    }

    /// Number of input images.
    pub fn image_count(&self) -> (n: usize)
        ensures
            n == self@.inputs.images.len(),
    {
        self.input_set.len()
    }

    /// The focused input image.
    pub fn focus_index(&self) -> (index: usize)
        ensures
            index == self@.focus_index,
    {
        self.focus_index
    }

    /// The name of input image `index`.
    pub fn source_name(&self, index: usize) -> (name: Option<&str>)
        ensures
            match name {
                Some(n) => index < self@.inputs.names.len() && n@ == self@.inputs.names[index as int],
                None => index >= self@.inputs.names.len(),
            },
    {
        self.input_set.name(index)
    }

    /// The names of the input images.
    pub fn source_names(&self) -> (names: &Vec<String>)
        ensures
            crate::document::string_views(names@) == self@.inputs.names,
    {
        self.input_set.names()
    }

    /// The document's name.
    pub fn document_name(&self) -> (name: Option<&str>)
        ensures
            match name {
                Some(n) => self@.document_name == Some(n@),
                None => self@.document_name is None,
            },
    {
        match &self.document_name {
            Some(n) => Some(n.as_str()),
            None => None,
        }
    }

    /// The status line.
    pub fn status(&self) -> (status: UiMessage)
        ensures
            status == self@.status,
    {
        self.status
    }

    /// The information text.
    pub fn info(&self) -> (info: &InfoMessage<E>)
        ensures
            *info == self@.info,
    {
        &self.info
    }

    /// Whether a job is running.
    pub fn is_busy(&self) -> (busy: bool)
        ensures
            busy == self@.busy,
    {
        self.busy
    }

    /// Replaces the status line.
    pub fn set_status(&mut self, status: UiMessage)
        ensures
            final(self)@ == with_status(old(self)@, status),
            final(self).wf() == old(self).wf(),
    {
        self.status = status;
    }

    /// The size of the bytes the document was opened from.
    pub fn source_byte_len(&self) -> (len: Option<usize>)
        ensures
            match len {
                Some(n) => self@.source_bytes matches Some(b) && n == b.len(),
                None => self@.source_bytes is None,
            },
    {
        match &self.source_bytes {
            Some(b) => Some(b.len()),
            None => None,
        }
    }

    /// The version of the applied document.
    pub fn document_version(&self) -> (version: Option<DocumentVersion>)
        ensures
            match version {
                Some(v) => self@.document matches Some(d) && v == d.version,
                None => self@.document is None,
            },
    {
        match &self.document {
            Some(d) => Some(d.version()),
            None => None,
        }
    }

    /// A copy of the applied document (never a pending preview) as the reference image of
    /// an AI request.
    pub fn ai_reference_snapshot(&self) -> (snapshot: Option<DocumentSnapshot>)
        requires
            self.wf(),
        ensures
            match snapshot {
                Some(s) => self@.document matches Some(d) && s.version == d.version && s.image@ == d.current && s.image.wf(),
                None => self@.document is None,
            },
    {
        match &self.document {
            Some(d) => Some(d.snapshot()),
            None => None,
        }
    }

    /// The image whose encoded size is estimated: a copy of the applied document.
    pub fn image_for_estimate(&self) -> (source: Option<ImageSource>)
        requires
            self.wf(),
        ensures
            match source {
                Some(ImageSource::Document(s)) => self@.document matches Some(d) && s.version == d.version
                    && s.image@ == d.current && s.image.wf(),
                None => self@.document is None,
            },
    {
        match self.ai_reference_snapshot() {
            Some(snapshot) => Some(ImageSource::Document(snapshot)),
            None => None,
        }
    }

    /// Whether the document has changes that were not exported.
    pub fn is_dirty(&self) -> (dirty: bool)
        ensures
            dirty == (self@.document matches Some(d) && !d.exported),
    {
        match &self.document {
            Some(d) => d.is_dirty(),
            None => false,
        }
    }

    /// Whether an edit can be undone.
    pub fn can_undo(&self) -> (can: bool)
        ensures
            can == (self@.document matches Some(d) && d.undo.len() > 0),
    {
        match &self.document {
            Some(d) => d.can_undo(),
            None => false,
        }
    }

    /// Whether an undone edit can be redone.
    pub fn can_redo(&self) -> (can: bool)
        ensures
            can == (self@.document matches Some(d) && d.redo.len() > 0),
    {
        match &self.document {
            Some(d) => d.can_redo(),
            None => false,
        }
    }

    /// Whether a preview waits to be applied.
    pub fn has_transient_preview(&self) -> (pending: bool)
        ensures
            pending == (self@.document matches Some(d) && d.transient is Some),
    {
        match &self.document {
            Some(d) => d.has_transient(),
            None => false,
        }
    }

    /// The kind of the pending preview.
    pub fn transient_edit_kind(&self) -> (kind: Option<EditKind>)
        ensures
            kind == (match self@.document {
                Some(d) => match d.transient {
                    Some(p) => Some(p.kind),
                    None => None,
                },
                None => None,
            }),
    {
        match &self.document {
            Some(d) => d.transient_kind(),
            None => None,
        }
    }

    fn show_document_internal(&mut self)
        requires
            old(self).wf(),
        ensures
            final(self).wf(),
            final(self)@ == showing_document(old(self)@),
    {
        if let Some(d) = &self.document {
            let image = d.displayed_image();
            self.preview_dimensions = Some((image.width, image.height));
            self.preview = PreviewSource::Document;
            self.preview_image = None;
            self.touch_preview();
        }
    }

    fn preview_source_at(&mut self, index: usize)
        requires
            old(self).wf(),
        ensures
            final(self).wf(),
            shows_input(old(self)@, final(self)@, index as nat),
    {
        let (dims, name) = match (self.input_set.image(index), self.input_set.name(index)) {
            (Some(image), Some(name)) => (Some((image.width, image.height)), Some(name.to_string())),
            _ => (None, None),
        };
        proof {
            if index < self.input_set@.images.len() {
                assert(index < self.input_set@.names.len());
            }
        }
        if let (Some((width, height)), Some(name)) = (dims, name) {
            self.preview = PreviewSource::Input(index);
            self.preview_image = None;
            self.preview_dimensions = Some((width, height));
            self.info = InfoMessage::Image { name, width, height };
            self.touch_preview();
        }
    }

    /// Shows the document's displayed image.
    pub fn show_document_preview(&mut self)
        requires
            old(self).wf(),
        ensures
            final(self).wf(),
            final(self)@ == showing_document(old(self)@),
    {
        self.show_document_internal();
    }

    /// Shows the focused input image (nothing changes without inputs).
    pub fn show_input_set_preview(&mut self)
        requires
            old(self).wf(),
        ensures
            final(self).wf(),
            old(self)@.inputs.images.len() == 0 ==> final(self)@ == old(self)@,
            old(self)@.inputs.images.len() > 0 ==> shows_input(old(self)@, final(self)@, old(self)@.focus_index),
    {
        if !self.input_set.is_empty() {
            self.preview_source_at(self.focus_index);
        }
    }

    /// Focuses input image `index` and shows it (nothing changes past the last image).
    pub fn set_focus(&mut self, index: usize)
        requires
            old(self).wf(),
        ensures
            final(self).wf(),
            index >= old(self)@.inputs.images.len() ==> final(self)@ == old(self)@,
            index < old(self)@.inputs.images.len() ==> shows_input(
                WorkspaceView { focus_index: index as nat, ..old(self)@ },
                final(self)@,
                index as nat,
            ),
    {
        if index >= self.input_set.len() {
            return;
        }
        self.focus_index = index;
        self.preview_source_at(index);
    }

    /// Removes input image `index`; refused while busy or past the last image. Results and
    /// retries made from the old inputs are dropped. The focus stays on the same image when
    /// an earlier one is removed, otherwise it is kept in range; with no image left,
    /// nothing is shown and more images are asked for.
    pub fn remove_image(&mut self, index: usize) -> (removed: bool)
        requires
            old(self).wf(),
        ensures
            final(self).wf(),
            removed == (!old(self)@.busy && index < old(self)@.inputs.images.len()),
            !removed ==> final(self)@ == old(self)@,
            removed ==> ({
                let o = old(self)@;
                let inputs = InputSetView {
                    images: o.inputs.images.remove(index as int),
                    names: o.inputs.names.remove(index as int),
                    version: next_revision(o.inputs.version),
                };
                let base = WorkspaceView { inputs, result: None, retry: None, ..o };
                if inputs.images.len() == 0 {
                    final(self)@ == WorkspaceView {
                        focus_index: 0,
                        preview: PreviewSource::Nothing,
                        preview_image: None,
                        preview_dimensions: None,
                        info: InfoMessage::Empty,
                        status: UiMessage::NeedMultipleImages,
                        ..base
                    }
                } else {
                    let focus: nat = if (index as nat) < o.focus_index {
                        (o.focus_index - 1) as nat
                    } else if o.focus_index < inputs.images.len() {
                        o.focus_index
                    } else {
                        (inputs.images.len() - 1) as nat
                    };
                    shows_input(
                        WorkspaceView {
                            focus_index: focus,
                            status: UiMessage::LoadedMultiple { successes: inputs.images.len() as usize, failures: 0 },
                            ..base
                        },
                        final(self)@,
                        focus,
                    )
                }
            }),
    {
        if self.busy || index >= self.input_set.len() {
            return false;
        }
        let old_focus = self.focus_index;
        self.input_set.remove(index);
        self.result = None;
        self.retry = None;
        if self.input_set.is_empty() {
            self.focus_index = 0;
            self.preview = PreviewSource::Nothing;
            self.preview_image = None;
            self.preview_dimensions = None;
            self.info = InfoMessage::Empty;
            self.status = UiMessage::NeedMultipleImages;
            self.touch_preview();
            return true;
        }
        let len = self.input_set.len();
        self.focus_index = if index < old_focus {
            old_focus - 1
        } else if old_focus < len {
            old_focus
        } else {
            len - 1
        };
        self.status = UiMessage::LoadedMultiple { successes: len, failures: 0 };
        self.preview = PreviewSource::Nothing;
        self.preview_image = None;
        let focus = self.focus_index;
        self.preview_source_at(focus);
        true
    }

    /// Moves input image `from` to position `to` and focuses it; refused while busy, when
    /// the positions are equal, or past the last image. Results and retries made from the
    /// old order are dropped.
    pub fn move_image(&mut self, from: usize, to: usize) -> (moved: bool)
        requires
            old(self).wf(),
        ensures
            final(self).wf(),
            moved == (!old(self)@.busy && from != to && from < old(self)@.inputs.images.len() && to
                < old(self)@.inputs.images.len()),
            !moved ==> final(self)@ == old(self)@,
            moved ==> shows_input(
                WorkspaceView {
                    inputs: InputSetView {
                        images: crate::document::move_element(old(self)@.inputs.images, from as int, to as int),
                        names: crate::document::move_element(old(self)@.inputs.names, from as int, to as int),
                        version: next_revision(old(self)@.inputs.version),
                    },
                    result: None,
                    retry: None,
                    focus_index: to as nat,
                    ..old(self)@
                },
                final(self)@,
                to as nat,
            ),
    {
        if self.busy || from == to || from >= self.input_set.len() || to >= self.input_set.len() {
            return false;
        }
        self.input_set.move_item(from, to);
        self.result = None;
        self.retry = None;
        self.focus_index = to;
        self.preview_source_at(to);
        true
    }

    /// Makes every pending preview request stale.
    pub fn invalidate_preview_requests(&mut self)
        ensures
            final(self)@ == (WorkspaceView { preview_generation: next_generation(old(self)@.preview_generation), ..old(self)@ }),
            final(self).wf() == old(self).wf(),
    {
        self.preview_generation = if self.preview_generation == u64::MAX {
            1
        } else {
            self.preview_generation + 1
        };
    }

    /// Applies the pending preview of any tool (refused while busy). When it is applied,
    /// pending preview requests become stale, encoded results are dropped, the document
    /// is shown and marked ready to save; a stale preview is just dropped.
    pub fn apply_transient_preview(&mut self) -> (applied: bool)
        requires
            old(self).wf(),
        ensures
            final(self).wf(),
            old(self)@.busy ==> !applied && final(self)@ == old(self)@,
            !old(self)@.busy ==> match old(self)@.document {
                None => !applied && final(self)@ == old(self)@,
                Some(d) => {
                    &&& applied == (d.transient matches Some(p) && p.base_version == d.version)
                    &&& applied ==> final(self)@ == showing_document(WorkspaceView {
                        document: Some(crate::document::after_commit(d, d.transient->0.image, d.transient->0.kind)),
                        preview_generation: next_generation(old(self)@.preview_generation),
                        result: None,
                        status: UiMessage::SavedReady,
                        ..old(self)@
                    })
                    &&& !applied ==> final(self)@ == (WorkspaceView {
                        document: Some(DocumentState { transient: None, ..d }),
                        ..old(self)@
                    })
                },
            },
    {
        if self.busy {
            return false;
        }
        let applied = match &mut self.document {
            Some(d) => d.apply_transient(),
            None => false,
        };
        if applied {
            self.invalidate_preview_requests();
            self.result = None;
            self.show_document_internal();
            self.status = UiMessage::SavedReady;
        }
        applied
    }

    /// Applies the pending preview only when it was made by the tool `kind` (refused
    /// while busy); another tool's preview is left pending.
    pub fn apply_transient_preview_for(&mut self, kind: EditKind) -> (applied: bool)
        requires
            old(self).wf(),
        ensures
            final(self).wf(),
            old(self)@.busy ==> !applied && final(self)@ == old(self)@,
            !old(self)@.busy ==> match old(self)@.document {
                None => !applied && final(self)@ == old(self)@,
                Some(d) => {
                    &&& applied == (d.transient matches Some(p) && p.kind == kind && p.base_version == d.version)
                    &&& applied ==> final(self)@ == showing_document(WorkspaceView {
                        document: Some(crate::document::after_commit(d, d.transient->0.image, d.transient->0.kind)),
                        preview_generation: next_generation(old(self)@.preview_generation),
                        result: None,
                        status: UiMessage::SavedReady,
                        ..old(self)@
                    })
                    &&& !(d.transient matches Some(p) && p.kind == kind) ==> final(self)@ == old(self)@
                },
            },
    {
        if self.busy {
            return false;
        }
        let applied = match &mut self.document {
            Some(d) => d.apply_transient_kind(kind),
            None => false,
        };
        if applied {
            self.invalidate_preview_requests();
            self.result = None;
            self.show_document_internal();
            self.status = UiMessage::SavedReady;
        }
        applied
    }

    /// Drops the pending preview (refused while busy); pending preview requests become
    /// stale and the applied document is shown again.
    pub fn discard_transient_preview(&mut self) -> (discarded: bool)
        requires
            old(self).wf(),
        ensures
            final(self).wf(),
            discarded == (!old(self)@.busy && (old(self)@.document matches Some(d) && d.transient is Some)),
            !discarded ==> final(self)@ == old(self)@,
            discarded ==> final(self)@ == showing_document(WorkspaceView {
                document: Some(DocumentState { transient: None, ..old(self)@.document->0 }),
                preview_generation: next_generation(old(self)@.preview_generation),
                ..old(self)@
            }),
    {
        if self.busy {
            return false;
        }
        let pending = match &self.document {
            Some(d) => d.has_transient(),
            None => false,
        };
        if !pending {
            return false;
        }
        if let Some(d) = &mut self.document {
            d.discard_transient();
        }
        self.invalidate_preview_requests();
        self.show_document_internal();
        true
    }

    /// Undoes the last edit (refused while busy); the document is shown and the status
    /// tells how many steps remain.
    pub fn undo(&mut self) -> (changed: bool)
        requires
            old(self).wf(),
        ensures
            final(self).wf(),
            changed == (!old(self)@.busy && (old(self)@.document matches Some(d) && d.undo.len() > 0)),
            !changed ==> final(self)@ == old(self)@,
            changed ==> ({
                let d = crate::document::after_undo(old(self)@.document->0);
                final(self)@ == showing_document(WorkspaceView {
                    document: Some(d),
                    result: None,
                    status: UiMessage::UndoApplied { remaining: d.undo.len() as usize },
                    ..old(self)@
                })
            }),
    {
        if self.busy {
            return false;
        }
        let changed = match &mut self.document {
            Some(d) => d.undo(),
            None => false,
        };
        if changed {
            self.result = None;
            self.show_document_internal();
            let remaining = match &self.document {
                Some(d) => d.undo_steps(),
                None => 0,
            };
            self.status = UiMessage::UndoApplied { remaining };
        }
        changed
    }

    /// Redoes the last undone edit (refused while busy); the document is shown and the
    /// status tells how many steps remain.
    pub fn redo(&mut self) -> (changed: bool)
        requires
            old(self).wf(),
        ensures
            final(self).wf(),
            changed == (!old(self)@.busy && (old(self)@.document matches Some(d) && d.redo.len() > 0)),
            !changed ==> final(self)@ == old(self)@,
            changed ==> ({
                let d = crate::document::after_redo(old(self)@.document->0);
                final(self)@ == showing_document(WorkspaceView {
                    document: Some(d),
                    result: None,
                    status: UiMessage::RedoApplied { remaining: d.redo.len() as usize },
                    ..old(self)@
                })
            }),
    {
        if self.busy {
            return false;
        }
        let changed = match &mut self.document {
            Some(d) => d.redo(),
            None => false,
        };
        if changed {
            self.result = None;
            self.show_document_internal();
            let remaining = match &self.document {
                Some(d) => d.redo_steps(),
                None => 0,
            };
            self.status = UiMessage::RedoApplied { remaining };
        }
        changed
    }

    /// Applies the original image again as an edit (refused while busy or without a
    /// document), so it can itself be undone.
    pub fn restore_original(&mut self) -> (changed: bool)
        requires
            old(self).wf(),
        ensures
            final(self).wf(),
            changed == (!old(self)@.busy && old(self)@.document is Some),
            !changed ==> final(self)@ == old(self)@,
            changed ==> ({
                let d = old(self)@.document->0;
                final(self)@ == showing_document(WorkspaceView {
                    document: Some(crate::document::after_commit(d, d.original, EditKind::RestoreOriginal)),
                    result: None,
                    status: UiMessage::OriginalRestored,
                    ..old(self)@
                })
            }),
    {
        if self.busy {
            return false;
        }
        let changed = match &mut self.document {
            Some(d) => {
                let version = d.version();
                let original = d.original().clone_raster();
                d.commit(version, original, EditKind::RestoreOriginal)
            },
            None => false,
        };
        if changed {
            self.result = None;
            self.show_document_internal();
            self.status = UiMessage::OriginalRestored;
        }
        changed
    }

    fn open_generated(&mut self, image: Raster, name: Option<String>, status: UiMessage)
        requires
            old(self).wf(),
            image.wf(),
        ensures
            final(self).wf(),
            ({
                let id = old(self)@.next_document_id;
                &&& final(self)@.document matches Some(d) && d == (DocumentState {
                    original: image@,
                    current: image@,
                    version: DocumentVersion { document_id: id, revision: 1 },
                    exported: false,
                    undo: Seq::empty(),
                    redo: Seq::empty(),
                    budget: crate::document::DEFAULT_HISTORY_BUDGET_BYTES as nat,
                    transient: None,
                })
                &&& final(self)@ == showing_document(WorkspaceView {
                    document: final(self)@.document,
                    document_name: match name {
                        Some(n) => Some(n@),
                        None => None,
                    },
                    source_bytes: None,
                    result: None,
                    status,
                    next_document_id: next_document_id(id),
                    ..old(self)@
                })
            }),
    {
        let id = self.next_document_id;
        let document = CurrentDocument::new_unexported(image, id);
        proof {
            assert(document@.undo =~= Seq::empty());
            assert(document@.redo =~= Seq::empty());
        }
        self.document = Some(document);
        self.next_document_id = if id == u64::MAX {
            id
        } else {
            id + 1
        };
        self.document_name = name;
        self.source_bytes = None;
        self.result = None;
        self.show_document_internal();
        self.status = status;
    }

    /// Opens an AI result as a new, not yet exported document named `name` (refused while
    /// busy, with a busy status).
    pub fn use_ai_result(&mut self, image: Raster, name: String) -> (opened: bool)
        requires
            old(self).wf(),
            image.wf(),
        ensures
            final(self).wf(),
            opened == !old(self)@.busy,
            !opened ==> final(self)@ == with_status(old(self)@, UiMessage::Busy),
            opened ==> (final(self)@.status == UiMessage::AiResultOpened && final(self)@.document_name
                == Some(name@) && (final(self)@.document matches Some(d) && d.current == image@
                && !d.exported && d.version.document_id == old(self)@.next_document_id)),
    {
        if self.busy {
            self.status = UiMessage::Busy;
            return false;
        }
        self.open_generated(image, Some(name), UiMessage::AiResultOpened);
        true
    }

    /// Opens a generated image (a collage, a QR code) as a new, not yet exported document
    /// without a name (refused while busy, with a busy status).
    pub fn use_generated_result(&mut self, image: Raster, status: UiMessage) -> (opened: bool)
        requires
            old(self).wf(),
            image.wf(),
        ensures
            final(self).wf(),
            opened == !old(self)@.busy,
            !opened ==> final(self)@ == with_status(old(self)@, UiMessage::Busy),
            opened ==> (final(self)@.status == status && final(self)@.document_name is None
                && (final(self)@.document matches Some(d) && d.current == image@ && !d.exported
                && d.version.document_id == old(self)@.next_document_id)),
    {
        if self.busy {
            self.status = UiMessage::Busy;
            return false;
        }
        self.open_generated(image, None, status);
        true
    }

    fn start_job(&mut self)
        ensures
            final(self)@ == started(old(self)@),
            final(self).wf() == old(self).wf(),
    {
        self.busy = true;
        self.status = UiMessage::Processing;
    }

    /// Starts a job on the applied document (an edit, stripping metadata, slicing), or
    /// sets `missing` as the status when there is no document. Refused while busy.
    fn document_job(&mut self, missing: UiMessage) -> (snapshot: Option<DocumentSnapshot>)
        requires
            old(self).wf(),
        ensures
            final(self).wf(),
            old(self)@.busy ==> snapshot is None && final(self)@ == with_status(old(self)@, UiMessage::Busy),
            !old(self)@.busy ==> match old(self)@.document {
                None => snapshot is None && final(self)@ == with_status(old(self)@, missing),
                Some(d) => (snapshot matches Some(s) && s.version == d.version && s.image@ == d.current && s.image.wf())
                    && final(self)@ == started(old(self)@),
            },
    {
        if self.busy {
            self.status = UiMessage::Busy;
            return None;
        }
        let snapshot = match &self.document {
            Some(d) => d.snapshot(),
            None => {
                self.status = missing;
                return None;
            },
        };
        self.start_job();
        Some(snapshot)
    }

    /// Prepares a preview of an edit: any pending preview is dropped first, earlier
    /// preview requests become stale, and the request gets the new generation. A preview
    /// does not make the workspace busy. Refused while busy; without a document the status
    /// asks for an image.
    fn preview_job(&mut self) -> (request: Option<(DocumentSnapshot, u64)>)
        requires
            old(self).wf(),
        ensures
            final(self).wf(),
            old(self)@.busy ==> request is None && final(self)@ == with_status(old(self)@, UiMessage::Busy),
            !old(self)@.busy ==> match old(self)@.document {
                None => request is None && final(self)@ == with_status(old(self)@, UiMessage::NeedImage),
                Some(d) => {
                    let cleared = if d.transient is Some {
                        showing_document(WorkspaceView { document: Some(DocumentState { transient: None, ..d }), ..old(self)@ })
                    } else {
                        old(self)@
                    };
                    &&& request matches Some((s, g)) && s.version == d.version && s.image@ == d.current
                        && s.image.wf() && g == next_generation(old(self)@.preview_generation)
                    &&& final(self)@ == (WorkspaceView {
                        preview_generation: next_generation(old(self)@.preview_generation),
                        status: UiMessage::Processing,
                        ..cleared
                    })
                },
            },
    {
        if self.busy {
            self.status = UiMessage::Busy;
            return None;
        }
        let pending = match &self.document {
            Some(d) => d.has_transient(),
            None => false,
        };
        if pending {
            if let Some(d) = &mut self.document {
                d.discard_transient();
            }
            self.show_document_internal();
        }
        let snapshot = match &self.document {
            Some(d) => d.snapshot(),
            None => {
                self.status = UiMessage::NeedImage;
                return None;
            },
        };
        self.invalidate_preview_requests();
        self.status = UiMessage::Processing;
        Some((snapshot, self.preview_generation))
    }

    /// Starts reading metadata from the bytes the document was opened from. Refused while
    /// busy; without such bytes the status asks for an image with metadata.
    fn read_exif_job(&mut self) -> (bytes: Option<Vec<u8>>)
        requires
            old(self).wf(),
        ensures
            final(self).wf(),
            old(self)@.busy ==> bytes is None && final(self)@ == with_status(old(self)@, UiMessage::Busy),
            !old(self)@.busy ==> match old(self)@.source_bytes {
                None => bytes is None && final(self)@ == with_status(old(self)@, UiMessage::NeedExifImage),
                Some(b) => (bytes matches Some(c) && c@ == b) && final(self)@ == started(old(self)@),
            },
    {
        if self.busy {
            self.status = UiMessage::Busy;
            return None;
        }
        let bytes = match &self.source_bytes {
            Some(b) => b.clone(),
            None => {
                self.status = UiMessage::NeedExifImage;
                return None;
            },
        };
        self.start_job();
        Some(bytes)
    }

    /// Starts a job that needs no input from the workspace (decoding pasted bytes,
    /// generating a QR code). Refused while busy.
    pub fn prepare_paste(&mut self) -> (ok: bool)
        requires
            old(self).wf(),
        ensures
            final(self).wf(),
            ok == !old(self)@.busy,
            !ok ==> final(self)@ == with_status(old(self)@, UiMessage::Busy),
            ok ==> final(self)@ == started(old(self)@),
    {
        if self.busy {
            self.status = UiMessage::Busy;
            return false;
        }
        self.start_job();
        true
    }

    /// Starts a job on every input image (a collage, an animation), with the input-set
    /// version it belongs to. Refused while busy; without inputs the status asks for more
    /// images.
    fn inputs_job(&mut self) -> (inputs: Option<(Vec<Raster>, InputSetVersion)>)
        requires
            old(self).wf(),
        ensures
            final(self).wf(),
            old(self)@.busy ==> inputs is None && final(self)@ == with_status(old(self)@, UiMessage::Busy),
            !old(self)@.busy && old(self)@.inputs.images.len() == 0 ==> inputs is None && final(self)@
                == with_status(old(self)@, UiMessage::NeedMultipleImages),
            !old(self)@.busy && old(self)@.inputs.images.len() > 0 ==> (inputs matches Some((images, version))
                && crate::document::raster_views(images@) == old(self)@.inputs.images
                && version == InputSetVersion(old(self)@.inputs.version)) && final(self)@ == started(old(self)@),
    {
        if self.busy {
            self.status = UiMessage::Busy;
            return None;
        }
        if self.input_set.is_empty() {
            self.status = UiMessage::NeedMultipleImages;
            return None;
        }
        let images = clone_rasters(self.input_set.images());
        let version = self.input_set.version();
        self.start_job();
        Some((images, version))
    }

    /// Starts loading the dropped or chosen files whose names have a supported image
    /// extension; `multiple` keeps every such image as an input, otherwise the first one is
    /// opened as the document. Refused while busy; when none is supported the status asks
    /// for an image.
    pub fn prepare_paths(&mut self, file_names: &Vec<String>, multiple: bool) -> (load: Option<PathLoad>)
        requires
            old(self).wf(),
        ensures
            final(self).wf(),
            old(self)@.busy ==> load is None && final(self)@ == with_status(old(self)@, UiMessage::Busy),
            !old(self)@.busy ==> match load {
                None => final(self)@ == with_status(old(self)@, UiMessage::NeedImage) && forall|i: int|
                    0 <= i < file_names.len() ==> !crate::workspace::spec_is_supported_image_name(
                        #[trigger] file_names@[i]@,
                    ),
                Some(l) => final(self)@ == started(old(self)@) && l.single == !multiple && !l.append
                    && kept_supported(file_names@, l.indices@),
            },
    {
        self.prepare_paths_mode(file_names, multiple, false)
    }

    /// Starts adding the supported files among `file_names` to the input images. Refused
    /// while busy; when none is supported the status asks for an image.
    pub fn prepare_append_paths(&mut self, file_names: &Vec<String>) -> (load: Option<PathLoad>)
        requires
            old(self).wf(),
        ensures
            final(self).wf(),
            old(self)@.busy ==> load is None && final(self)@ == with_status(old(self)@, UiMessage::Busy),
            !old(self)@.busy ==> match load {
                None => final(self)@ == with_status(old(self)@, UiMessage::NeedImage) && forall|i: int|
                    0 <= i < file_names.len() ==> !crate::workspace::spec_is_supported_image_name(
                        #[trigger] file_names@[i]@,
                    ),
                Some(l) => final(self)@ == started(old(self)@) && !l.single && l.append
                    && kept_supported(file_names@, l.indices@),
            },
    {
        self.prepare_paths_mode(file_names, true, true)
    }

    fn prepare_paths_mode(&mut self, file_names: &Vec<String>, multiple: bool, append: bool) -> (load: Option<PathLoad>)
        requires
            old(self).wf(),
        ensures
            final(self).wf(),
            old(self)@.busy ==> load is None && final(self)@ == with_status(old(self)@, UiMessage::Busy),
            !old(self)@.busy ==> match load {
                None => final(self)@ == with_status(old(self)@, UiMessage::NeedImage) && forall|i: int|
                    0 <= i < file_names.len() ==> !crate::workspace::spec_is_supported_image_name(
                        #[trigger] file_names@[i]@,
                    ),
                Some(l) => final(self)@ == started(old(self)@) && l.single == !multiple && l.append == append
                    && kept_supported(file_names@, l.indices@),
            },
    {
        let kept = match self.supported_positions(file_names) {
            Some(k) => k,
            None => return None,
        };
        Some(PathLoad { indices: kept, single: !multiple, append })
    }

    fn supported_positions(&mut self, file_names: &Vec<String>) -> (kept: Option<Vec<usize>>)
        requires
            old(self).wf(),
        ensures
            final(self).wf(),
            old(self)@.busy ==> kept is None && final(self)@ == with_status(old(self)@, UiMessage::Busy),
            !old(self)@.busy ==> match kept {
                None => final(self)@ == with_status(old(self)@, UiMessage::NeedImage) && forall|i: int|
                    0 <= i < file_names.len() ==> !crate::workspace::spec_is_supported_image_name(
                        #[trigger] file_names@[i]@,
                    ),
                Some(k) => final(self)@ == started(old(self)@) && k.len() > 0 && (forall|j: int|
                    0 <= j < k.len() ==> k@[j] < file_names.len()
                        && crate::workspace::spec_is_supported_image_name(file_names@[#[trigger] k@[j] as int]@))
                    && (forall|a: int, b: int| 0 <= a < b < k.len() ==> k@[a] < k@[b])
                    && (forall|i: int| 0 <= i < file_names.len() && crate::workspace::spec_is_supported_image_name(#[trigger] file_names@[i]@)
                        ==> k@.contains(i as usize)),
            },
    {
        if self.busy {
            self.status = UiMessage::Busy;
            return None;
        }
        let mut kept: Vec<usize> = Vec::new();
        let mut i: usize = 0;
        while i < file_names.len()
            invariant
                i <= file_names.len(),
                forall|j: int| 0 <= j < kept.len() ==> kept@[j] < i && crate::workspace::spec_is_supported_image_name(file_names@[#[trigger] kept@[j] as int]@),
                forall|a: int, b: int| 0 <= a < b < kept.len() ==> kept@[a] < kept@[b],
                forall|m: int| 0 <= m < i && crate::workspace::spec_is_supported_image_name(#[trigger] file_names@[m]@) ==> kept@.contains(m as usize),
            decreases file_names.len() - i,
        {
            if crate::workspace::is_supported_image_path(file_names[i].as_str()) {
                let ghost before = kept@;
                kept.push(i);
                proof {
                    assert forall|m: int| 0 <= m < i + 1 && crate::workspace::spec_is_supported_image_name(#[trigger] file_names@[m]@) implies kept@.contains(m as usize) by {
                        if m < i {
                            let w = choose|w: int| 0 <= w < before.len() && before[w] == m as usize;
                            assert(kept@[w] == m as usize);
                        } else {
                            assert(kept@[before.len() as int] == i);
                        }
                    }
                }
            }
            i = i + 1;
        }
        if kept.len() == 0 {
            self.status = UiMessage::NeedImage;
            return None;
        }
        self.start_job();
        Some(kept)
    }

    /// What a save or copy writes: the encoded bytes of feature `encoded_kind` when held,
    /// otherwise the applied document.
    fn export_source(&self, encoded_kind: Option<EncodedResultKind>) -> (source: Option<ExportSource>)
        requires
            self.wf(),
        ensures
            spec_export_source_ok(self@, encoded_kind, source),
    {
        if let Some(kind) = encoded_kind {
            if let Some(r) = &self.result {
                if r.kind == kind {
                    return Some(ExportSource::Bytes { bytes: r.bytes.clone(), extension: r.extension });
                }
            }
        }
        match &self.document {
            Some(d) => Some(ExportSource::Image(d.snapshot())),
            None => None,
        }
    }

    /// Starts saving or exporting (with feature `encoded_kind`'s bytes when held,
    /// otherwise the applied document). Refused while busy; with nothing to save the status
    /// asks for a result.
    pub fn prepare_export_path(
        &mut self,
        collision_policy: CollisionPolicy,
        encoded_kind: Option<EncodedResultKind>,
    ) -> (job: Option<ExportJob>)
        requires
            old(self).wf(),
        ensures
            final(self).wf(),
            old(self)@.busy ==> job is None && final(self)@ == with_status(old(self)@, UiMessage::Busy),
            !old(self)@.busy ==> match job {
                None => spec_export_source_ok(old(self)@, encoded_kind, None)
                    && final(self)@ == with_status(old(self)@, UiMessage::NeedResult),
                Some(j) => spec_export_source_ok(old(self)@, encoded_kind, Some(j.source))
                    && j.collision_policy == collision_policy && final(self)@ == started(old(self)@),
            },
    {
        match self.prepare_copy(encoded_kind) {
            Some(source) => Some(ExportJob { source, collision_policy }),
            None => None,
        }
    }

    /// Starts saving to a path the person chose, keeping both files when the name is
    /// taken; otherwise as [`Workspace::prepare_export_path`].
    pub fn prepare_save_path(&mut self, encoded_kind: Option<EncodedResultKind>) -> (job: Option<ExportJob>)
        requires
            old(self).wf(),
        ensures
            final(self).wf(),
            old(self)@.busy ==> job is None && final(self)@ == with_status(old(self)@, UiMessage::Busy),
            !old(self)@.busy ==> match job {
                None => spec_export_source_ok(old(self)@, encoded_kind, None)
                    && final(self)@ == with_status(old(self)@, UiMessage::NeedResult),
                Some(j) => spec_export_source_ok(old(self)@, encoded_kind, Some(j.source))
                    && j.collision_policy == CollisionPolicy::PreserveBoth && final(self)@ == started(old(self)@),
            },
    {
        self.prepare_export_path(CollisionPolicy::PreserveBoth, encoded_kind)
    }

    /// The file extension a save writes: that of feature `encoded_kind`'s bytes when held,
    /// otherwise that of the format `default_export` encodes.
    pub fn export_extension(&self, default_export: EncodeSettings, encoded_kind: Option<EncodedResultKind>) -> (extension: &'static str)
        ensures
            extension@ == match (encoded_kind, self@.result) {
                (Some(k), Some(r)) => if r.2 == k { r.1 } else { spec_extension(spec_settings_format(default_export)) },
                _ => spec_extension(spec_settings_format(default_export)),
            },
    {
        if let Some(kind) = encoded_kind {
            if let Some(r) = &self.result {
                if r.kind == kind {
                    return r.extension;
                }
            }
        }
        default_export.format().extension()
    }

    /// Starts a batch over every input image, or fails with a status: busy, no inputs
    /// (more images asked for), or an image watermark without a usable file (an image
    /// asked for). A started batch can be cancelled and forgets the previous retry.
    pub fn prepare_batch_paths(&mut self, watermark_ok: bool) -> (inputs: Option<BatchInputs>)
        requires
            old(self).wf(),
        ensures
            final(self).wf(),
            old(self)@.busy ==> inputs is None && final(self)@ == with_status(old(self)@, UiMessage::Busy),
            !old(self)@.busy && old(self)@.inputs.images.len() == 0 ==> inputs is None && final(self)@
                == with_status(old(self)@, UiMessage::NeedMultipleImages),
            !old(self)@.busy && old(self)@.inputs.images.len() > 0 && !watermark_ok ==> inputs is None
                && final(self)@ == with_status(old(self)@, UiMessage::NeedImage),
            !old(self)@.busy && old(self)@.inputs.images.len() > 0 && watermark_ok ==> (inputs matches Some(b)
                && crate::document::raster_views(b.images@) == old(self)@.inputs.images
                && crate::document::string_views(b.names@) == old(self)@.inputs.names
                && b.version == InputSetVersion(old(self)@.inputs.version)
                && b.preview_index == old(self)@.focus_index) && final(self)@ == started(
                WorkspaceView { batch_active: true, retry: None, ..old(self)@ },
            ),
    {
        if self.busy {
            self.status = UiMessage::Busy;
            return None;
        }
        if self.input_set.is_empty() {
            self.status = UiMessage::NeedMultipleImages;
            return None;
        }
        if !watermark_ok {
            self.status = UiMessage::NeedImage;
            return None;
        }
        let images = clone_rasters(self.input_set.images());
        let names = clone_strings(self.input_set.names());
        let version = self.input_set.version();
        self.batch_active = true;
        self.retry = None;
        self.start_job();
        Some(BatchInputs { images, names, version, preview_index: self.focus_index })
    }

    /// Whether a running batch can be told to stop (the application holds the flag the
    /// batch reads).
    pub fn cancel_batch(&self) -> (can: bool)
        ensures
            can == self@.batch_active,
    {
        self.batch_active
    }

    /// Starts the retry of a batch's failed items. Refused while busy; nothing happens
    /// when there is nothing to retry.
    pub fn prepare_retry_batch(&mut self) -> (retry: Option<R>)
        requires
            old(self).wf(),
        ensures
            final(self).wf(),
            old(self)@.busy ==> retry is None && final(self)@ == with_status(old(self)@, UiMessage::Busy),
            !old(self)@.busy && old(self)@.retry is None ==> retry is None && final(self)@ == old(self)@,
            !old(self)@.busy && old(self)@.retry is Some ==> retry == old(self)@.retry && final(self)@
                == started(WorkspaceView { batch_active: true, retry: None, ..old(self)@ }),
    {
        if self.busy {
            self.status = UiMessage::Busy;
            return None;
        }
        let retry = self.retry.take();
        if retry.is_some() {
            self.batch_active = true;
            self.start_job();
        }
        retry
    }

    fn show_image(&mut self, preview: Option<Raster>)
        requires
            old(self).wf(),
        ensures
            final(self).wf(),
            final(self)@ == showing_image(old(self)@, preview),
    {
        if let Some(img) = preview {
            self.preview_dimensions = Some((img.width, img.height));
            self.preview = PreviewSource::Image;
            self.preview_image = Some(img);
            self.touch_preview();
        }
    }

    fn apply_loaded(
        &mut self,
        images: Vec<Raster>,
        source_names: Vec<String>,
        source_bytes: Option<Vec<u8>>,
        info: InfoMessage<E>,
        status: UiMessage,
        single: bool,
        append: bool,
    ) -> (fx: WorkspaceEffects)
        requires
            old(self).wf(),
            !old(self)@.busy,
            outcome_wf(WorkspaceOutcome::<E, R>::Loaded { images, source_names, source_bytes, info, status, single, append }),
        ensures
            final(self).wf(),
            applied(old(self)@, WorkspaceOutcome::Loaded { images, source_names, source_bytes, info, status, single, append }, final(self)@, fx),
    {
        let ghost images0 = images;
        let ghost names0 = source_names;
        let ghost bytes0 = source_bytes;
        let ghost info0 = info;
        if single {
            let mut images = images;
            let mut names = source_names;
            if images.len() > 0 {
                let first = images.remove(0);
                assert(first == images0[0]);
                let name = if names.len() > 0 {
                    Some(names.remove(0))
                } else {
                    None
                };
                let id = self.next_document_id;
                let document = CurrentDocument::new(first, id);
                proof {
                    assert(document@.undo =~= Seq::empty());
                    assert(document@.redo =~= Seq::empty());
                }
                self.document = Some(document);
                self.next_document_id = if id == u64::MAX {
                    id
                } else {
                    id + 1
                };
                self.document_name = name;
                self.source_bytes = source_bytes;
                self.result = None;
                self.show_document_internal();
            }
        } else {
            if append {
                self.input_set.append(images, source_names);
            } else {
                self.input_set.replace(images, source_names);
                self.focus_index = 0;
            }
            proof {
                assert(crate::document::raster_views(images0@).len() == images0.len());
                assert(crate::document::string_views(names0@).len() == names0.len());
            }
            self.retry = None;
            self.result = None;
            self.preview = PreviewSource::Nothing;
            self.preview_image = None;
            self.preview_dimensions = None;
            self.touch_preview();
            let focus = self.focus_index;
            if focus < self.input_set.len() {
                self.preview_source_at(focus);
            }
        }
        self.info = info;
        self.status = status;
        WorkspaceEffects { last_output_dir: None, clipboard: None, document_exported: false, replacement_document: None }
    }

    fn apply_image(&mut self, image: Raster, status: UiMessage, update: Option<DocumentUpdate>) -> (fx: WorkspaceEffects)
        requires
            old(self).wf(),
            !old(self)@.busy,
            image.wf(),
        ensures
            final(self).wf(),
            applied(old(self)@, WorkspaceOutcome::<E, R>::Image { image, status, update }, final(self)@, fx),
    {
        let none = WorkspaceEffects { last_output_dir: None, clipboard: None, document_exported: false, replacement_document: None };
        match update {
            Some(u) => {
                let generation = self.preview_generation;
                let accepted = match &mut self.document {
                    None => {
                        return none;
                    },
                    Some(d) => if u.preview {
                        if u.preview_generation == Some(generation) {
                            d.set_transient(u.base_version, image, u.kind)
                        } else {
                            false
                        }
                    } else {
                        d.commit(u.base_version, image, u.kind)
                    },
                };
                if accepted {
                    self.result = None;
                    self.show_document_internal();
                    self.status = status;
                }
                none
            },
            None => {
                if self.is_dirty() {
                    return WorkspaceEffects {
                        last_output_dir: None,
                        clipboard: None,
                        document_exported: false,
                        replacement_document: Some((image, status)),
                    };
                }
                self.open_generated(image, None, status);
                self.result = None;
                self.show_document_internal();
                self.status = status;
                none
            },
        }
    }

    /// Applies a finished job's outcome. An outcome is ignored when the version it belongs
    /// to is stale (its job is still over), and a preview's outcome is ignored while
    /// another job runs; otherwise the job is over and the outcome is applied as
    /// [`applied`] describes.
    pub fn apply(&mut self, guard: OutcomeGuard, outcome: WorkspaceOutcome<E, R>) -> (fx: WorkspaceEffects)
        requires
            old(self).wf(),
            outcome_wf(outcome),
        ensures
            final(self).wf(),
            ({
                let o = old(self)@;
                let ignored = is_stale(o, guard) || (is_preview_outcome(outcome) && o.busy);
                &&& ignored ==> final(self)@ == released(o, guard) && no_effects(fx)
                &&& !ignored ==> applied(WorkspaceView { busy: false, ..o }, outcome, final(self)@, fx)
            }),
    {
        let none = WorkspaceEffects { last_output_dir: None, clipboard: None, document_exported: false, replacement_document: None };
        let normal_job_running = self.busy;
        match guard {
            OutcomeGuard::Always => {},
            OutcomeGuard::Inputs(version) => {
                self.busy = false;
                if version != self.input_set.version() {
                    return none;
                }
            },
            OutcomeGuard::Document(version) => {
                self.busy = false;
                let current = self.document_version();
                let matches_current = match current {
                    Some(c) => c == version,
                    None => false,
                };
                if !matches_current {
                    return none;
                }
            },
        }
        let is_preview = match &outcome {
            WorkspaceOutcome::Image { update: Some(u), .. } => u.preview,
            WorkspaceOutcome::PreviewFailed { .. } => true,
            _ => false,
        };
        if is_preview && normal_job_running {
            return none;
        }
        self.busy = false;
        match outcome {
            WorkspaceOutcome::Loaded { images, source_names, source_bytes, info, status, single, append } => {
                self.apply_loaded(images, source_names, source_bytes, info, status, single, append)
            },
            WorkspaceOutcome::Image { image, status, update } => self.apply_image(image, status, update),
            WorkspaceOutcome::Bytes { bytes, extension, kind, preview, status } => {
                self.show_image(preview);
                self.result = Some(EncodedResult { bytes, extension, kind });
                self.status = status;
                none
            },
            WorkspaceOutcome::Info { info, status } => {
                self.info = info;
                self.status = status;
                none
            },
            WorkspaceOutcome::Written { status, directory, info, exported_version } => {
                self.status = status;
                if let Some(i) = info {
                    self.info = i;
                }
                let exported = match (exported_version, &mut self.document) {
                    (Some(v), Some(d)) => d.mark_exported(v),
                    _ => false,
                };
                WorkspaceEffects {
                    last_output_dir: Some(directory),
                    clipboard: None,
                    document_exported: exported,
                    replacement_document: None,
                }
            },
            WorkspaceOutcome::BatchFinished { status, directory, results, retry, preview } => {
                self.batch_active = false;
                self.retry = retry;
                self.info = InfoMessage::BatchResults(results);
                self.show_image(preview);
                self.status = status;
                WorkspaceEffects {
                    last_output_dir: Some(directory),
                    clipboard: None,
                    document_exported: false,
                    replacement_document: None,
                }
            },
            WorkspaceOutcome::Clipboard { bytes, format, status } => {
                self.status = status;
                WorkspaceEffects {
                    last_output_dir: None,
                    clipboard: Some((bytes, format)),
                    document_exported: false,
                    replacement_document: None,
                }
            },
            WorkspaceOutcome::Failed { kind, .. } => {
                self.batch_active = false;
                self.status = UiMessage::Error(kind);
                none
            },
            WorkspaceOutcome::PreviewFailed { generation, base_version, kind, .. } => {
                let current = self.document_version();
                let fresh = match (generation, current) {
                    (Some(g), Some(c)) => g == self.preview_generation && c == base_version,
                    _ => false,
                };
                if fresh {
                    self.status = UiMessage::Error(kind);
                }
                none
            },
        }
    }

    /// Checks that `operation` can start and hands out what its job works on; refused
    /// while busy (busy status) or when its input is missing (a status asking for it). A
    /// preview does not make the workspace busy; every other started job does.
    pub fn prepare(&mut self, operation: WorkspaceOperation) -> (inputs: Option<JobInputs>)
        requires
            old(self).wf(),
        ensures
            final(self).wf(),
            old(self)@.busy ==> inputs is None && final(self)@ == with_status(old(self)@, UiMessage::Busy),
            !old(self)@.busy ==> match operation {
                WorkspaceOperation::Transform | WorkspaceOperation::StripExif | WorkspaceOperation::DecodeQr => match old(self)@.document {
                    None => inputs is None && final(self)@ == with_status(old(self)@, missing_document_status(operation)),
                    Some(d) => final(self)@ == started(old(self)@) && if operation == WorkspaceOperation::DecodeQr {
                        inputs matches Some(JobInputs::FirstImage(i)) && i@ == d.current
                    } else {
                        inputs matches Some(JobInputs::Document(s)) && s.version == d.version && s.image@ == d.current && s.image.wf()
                    },
                },
                WorkspaceOperation::PreviewTransform => match old(self)@.document {
                    None => inputs is None && final(self)@ == with_status(old(self)@, UiMessage::NeedImage),
                    Some(d) => {
                        let cleared = if d.transient is Some {
                            showing_document(WorkspaceView { document: Some(DocumentState { transient: None, ..d }), ..old(self)@ })
                        } else {
                            old(self)@
                        };
                        &&& inputs matches Some(JobInputs::Preview { document: s, generation: g }) && s.version == d.version
                            && s.image@ == d.current && s.image.wf() && g == next_generation(old(self)@.preview_generation)
                        &&& final(self)@ == (WorkspaceView {
                            preview_generation: next_generation(old(self)@.preview_generation),
                            status: UiMessage::Processing,
                            ..cleared
                        })
                    },
                },
                WorkspaceOperation::ReadExif => match old(self)@.source_bytes {
                    None => inputs is None && final(self)@ == with_status(old(self)@, UiMessage::NeedExifImage),
                    Some(b) => (inputs matches Some(JobInputs::SourceBytes(c)) && c@ == b) && final(self)@ == started(old(self)@),
                },
                WorkspaceOperation::GenerateQr => (inputs matches Some(JobInputs::Nothing)) && final(self)@ == started(old(self)@),
                WorkspaceOperation::Collage | WorkspaceOperation::MakeGif => if old(self)@.inputs.images.len() == 0 {
                    inputs is None && final(self)@ == with_status(old(self)@, UiMessage::NeedMultipleImages)
                } else {
                    (inputs matches Some(JobInputs::Inputs { images, version })
                        && crate::document::raster_views(images@) == old(self)@.inputs.images
                        && version == InputSetVersion(old(self)@.inputs.version)) && final(self)@ == started(old(self)@)
                },
            },
    {
        match operation {
            WorkspaceOperation::Transform => match self.document_job(UiMessage::NeedImage) {
                Some(s) => Some(JobInputs::Document(s)),
                None => None,
            },
            WorkspaceOperation::StripExif => match self.document_job(UiMessage::NeedExifImage) {
                Some(s) => Some(JobInputs::Document(s)),
                None => None,
            },
            WorkspaceOperation::DecodeQr => match self.document_job(UiMessage::NeedQrImage) {
                Some(s) => Some(JobInputs::FirstImage(s.image)),
                None => None,
            },
            WorkspaceOperation::PreviewTransform => match self.preview_job() {
                Some((document, generation)) => Some(JobInputs::Preview { document, generation }),
                None => None,
            },
            WorkspaceOperation::ReadExif => match self.read_exif_job() {
                Some(b) => Some(JobInputs::SourceBytes(b)),
                None => None,
            },
            WorkspaceOperation::GenerateQr => if self.prepare_paste() {
                Some(JobInputs::Nothing)
            } else {
                None
            },
            WorkspaceOperation::Collage | WorkspaceOperation::MakeGif => match self.inputs_job() {
                Some((images, version)) => Some(JobInputs::Inputs { images, version }),
                None => None,
            },
        }
    }

    /// Starts exporting the applied document itself, even when the page also holds
    /// encoded bytes. Refused while busy; without a document the status asks for a result.
    pub fn prepare_document_export_path(&mut self, collision_policy: CollisionPolicy) -> (job: Option<ExportJob>)
        requires
            old(self).wf(),
        ensures
            final(self).wf(),
            old(self)@.busy ==> job is None && final(self)@ == with_status(old(self)@, UiMessage::Busy),
            !old(self)@.busy ==> match old(self)@.document {
                None => job is None && final(self)@ == with_status(old(self)@, UiMessage::NeedResult),
                Some(d) => (job matches Some(j) && j.source matches ExportSource::Image(s) && s.version == d.version
                    && s.image@ == d.current && s.image.wf() && j.collision_policy == collision_policy)
                    && final(self)@ == started(old(self)@),
            },
    {
        match self.document_job(UiMessage::NeedResult) {
            Some(snapshot) => Some(ExportJob { source: ExportSource::Image(snapshot), collision_policy }),
            None => None,
        }
    }

    /// Starts slicing the applied document into the tiles of `grid`. Refused while busy;
    /// without a document the status asks for an image.
    pub fn prepare_slice_directory(&mut self, grid: SliceGrid, collision_policy: CollisionPolicy) -> (job: Option<SliceJob>)
        requires
            old(self).wf(),
        ensures
            final(self).wf(),
            old(self)@.busy ==> job is None && final(self)@ == with_status(old(self)@, UiMessage::Busy),
            !old(self)@.busy ==> match old(self)@.document {
                None => job is None && final(self)@ == with_status(old(self)@, UiMessage::NeedImage),
                Some(d) => (job matches Some(j) && j.document.version == d.version && j.document.image@ == d.current
                    && j.document.image.wf() && j.grid == grid && j.collision_policy == collision_policy)
                    && final(self)@ == started(old(self)@),
            },
    {
        match self.document_job(UiMessage::NeedImage) {
            Some(document) => Some(SliceJob { document, grid, collision_policy }),
            None => None,
        }
    }

    /// Starts copying to the clipboard what a save would write (feature `encoded_kind`'s
    /// bytes when held, otherwise the applied document). Refused while busy; with nothing
    /// to copy the status asks for a result.
    pub fn prepare_copy(&mut self, encoded_kind: Option<EncodedResultKind>) -> (source: Option<ExportSource>)
        requires
            old(self).wf(),
        ensures
            final(self).wf(),
            old(self)@.busy ==> source is None && final(self)@ == with_status(old(self)@, UiMessage::Busy),
            !old(self)@.busy ==> spec_export_source_ok(old(self)@, encoded_kind, source) && match source {
                None => final(self)@ == with_status(old(self)@, UiMessage::NeedResult),
                Some(_) => final(self)@ == started(old(self)@),
            },
    {
        if self.busy {
            self.status = UiMessage::Busy;
            return None;
        }
        let source = self.export_source(encoded_kind);
        match source {
            Some(_) => self.start_job(),
            None => self.status = UiMessage::NeedResult,
        }
        source
    }

    /// The version of the input images.
    pub fn input_version(&self) -> (version: InputSetVersion)
        ensures
            version == InputSetVersion(self@.inputs.version),
    {
        self.input_set.version()
    }

    /// Whether a failed batch can be retried now.
    pub fn has_retry_batch(&self) -> (can: bool)
        ensures
            can == (self@.retry is Some && !self@.busy),
    {
        self.retry.is_some() && !self.busy
    }
}

} // verus!
