//! Structured status messages. A message keeps its meaning and numbers, never translated
//! text, so switching the language redraws existing messages in the new language.

use vstd::prelude::*;

use crate::text::{decimal, push_decimal, push_str};

verus! {

/// Kinds of failure shown to the user.
#[derive(Debug, Clone, Copy, PartialEq, Eq, Structural)]
pub enum ErrorKind {
    UnsupportedFormat,
    CorruptedImage,
    Encode,
    Operation,
    Exif,
    Qr,
    DiskFull,
    Permission,
    Io,
    Config,
    Clipboard,
    Skipped,
}

/// The message key of an error kind.
pub open spec fn spec_error_text_key(kind: ErrorKind) -> Seq<char> {
    match kind {
        ErrorKind::UnsupportedFormat => "error.unsupported_format"@,
        ErrorKind::CorruptedImage => "error.corrupted_image"@,
        ErrorKind::Encode => "error.encode"@,
        ErrorKind::Operation => "error.operation"@,
        ErrorKind::Exif => "error.exif"@,
        ErrorKind::Qr => "error.qr"@,
        ErrorKind::DiskFull => "error.disk_full"@,
        ErrorKind::Permission => "error.permission"@,
        ErrorKind::Io => "error.io"@,
        ErrorKind::Config => "error.config"@,
        ErrorKind::Clipboard => "error.clipboard"@,
        ErrorKind::Skipped => "error.skipped"@,
    }
}

impl ErrorKind {
    /// The message key of this kind.
    pub fn text_key(self) -> (key: &'static str)
        ensures
            key@ == spec_error_text_key(self),
    {
        match self {
            ErrorKind::UnsupportedFormat => "error.unsupported_format",
            ErrorKind::CorruptedImage => "error.corrupted_image",
            ErrorKind::Encode => "error.encode",
            ErrorKind::Operation => "error.operation",
            ErrorKind::Exif => "error.exif",
            ErrorKind::Qr => "error.qr",
            ErrorKind::DiskFull => "error.disk_full",
            ErrorKind::Permission => "error.permission",
            ErrorKind::Io => "error.io",
            ErrorKind::Config => "error.config",
            ErrorKind::Clipboard => "error.clipboard",
            ErrorKind::Skipped => "error.skipped",
        }
    }
}

/// One piece of a message: a message key to translate, or literal text.
#[derive(Debug, Clone)]
pub enum TextPart {
    /// A message key.
    Key(&'static str),
    /// Text shown as is.
    Literal(String),
}

/// A part as plain values: whether it is a key, and its text.
pub open spec fn part_view(part: TextPart) -> (bool, Seq<char>) {
    match part {
        TextPart::Key(k) => (true, k@),
        TextPart::Literal(s) => (false, s@),
    }
}

/// A status message.
#[derive(Debug, Clone, Copy, PartialEq, Eq, Structural)]
pub enum UiMessage {
    Empty,
    Processing,
    BatchProgress { completed: usize, total: usize },
    CancelledOpen,
    CancelledSave,
    LoadedImage,
    LoadedMultiple { successes: usize, failures: usize },
    SavedReady,
    Exported,
    ExportSkipped,
    ExifStripped,
    ExifRead,
    QrGenerated,
    QrDecoded,
    CollageReady,
    SlicesSaved { successes: usize, total: usize },
    GifReady,
    BatchComplete { successes: usize, failures: usize, total: usize },
    BatchCancelled { successes: usize, total: usize },
    BatchPresetSaved,
    BatchPresetApplied,
    ImagePasted,
    ImageCopied,
    UndoApplied { remaining: usize },
    RedoApplied { remaining: usize },
    OriginalRestored,
    AiResultOpened,
    SettingsSaved,
    ConfigReset,
    NeedImage,
    NeedMultipleImages,
    NeedResult,
    NeedExifImage,
    NeedQrImage,
    ClipboardHasNoImage,
    NeedText,
    Busy,
    Error(ErrorKind),
}

impl Default for UiMessage {
    fn default() -> (m: Self)
        ensures
            m == UiMessage::Empty,
    {
        UiMessage::Empty
    }
}

/// A key part.
pub open spec fn key(k: Seq<char>) -> (bool, Seq<char>) {
    (true, k)
}

/// A literal part.
pub open spec fn lit(s: Seq<char>) -> (bool, Seq<char>) {
    (false, s)
}

/// The parts of a message, in order; joined after translating the keys they are its text.
pub open spec fn spec_message_parts(m: UiMessage) -> Seq<(bool, Seq<char>)> {
    match m {
        UiMessage::Empty => Seq::empty(),
        UiMessage::Processing => seq![key("status.processing"@)],
        UiMessage::CancelledOpen => seq![key("status.cancelled_open"@)],
        UiMessage::CancelledSave => seq![key("status.cancelled_save"@)],
        UiMessage::LoadedImage => seq![key("status.loaded_image"@)],
        UiMessage::SavedReady => seq![key("status.ready_to_save"@)],
        UiMessage::Exported => seq![key("status.exported"@)],
        UiMessage::ExportSkipped => seq![key("status.export_skipped"@)],
        UiMessage::ExifStripped => seq![key("status.exif_stripped"@)],
        UiMessage::ExifRead => seq![key("status.exif_read"@)],
        UiMessage::QrGenerated => seq![key("status.qr_generated"@)],
        UiMessage::QrDecoded => seq![key("status.qr_decoded"@)],
        UiMessage::CollageReady => seq![key("status.collage_ready"@)],
        UiMessage::GifReady => seq![key("status.gif_ready"@)],
        UiMessage::ImagePasted => seq![key("status.image_pasted"@)],
        UiMessage::ImageCopied => seq![key("status.image_copied"@)],
        UiMessage::BatchPresetSaved => seq![key("status.batch_preset_saved"@)],
        UiMessage::BatchPresetApplied => seq![key("status.batch_preset_applied"@)],
        UiMessage::OriginalRestored => seq![key("status.original_restored"@)],
        UiMessage::AiResultOpened => seq![key("status.ai_result_opened"@)],
        UiMessage::SettingsSaved => seq![key("status.settings_saved"@)],
        UiMessage::ConfigReset => seq![key("status.config_reset"@)],
        UiMessage::NeedImage => seq![key("validation.need_image"@)],
        UiMessage::NeedMultipleImages => seq![key("validation.need_multiple_images"@)],
        UiMessage::NeedResult => seq![key("validation.need_result"@)],
        UiMessage::NeedExifImage => seq![key("validation.need_exif_image"@)],
        UiMessage::NeedQrImage => seq![key("validation.need_qr_image"@)],
        UiMessage::ClipboardHasNoImage => seq![key("validation.clipboard_no_image"@)],
        UiMessage::NeedText => seq![key("validation.need_text"@)],
        UiMessage::Busy => seq![key("validation.busy"@)],
        UiMessage::BatchProgress { completed, total } => seq![
            key("status.batch_progress"@),
            lit(": "@ + decimal(completed as nat) + "/"@ + decimal(total as nat)),
        ],
        UiMessage::LoadedMultiple { successes, failures } => seq![
            key("status.successes"@),
            lit(": "@ + decimal(successes as nat) + " · "@),
            key("status.failures"@),
            lit(": "@ + decimal(failures as nat)),
        ],
        UiMessage::SlicesSaved { successes, total } => seq![
            key("status.slices_saved"@),
            lit(": "@ + decimal(successes as nat) + "/"@ + decimal(total as nat)),
        ],
        UiMessage::BatchComplete { successes, failures, total } => seq![
            key("status.successes"@),
            lit(": "@ + decimal(successes as nat) + " · "@),
            key("status.failures"@),
            lit(": "@ + decimal(failures as nat) + " · "@),
            key("status.total"@),
            lit(": "@ + decimal(total as nat)),
        ],
        UiMessage::UndoApplied { remaining } => seq![
            key("status.undo_applied"@),
            lit(" · "@),
            key("status.remaining"@),
            lit(": "@ + decimal(remaining as nat)),
        ],
        UiMessage::RedoApplied { remaining } => seq![
            key("status.redo_applied"@),
            lit(" · "@),
            key("status.remaining"@),
            lit(": "@ + decimal(remaining as nat)),
        ],
        UiMessage::BatchCancelled { successes, total } => seq![
            key("status.batch_cancelled"@),
            lit(" · "@),
            key("status.successes"@),
            lit(": "@ + decimal(successes as nat) + "/"@ + decimal(total as nat)),
        ],
        UiMessage::Error(kind) => seq![key(spec_error_text_key(kind))],
    }
}

fn count_text(prefix: &str, n: usize, middle: &str, m: usize, suffix: &str) -> (text: String)
    ensures
        text@ == prefix@ + decimal(n as nat) + middle@ + decimal(m as nat) + suffix@,
{
    let mut text = String::new();
    push_str(&mut text, prefix);
    push_decimal(&mut text, n as u64);
    push_str(&mut text, middle);
    push_decimal(&mut text, m as u64);
    push_str(&mut text, suffix);
    text
}

fn number_text(prefix: &str, n: usize, suffix: &str) -> (text: String)
    ensures
        text@ == prefix@ + decimal(n as nat) + suffix@,
{
    let mut text = String::new();
    push_str(&mut text, prefix);
    push_decimal(&mut text, n as u64);
    push_str(&mut text, suffix);
    text
}

fn literal(text: &str) -> (part: TextPart)
    ensures
        part_view(part) == lit(text@),
{
    TextPart::Literal(String::from_str(text))
}

impl UiMessage {
    /// The parts of this message: message keys to translate and literal text, in order.
    pub fn text_parts(&self) -> (parts: Vec<TextPart>)
        ensures
            parts@.map_values(|p: TextPart| part_view(p)) == spec_message_parts(*self),
    {
        proof {
            reveal_strlit(": ");
            reveal_strlit("/");
            reveal_strlit(" · ");
            reveal_strlit("");
        }
        let mut parts: Vec<TextPart> = Vec::new();
        match *self {
            UiMessage::Empty => {},
            UiMessage::Processing => {
                parts.push(TextPart::Key("status.processing"));
            },
            UiMessage::CancelledOpen => {
                parts.push(TextPart::Key("status.cancelled_open"));
            },
            UiMessage::CancelledSave => {
                parts.push(TextPart::Key("status.cancelled_save"));
            },
            UiMessage::LoadedImage => {
                parts.push(TextPart::Key("status.loaded_image"));
            },
            UiMessage::SavedReady => {
                parts.push(TextPart::Key("status.ready_to_save"));
            },
            UiMessage::Exported => {
                parts.push(TextPart::Key("status.exported"));
            },
            UiMessage::ExportSkipped => {
                parts.push(TextPart::Key("status.export_skipped"));
            },
            UiMessage::ExifStripped => {
                parts.push(TextPart::Key("status.exif_stripped"));
            },
            UiMessage::ExifRead => {
                parts.push(TextPart::Key("status.exif_read"));
            },
            UiMessage::QrGenerated => {
                parts.push(TextPart::Key("status.qr_generated"));
            },
            UiMessage::QrDecoded => {
                parts.push(TextPart::Key("status.qr_decoded"));
            },
            UiMessage::CollageReady => {
                parts.push(TextPart::Key("status.collage_ready"));
            },
            UiMessage::GifReady => {
                parts.push(TextPart::Key("status.gif_ready"));
            },
            UiMessage::ImagePasted => {
                parts.push(TextPart::Key("status.image_pasted"));
            },
            UiMessage::ImageCopied => {
                parts.push(TextPart::Key("status.image_copied"));
            },
            UiMessage::BatchPresetSaved => {
                parts.push(TextPart::Key("status.batch_preset_saved"));
            },
            UiMessage::BatchPresetApplied => {
                parts.push(TextPart::Key("status.batch_preset_applied"));
            },
            UiMessage::OriginalRestored => {
                parts.push(TextPart::Key("status.original_restored"));
            },
            UiMessage::AiResultOpened => {
                parts.push(TextPart::Key("status.ai_result_opened"));
            },
            UiMessage::SettingsSaved => {
                parts.push(TextPart::Key("status.settings_saved"));
            },
            UiMessage::ConfigReset => {
                parts.push(TextPart::Key("status.config_reset"));
            },
            UiMessage::NeedImage => {
                parts.push(TextPart::Key("validation.need_image"));
            },
            UiMessage::NeedMultipleImages => {
                parts.push(TextPart::Key("validation.need_multiple_images"));
            },
            UiMessage::NeedResult => {
                parts.push(TextPart::Key("validation.need_result"));
            },
            UiMessage::NeedExifImage => {
                parts.push(TextPart::Key("validation.need_exif_image"));
            },
            UiMessage::NeedQrImage => {
                parts.push(TextPart::Key("validation.need_qr_image"));
            },
            UiMessage::ClipboardHasNoImage => {
                parts.push(TextPart::Key("validation.clipboard_no_image"));
            },
            UiMessage::NeedText => {
                parts.push(TextPart::Key("validation.need_text"));
            },
            UiMessage::Busy => {
                parts.push(TextPart::Key("validation.busy"));
            },
            UiMessage::BatchProgress { completed, total } => {
                parts.push(TextPart::Key("status.batch_progress"));
                parts.push(TextPart::Literal(count_text(": ", completed, "/", total, "")));
            },
            UiMessage::LoadedMultiple { successes, failures } => {
                parts.push(TextPart::Key("status.successes"));
                parts.push(TextPart::Literal(number_text(": ", successes, " · ")));
                parts.push(TextPart::Key("status.failures"));
                parts.push(TextPart::Literal(number_text(": ", failures, "")));
            },
            UiMessage::SlicesSaved { successes, total } => {
                parts.push(TextPart::Key("status.slices_saved"));
                parts.push(TextPart::Literal(count_text(": ", successes, "/", total, "")));
            },
            UiMessage::BatchComplete { successes, failures, total } => {
                parts.push(TextPart::Key("status.successes"));
                parts.push(TextPart::Literal(number_text(": ", successes, " · ")));
                parts.push(TextPart::Key("status.failures"));
                parts.push(TextPart::Literal(number_text(": ", failures, " · ")));
                parts.push(TextPart::Key("status.total"));
                parts.push(TextPart::Literal(number_text(": ", total, "")));
            },
            UiMessage::UndoApplied { remaining } => {
                parts.push(TextPart::Key("status.undo_applied"));
                parts.push(literal(" · "));
                parts.push(TextPart::Key("status.remaining"));
                parts.push(TextPart::Literal(number_text(": ", remaining, "")));
            },
            UiMessage::RedoApplied { remaining } => {
                parts.push(TextPart::Key("status.redo_applied"));
                parts.push(literal(" · "));
                parts.push(TextPart::Key("status.remaining"));
                parts.push(TextPart::Literal(number_text(": ", remaining, "")));
            },
            UiMessage::BatchCancelled { successes, total } => {
                parts.push(TextPart::Key("status.batch_cancelled"));
                parts.push(literal(" · "));
                parts.push(TextPart::Key("status.successes"));
                parts.push(TextPart::Literal(count_text(": ", successes, "/", total, "")));
            },
            UiMessage::Error(kind) => {
                parts.push(TextPart::Key(kind.text_key()));
            },
        }
        assert(parts@.map_values(|p: TextPart| part_view(p)) =~= spec_message_parts(*self));
        parts
    }
}

/// How one batch item ended.
#[derive(Debug, Clone, Copy, PartialEq, Eq, Structural)]
pub enum BatchItemOutcome {
    Success,
    Failure(ErrorKind),
    Cancelled,
}

/// One line of a batch report.
#[derive(Debug, Clone)]
pub struct BatchItemResult {
    /// Item name.
    pub name: String,
    /// Output width, when written.
    pub width: Option<u32>,
    /// Output height, when written.
    pub height: Option<u32>,
    /// Output size in bytes, when written.
    pub bytes: Option<usize>,
    /// How it ended.
    pub outcome: BatchItemOutcome,
}

} // verus!
