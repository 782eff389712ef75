//! Rules of the image workspace that do not depend on a window: which files can be
//! opened, how clipboard payloads are labelled, how batch items are named and how
//! library errors are reported.

use vstd::prelude::*;

use crate::error::CoreError;
use crate::format::{decode, is_supported_input, sniffed_kind, spec_decoded, ImageKind};
use crate::raster::Raster;
use crate::text::{
    ascii_lowercase_chars, chars_equal, chars_of, decimal, push_char, push_decimal,
    seq_ascii_lower,
};
use crate::ui_message::ErrorKind;

verus! {

/// Index of the dot that starts the extension of `name`: the last dot, unless it is the
/// first character (a hidden file such as `.png` has no extension).
pub open spec fn extension_dot(name: Seq<char>) -> Option<int> {
    if exists|i: int| 0 < i < name.len() && name[i] == '.' {
        let i = choose|i: int|
            0 < i < name.len() && name[i] == '.' && forall|j: int|
                i < j < name.len() ==> name[j] != '.';
        Some(i)
    } else {
        None
    }
}

/// The extension of a file name, as `Path::extension` gives it for a single component.
pub open spec fn file_extension(name: Seq<char>) -> Option<Seq<char>> {
    match extension_dot(name) {
        Some(i) => Some(name.skip(i + 1)),
        None => None,
    }
}

/// The image extensions the workspace opens (compared without regard to ASCII case).
pub open spec fn is_image_extension(lower: Seq<char>) -> bool {
    lower == "png"@ || lower == "jpg"@ || lower == "jpeg"@ || lower == "webp"@ || lower
        == "bmp"@ || lower == "gif"@
}

/// Whether a file of this name is offered to the decoders.
pub open spec fn spec_is_supported_image_name(name: Seq<char>) -> bool {
    match file_extension(name) {
        Some(ext) => is_image_extension(seq_ascii_lower(ext)),
        None => false,
    }
}

/// The index of the last dot of `chars` after its first character, if any.
fn last_extension_dot(chars: &Vec<char>) -> (dot: Option<usize>)
    ensures
        match dot {
            Some(i) => 0 < i < chars.len() && extension_dot(chars@) == Some(i as int),
            None => extension_dot(chars@) is None,
        },
{
    let mut i: usize = chars.len();
    while i > 1
        invariant
            i <= chars.len(),
            forall|j: int| i <= j < chars.len() ==> chars@[j] != '.',
        decreases i,
    {
        if chars[i - 1] == '.' {
            let k = i - 1;
            proof {
                let w = choose|w: int|
                    0 < w < chars@.len() && chars@[w] == '.' && forall|j: int|
                        w < j < chars@.len() ==> chars@[j] != '.';
                assert(0 < k < chars@.len() && chars@[k as int] == '.' && forall|j: int|
                    k < j < chars@.len() ==> chars@[j] != '.');
                if w < k {
                    assert(chars@[k as int] != '.');
                } else if w > k {
                    assert(chars@[w] != '.');
                }
            }
            return Some(k);
        }
        i = i - 1;
    }
    proof {
        if exists|w: int| 0 < w < chars@.len() && chars@[w] == '.' {
            let w = choose|w: int| 0 < w < chars@.len() && chars@[w] == '.';
            assert(chars@[w] != '.');
        }
    }
    None
}

/// Whether `file_name` (the last component of a path) has one of the image extensions
/// png, jpg, jpeg, webp, bmp or gif, in any ASCII case.
pub fn is_supported_image_path(file_name: &str) -> (supported: bool)
    ensures
        supported == spec_is_supported_image_name(file_name@),
{
    let chars = chars_of(file_name);
    match last_extension_dot(&chars) {
        None => false,
        Some(dot) => {
            let mut ext: Vec<char> = Vec::new();
            let mut i: usize = dot + 1;
            while i < chars.len()
                invariant
                    dot < i <= chars.len(),
                    ext@ == seq_ascii_lower(chars@.subrange(dot + 1, i as int)),
                decreases chars.len() - i,
            {
                ext.push(crate::text::char_to_ascii_lowercase(chars[i]));
                i = i + 1;
                assert(ext@ =~= seq_ascii_lower(chars@.subrange(dot + 1, i as int)));
            }
            assert(chars@.subrange(dot + 1, chars@.len() as int) =~= chars@.skip(dot + 1));
            chars_equal(&ext, "png") || chars_equal(&ext, "jpg") || chars_equal(&ext, "jpeg")
                || chars_equal(&ext, "webp") || chars_equal(&ext, "bmp") || chars_equal(
                &ext,
                "gif",
            )
        },
    }
}

/// The clipboard representation of encoded bytes.
#[derive(Debug, Clone, Copy, PartialEq, Eq, Structural)]
pub enum ClipboardFormat {
    Png,
    Jpeg,
    Webp,
    Gif,
    Bmp,
}

/// The clipboard format announced for bytes with this file extension; unknown
/// extensions are announced as PNG.
pub open spec fn spec_clipboard_format(extension: Seq<char>) -> ClipboardFormat {
    if extension == "jpg"@ || extension == "jpeg"@ {
        ClipboardFormat::Jpeg
    } else if extension == "webp"@ {
        ClipboardFormat::Webp
    } else if extension == "gif"@ {
        ClipboardFormat::Gif
    } else if extension == "bmp"@ {
        ClipboardFormat::Bmp
    } else {
        ClipboardFormat::Png
    }
}

impl ClipboardFormat {
    /// The format for an extension (matched exactly, as the encoders write them).
    pub fn from_extension(extension: &str) -> (format: ClipboardFormat)
        ensures
            format == spec_clipboard_format(extension@),
    {
        let chars = chars_of(extension);
        if chars_equal(&chars, "jpg") || chars_equal(&chars, "jpeg") {
            ClipboardFormat::Jpeg
        } else if chars_equal(&chars, "webp") {
            ClipboardFormat::Webp
        } else if chars_equal(&chars, "gif") {
            ClipboardFormat::Gif
        } else if chars_equal(&chars, "bmp") {
            ClipboardFormat::Bmp
        } else {
            ClipboardFormat::Png
        }
    }
}

/// The label of batch item `index`: its source name, or `#n` (one-based) when the name
/// is missing or empty.
pub open spec fn spec_batch_item_name(names: Seq<Seq<char>>, index: nat) -> Seq<char> {
    if index < names.len() && names[index as int].len() > 0 {
        names[index as int]
    } else {
        seq!['#'] + decimal(index + 1)
    }
}

/// The views of a list of strings.
pub open spec fn name_views(names: Seq<String>) -> Seq<Seq<char>> {
    names.map_values(|s: String| s@)
}

/// The label of batch item `index` (see [`spec_batch_item_name`]).
pub fn batch_item_name(names: &Vec<String>, index: usize) -> (name: String)
    requires
        index < u64::MAX,
    ensures
        name@ == spec_batch_item_name(name_views(names@), index as nat),
{
    if index < names.len() {
        let candidate = names[index].as_str();
        let chars = chars_of(candidate);
        if chars.len() > 0 {
            let mut out = String::new();
            crate::text::push_chars(&mut out, &chars);
            assert(Seq::<char>::empty() + chars@ =~= chars@);
            return out;
        }
    }
    let mut out = String::new();
    push_char(&mut out, '#');
    push_decimal(&mut out, (index as u64) + 1);
    assert(out@ =~= seq!['#'] + decimal(index as nat + 1));
    out
}

/// How a library error is reported: encoder failures as encoding errors, everything
/// else as a failed operation.
pub open spec fn spec_core_error_kind(error: CoreError) -> ErrorKind {
    match error {
        CoreError::ImageEncode { .. } => ErrorKind::Encode,
        CoreError::Webp { .. } => ErrorKind::Encode,
        _ => ErrorKind::Operation,
    }
}

/// The reported kind of a library error.
pub fn core_error_kind(error: &CoreError) -> (kind: ErrorKind)
    ensures
        kind == spec_core_error_kind(*error),
{
    match error {
        CoreError::ImageEncode { .. } => ErrorKind::Encode,
        CoreError::Webp { .. } => ErrorKind::Encode,
        _ => ErrorKind::Operation,
    }
}

/// Decodes opened or pasted bytes: content that is not a supported format is refused as
/// unsupported, content that does not decode as corrupted (with the decoder's message).
pub fn decode_input(bytes: &[u8]) -> (decoded: Result<Raster, (ErrorKind, String)>)
    ensures
        sniffed_kind(bytes@) == ImageKind::Other ==> (decoded matches Err((kind, _)) && kind
            == ErrorKind::UnsupportedFormat),
        sniffed_kind(bytes@) != ImageKind::Other ==> match spec_decoded(bytes@) {
            Some(view) => (decoded matches Ok(image) && image@ == view && image.wf()),
            None => (decoded matches Err((kind, _)) && kind == ErrorKind::CorruptedImage),
        },
{
    if !is_supported_input(bytes) {
        return Err((ErrorKind::UnsupportedFormat, String::from_str("input magic does not match a supported format")));
    }
    match decode(bytes) {
        Ok(image) => Ok(image),
        Err(error) => Err((ErrorKind::CorruptedImage, error.message())),
    }
}

} // verus!
