//! Errors of the image core, carried as plain values.

use vstd::prelude::*;

use crate::format::{spec_display_name, OutputFormat};
use crate::text::{decimal, push_decimal, push_str};

verus! {

/// Why an image operation failed.
#[derive(Debug, Clone)]
pub enum CoreError {
    /// A parameter is outside the range the operation accepts.
    InvalidArgument(String),
    /// A decoded canvas would exceed the pixel budget.
    ImageTooLarge {
        /// Declared width.
        width: u32,
        /// Declared height.
        height: u32,
        /// The largest number of pixels that may be decoded.
        max_pixels: u64,
    },
    /// The WebP codec refused the data.
    Webp {
        /// `decode` or `encode`.
        operation: String,
        /// What went wrong.
        detail: String,
    },
    /// The bytes are not an image of a supported format.
    ImageDecode {
        /// What went wrong.
        detail: String,
    },
    /// The encoder for a format failed.
    ImageEncode {
        /// The format being written.
        format: OutputFormat,
        /// What went wrong.
        detail: String,
    },
    /// The GIF encoder failed.
    GifEncode {
        /// What went wrong.
        detail: String,
    },
    /// Reading or removing metadata failed.
    Exif {
        /// What went wrong.
        detail: String,
    },
    /// The configuration text could not be parsed.
    ConfigParse {
        /// What went wrong.
        detail: String,
    },
    /// The configuration could not be written as text.
    ConfigSerialize {
        /// What went wrong.
        detail: String,
    },
}

/// The text of an error, as shown to people.
pub open spec fn spec_error_message(error: CoreError) -> Seq<char> {
    match error {
        CoreError::InvalidArgument(detail) => "invalid argument: "@ + detail@,
        CoreError::ImageTooLarge { width, height, max_pixels } => "image of "@ + decimal(width as nat)
            + "×"@ + decimal(height as nat) + " exceeds "@ + decimal(max_pixels as nat) + " pixels"@,
        CoreError::Webp { operation, detail } => "WebP "@ + operation@ + " failed: "@ + detail@,
        CoreError::ImageDecode { detail } => "image decoding failed: "@ + detail@,
        CoreError::ImageEncode { format, detail } => spec_display_name(format) + " encoding failed: "@
            + detail@,
        CoreError::GifEncode { detail } => "GIF encoding failed: "@ + detail@,
        CoreError::Exif { detail } => "metadata operation failed: "@ + detail@,
        CoreError::ConfigParse { detail } => "configuration parsing failed: "@ + detail@,
        CoreError::ConfigSerialize { detail } => "configuration serialization failed: "@ + detail@,
    }
}

impl CoreError {
    /// The text of the error, as shown to people.
    pub fn message(&self) -> (text: String)
        ensures
            text@ == spec_error_message(*self),
    {
        let mut text = String::new();
        match self {
            CoreError::InvalidArgument(detail) => {
                push_str(&mut text, "invalid argument: ");
                push_str(&mut text, detail.as_str());
            },
            CoreError::ImageTooLarge { width, height, max_pixels } => {
                push_str(&mut text, "image of ");
                push_decimal(&mut text, *width as u64);
                push_str(&mut text, "×");
                push_decimal(&mut text, *height as u64);
                push_str(&mut text, " exceeds ");
                push_decimal(&mut text, *max_pixels);
                push_str(&mut text, " pixels");
            },
            CoreError::Webp { operation, detail } => {
                push_str(&mut text, "WebP ");
                push_str(&mut text, operation.as_str());
                push_str(&mut text, " failed: ");
                push_str(&mut text, detail.as_str());
            },
            CoreError::ImageDecode { detail } => {
                push_str(&mut text, "image decoding failed: ");
                push_str(&mut text, detail.as_str());
            },
            CoreError::ImageEncode { format, detail } => {
                push_str(&mut text, format.display_name());
                push_str(&mut text, " encoding failed: ");
                push_str(&mut text, detail.as_str());
            },
            CoreError::GifEncode { detail } => {
                push_str(&mut text, "GIF encoding failed: ");
                push_str(&mut text, detail.as_str());
            },
            CoreError::Exif { detail } => {
                push_str(&mut text, "metadata operation failed: ");
                push_str(&mut text, detail.as_str());
            },
            CoreError::ConfigParse { detail } => {
                push_str(&mut text, "configuration parsing failed: ");
                push_str(&mut text, detail.as_str());
            },
            CoreError::ConfigSerialize { detail } => {
                push_str(&mut text, "configuration serialization failed: ");
                push_str(&mut text, detail.as_str());
            },
        }
        proof {
            assert(text@ =~= spec_error_message(*self));
        }
        text
    }
}

} // verus!
