//! Output formats, encoding settings, and decoding and encoding of image bytes.
//!
//! Pixels are always handled as RGBA; encoding degrades as the target format requires
//! (JPEG has no alpha channel, so it is composited onto opaque white first).

use vstd::prelude::*;

use vstd::arithmetic::div_mod::lemma_fundamental_div_mod_converse;

use crate::error::CoreError;
use crate::raster::{rgba_len, Raster, RasterView};
use crate::text::{ascii_lowercase_chars, chars_equal, seq_ascii_lower};

use image::ImageEncoder;

verus! {

/// Image formats the toolbox exports.
#[derive(Debug, Clone, Copy, PartialEq, Eq, Structural)]
pub enum OutputFormat {
    /// Lossless, keeps transparency.
    Png,
    /// Lossy, no transparency.
    Jpeg,
    /// Lossy or lossless, keeps transparency when lossless.
    Webp,
}

/// The canonical file extension of a format, without the dot.
pub open spec fn spec_extension(format: OutputFormat) -> Seq<char> {
    match format {
        OutputFormat::Png => seq!['p', 'n', 'g'],
        OutputFormat::Jpeg => seq!['j', 'p', 'g'],
        OutputFormat::Webp => seq!['w', 'e', 'b', 'p'],
    }
}

/// The name of a format as shown to people.
pub open spec fn spec_display_name(format: OutputFormat) -> Seq<char> {
    match format {
        OutputFormat::Png => seq!['P', 'N', 'G'],
        OutputFormat::Jpeg => seq!['J', 'P', 'E', 'G'],
        OutputFormat::Webp => seq!['W', 'e', 'b', 'P'],
    }
}

impl OutputFormat {
    /// The standard extension of this format (without the dot).
    pub fn extension(self) -> (ext: &'static str)
        ensures
            ext@ == spec_extension(self),
    {
        match self {
            OutputFormat::Png => {
                proof {
                    reveal_strlit("png");
                }
                "png"
            },
            OutputFormat::Jpeg => {
                proof {
                    reveal_strlit("jpg");
                }
                "jpg"
            },
            OutputFormat::Webp => {
                proof {
                    reveal_strlit("webp");
                }
                "webp"
            },
        }
    }

    /// Whether the format keeps an alpha channel.
    pub fn supports_transparency(self) -> (keeps: bool)
        ensures
            keeps <==> self != OutputFormat::Jpeg,
    {
        !matches!(self, OutputFormat::Jpeg)
    }

    /// The name shown to people: `PNG`, `JPEG` or `WebP`.
    pub fn display_name(self) -> (name: &'static str)
        ensures
            name@ == spec_display_name(self),
    {
        match self {
            OutputFormat::Png => {
                proof {
                    reveal_strlit("PNG");
                }
                "PNG"
            },
            OutputFormat::Jpeg => {
                proof {
                    reveal_strlit("JPEG");
                }
                "JPEG"
            },
            OutputFormat::Webp => {
                proof {
                    reveal_strlit("WebP");
                }
                "WebP"
            },
        }
    }
}

/// Quality of a lossy encoding, from 1 to 100, handed to the encoder unchanged.
#[derive(Debug, Clone, Copy, PartialEq, Eq, Structural, PartialOrd, Ord)]
pub struct Quality {
    value: u8,
}

impl Quality {
    #[verifier::type_invariant]
    spec fn in_range(self) -> bool {
        1 <= self.value <= 100
    }

    /// The quality value.
    pub closed spec fn spec_value(self) -> u8 {
        self.value
    }

    /// A quality of `value`; values outside 1–100 are refused.
    pub fn new(value: u8) -> (quality: Result<Quality, CoreError>)
        ensures
            quality is Ok <==> 1 <= value <= 100,
            quality matches Ok(q) ==> q.spec_value() == value,
            quality matches Err(e) ==> e is InvalidArgument,
    {
        if 1 <= value && value <= 100 {
            Ok(Quality { value })
        } else {
            Err(CoreError::InvalidArgument(String::from_str("quality must be between 1 and 100")))
        }
    }

    /// The raw value.
    pub fn get(self) -> (value: u8)
        ensures
            value == self.spec_value(),
            1 <= value <= 100,
    {
        proof {
            use_type_invariant(&self);
        }
        self.value
    }
}

impl Default for Quality {
    /// 85, a common balance between appearance and size.
    fn default() -> (quality: Self)
        ensures
            quality.spec_value() == 85,
    {
        Quality { value: 85 }
    }
}

/// PNG compression effort; it changes size and time, never pixels.
#[derive(Debug, Clone, Copy, PartialEq, Eq, Structural)]
pub enum PngCompression {
    /// Fastest, largest.
    Fast,
    /// Balanced.
    Default,
    /// Smallest, slowest.
    Best,
}

impl Default for PngCompression {
    fn default() -> (compression: Self)
        ensures
            compression == PngCompression::Default,
    {
        PngCompression::Default
    }
}

/// Encoding parameters; each format carries only the options it has.
#[derive(Debug, Clone, Copy, PartialEq, Eq, Structural)]
pub enum EncodeSettings {
    /// Lossless PNG, keeps transparency.
    Png {
        /// Compression effort.
        compression: PngCompression,
    },
    /// Lossy JPEG; alpha is dropped by compositing onto white.
    Jpeg {
        /// Quality 1–100.
        quality: Quality,
    },
    /// Lossy WebP.
    WebpLossy {
        /// Quality 1–100.
        quality: Quality,
    },
    /// Lossless WebP, keeps transparency.
    WebpLossless,
}

/// The output format of encoding settings.
pub open spec fn spec_settings_format(settings: EncodeSettings) -> OutputFormat {
    match settings {
        EncodeSettings::Png { .. } => OutputFormat::Png,
        EncodeSettings::Jpeg { .. } => OutputFormat::Jpeg,
        EncodeSettings::WebpLossy { .. } => OutputFormat::Webp,
        EncodeSettings::WebpLossless => OutputFormat::Webp,
    }
}

impl EncodeSettings {
    /// The output format these settings produce.
    pub fn format(self) -> (format: OutputFormat)
        ensures
            format == spec_settings_format(self),
    {
        match self {
            EncodeSettings::Png { .. } => OutputFormat::Png,
            EncodeSettings::Jpeg { .. } => OutputFormat::Jpeg,
            EncodeSettings::WebpLossy { .. } => OutputFormat::Webp,
            EncodeSettings::WebpLossless => OutputFormat::Webp,
        }
    }

    /// Whether decoding the output gives back exactly the input pixels.
    pub fn is_lossless(self) -> (lossless: bool)
        ensures
            lossless <==> (self is Png || self is WebpLossless),
    {
        matches!(self, EncodeSettings::Png { .. } | EncodeSettings::WebpLossless)
    }
}

/// The kind of image a byte stream announces in its first bytes.
#[derive(Debug, Clone, Copy, PartialEq, Eq, Structural)]
pub enum ImageKind {
    /// PNG signature.
    Png,
    /// JPEG start-of-image marker.
    Jpeg,
    /// GIF87a or GIF89a.
    Gif,
    /// RIFF container of type WEBP.
    Webp,
    /// `BM`.
    Bmp,
    /// Anything else, known or not.
    Other,
}

/// `bytes` begins with `prefix`.
pub open spec fn starts_with(bytes: Seq<u8>, prefix: Seq<u8>) -> bool {
    bytes.len() >= prefix.len() && bytes.take(prefix.len() as int) == prefix
}

/// The kind announced by the leading bytes (the magic numbers that `image::guess_format`
/// recognises for these five formats).
pub open spec fn sniffed_kind(bytes: Seq<u8>) -> ImageKind {
    if starts_with(bytes, seq![0x89u8, 0x50u8, 0x4eu8, 0x47u8, 0x0du8, 0x0au8, 0x1au8, 0x0au8]) {
        ImageKind::Png
    } else if starts_with(bytes, seq![0xffu8, 0xd8u8, 0xffu8]) {
        ImageKind::Jpeg
    } else if starts_with(bytes, seq![0x47u8, 0x49u8, 0x46u8, 0x38u8, 0x39u8, 0x61u8])
        || starts_with(bytes, seq![0x47u8, 0x49u8, 0x46u8, 0x38u8, 0x37u8, 0x61u8]) {
        ImageKind::Gif
    } else if bytes.len() >= 12 && bytes.take(4) == seq![0x52u8, 0x49u8, 0x46u8, 0x46u8]
        && bytes.subrange(8, 12) == seq![0x57u8, 0x45u8, 0x42u8, 0x50u8] {
        ImageKind::Webp
    } else if starts_with(bytes, seq![0x42u8, 0x4du8]) {
        ImageKind::Bmp
    } else {
        ImageKind::Other
    }
}

/// `image::guess_format`, reduced to the five supported kinds. Its signature table is
/// checked in order; the five signatures here start with distinct bytes that no earlier
/// entry of the table shares, so the first match for them is the one stated.
#[verifier::external_body]
fn guess_kind(bytes: &[u8]) -> (kind: ImageKind)
    ensures
        kind == sniffed_kind(bytes@),
{
    match image::guess_format(bytes) {
        Ok(image::ImageFormat::Png) => ImageKind::Png,
        Ok(image::ImageFormat::Jpeg) => ImageKind::Jpeg,
        Ok(image::ImageFormat::Gif) => ImageKind::Gif,
        Ok(image::ImageFormat::WebP) => ImageKind::Webp,
        Ok(image::ImageFormat::Bmp) => ImageKind::Bmp,
        _ => ImageKind::Other,
    }
}

/// What the `image` crate's reader gives for `bytes` (format guessed from content, then
/// decoded and converted to RGBA), or its error text.
pub uninterp spec fn image_crate_decoding(bytes: Seq<u8>) -> Result<RasterView, Seq<char>>;

/// `image::ImageReader::new(..).with_guessed_format()` then `decode()` and `to_rgba8()`.
/// The result is an RGBA buffer of exactly four bytes per pixel.
#[verifier::external_body]
fn decode_with_image_crate(bytes: &[u8]) -> (decoded: Result<Raster, String>)
    ensures
        decoded matches Ok(img) ==> img.wf() && (image_crate_decoding(bytes@) matches Ok(got) && got == img@),
        decoded matches Err(text) ==> (image_crate_decoding(bytes@) matches Err(got) && got == text@),
{
    let reader = match image::ImageReader::new(std::io::Cursor::new(bytes)).with_guessed_format() {
        Ok(reader) => reader,
        Err(error) => return Err(error.to_string()),
    };
    match reader.decode() {
        Ok(img) => {
            let rgba = img.to_rgba8();
            Ok(Raster { width: rgba.width(), height: rgba.height(), pixels: rgba.into_raw() })
        },
        Err(error) => Err(error.to_string()),
    }
}

/// The canvas size a WebP bitstream header declares, if the header parses.
pub uninterp spec fn webp_header(bytes: Seq<u8>) -> Option<(u32, u32)>;

/// `webp::BitstreamFeatures::new` (libwebp `WebPGetFeatures`): reads the header only and
/// allocates no pixels.
#[verifier::external_body]
fn webp_header_size(bytes: &[u8]) -> (size: Option<(u32, u32)>)
    ensures
        size == webp_header(bytes@),
{
    match webp::BitstreamFeatures::new(bytes) {
        Some(features) => Some((features.width(), features.height())),
        None => None,
    }
}

/// What libwebp decodes from `bytes`: width, height, whether the samples are RGBA (else
/// RGB), and the samples.
pub uninterp spec fn webp_decoding(bytes: Seq<u8>) -> Option<(u32, u32, bool, Seq<u8>)>;

/// `webp::Decoder::new(bytes).decode()`.
#[verifier::external_body]
fn webp_decode(bytes: &[u8]) -> (decoded: Option<(u32, u32, bool, Vec<u8>)>)
    ensures
        decoded matches Some(d) ==> webp_decoding(bytes@) == Some((d.0, d.1, d.2, d.3@)),
        decoded is None ==> webp_decoding(bytes@) is None,
{
    match webp::Decoder::new(bytes).decode() {
        Some(img) => Some((img.width(), img.height(), img.is_alpha(), img.to_vec())),
        None => None,
    }
}

/// The largest canvas, in pixels, that WebP decoding accepts (a 512 MiB RGBA buffer).
pub const MAX_DECODE_PIXELS: u64 = 512 * 1024 * 1024 / 4;

/// RGB samples widened to RGBA with an opaque alpha.
pub open spec fn rgb_to_rgba(rgb: Seq<u8>) -> Seq<u8> {
    Seq::new(
        (rgb.len() / 3 * 4) as nat,
        |i: int|
            if i % 4 == 3 {
                255u8
            } else {
                rgb[i / 4 * 3 + i % 4]
            },
    )
}

/// The image a WebP stream decodes to, when libwebp's samples match its dimensions.
pub open spec fn webp_image(bytes: Seq<u8>) -> Option<RasterView> {
    match webp_decoding(bytes) {
        Some((w, h, alpha, samples)) => if alpha && samples.len() == rgba_len(w as int, h as int) {
            Some(RasterView { width: w, height: h, pixels: samples })
        } else if !alpha && samples.len() == 3 * (w * h) {
            Some(RasterView { width: w, height: h, pixels: rgb_to_rgba(samples) })
        } else {
            None
        },
        None => None,
    }
}

/// The WebP header declares a canvas within the pixel budget.
pub open spec fn webp_within_budget(bytes: Seq<u8>) -> bool {
    match webp_header(bytes) {
        Some((w, h)) => w * h <= MAX_DECODE_PIXELS,
        None => false,
    }
}

proof fn lemma_rgb_index(n: int, i: int, k: int)
    by (nonlinear_arith)
    requires
        0 <= i < n,
        0 <= k < 3,
    ensures
        0 <= 3 * i + k < 3 * n,
{
}

fn widen_rgb(rgb: &Vec<u8>) -> (rgba: Vec<u8>)
    requires
        rgb.len() % 3 == 0,
    ensures
        rgba@ == rgb_to_rgba(rgb@),
{
    let n = rgb.len() / 3;
    let mut rgba: Vec<u8> = Vec::new();
    let mut i: usize = 0;
    while i < n
        invariant
            n == rgb.len() / 3,
            rgb.len() % 3 == 0,
            i <= n,
            rgba.len() == 4 * i,
            forall|j: int|
                0 <= j < rgba.len() ==> #[trigger] rgba@[j] == (if j % 4 == 3 {
                    255u8
                } else {
                    rgb@[j / 4 * 3 + j % 4]
                }),
        decreases n - i,
    {
        proof {
            lemma_rgb_index(n as int, i as int, 2);
        }
        let base = 3 * i;
        let ghost start = rgba.len() as int;
        rgba.push(rgb[base]);
        rgba.push(rgb[base + 1]);
        rgba.push(rgb[base + 2]);
        rgba.push(255u8);
        proof {
            assert forall|k: int| 0 <= k < 4 implies #[trigger] rgba@[start + k] == (if (start + k)
                % 4 == 3 {
                255u8
            } else {
                rgb@[(start + k) / 4 * 3 + (start + k) % 4]
            }) by {
                lemma_fundamental_div_mod_converse(start + k, 4, i as int, k);
            }
        }
        i = i + 1;
    }
    assert(rgba@ =~= rgb_to_rgba(rgb@));
    rgba
}

proof fn lemma_u32_product(a: u32, b: u32)
    ensures
        0 <= a * b <= 0xffff_fffe_0000_0001,
{
    assert(0 <= a * b <= 0xffff_ffff * 0xffff_ffff) by (nonlinear_arith)
        requires
            a <= 0xffff_ffff,
            b <= 0xffff_ffff,
    ;
}

/// Decodes WebP through libwebp, refusing a declared canvas above [`MAX_DECODE_PIXELS`]
/// before any pixel is allocated.
fn decode_webp(bytes: &[u8]) -> (decoded: Result<Raster, CoreError>)
    ensures
        decoded matches Ok(img) ==> img.wf() && webp_within_budget(bytes@) && webp_image(bytes@)
            == Some(img@),
        decoded is Ok <==> webp_within_budget(bytes@) && webp_image(bytes@) is Some,
        match webp_header(bytes@) {
            None => decoded matches Err(CoreError::Webp { .. }),
            Some((w, h)) => w * h > MAX_DECODE_PIXELS ==> (decoded matches Err(
                CoreError::ImageTooLarge { width, height, max_pixels },
            ) && width == w && height == h && max_pixels == MAX_DECODE_PIXELS),
        },
{
    let (width, height) = match webp_header_size(bytes) {
        Some(size) => size,
        None => {
            return Err(
                CoreError::Webp {
                    operation: String::from_str("decode"),
                    detail: String::from_str("cannot parse the WebP bitstream header"),
                },
            );
        },
    };
    proof {
        lemma_u32_product(width, height);
    }
    if (width as u64) * (height as u64) > MAX_DECODE_PIXELS {
        return Err(CoreError::ImageTooLarge { width, height, max_pixels: MAX_DECODE_PIXELS });
    }
    let (w, h, alpha, samples) = match webp_decode(bytes) {
        Some(d) => d,
        None => {
            return Err(
                CoreError::Webp {
                    operation: String::from_str("decode"),
                    detail: String::from_str("cannot decode the WebP image"),
                },
            );
        },
    };
    proof {
        lemma_u32_product(w, h);
    }
    let pixels = (w as u64) * (h as u64);
    if alpha {
        if (samples.len() as u64) / 4 == pixels && (samples.len() as u64) % 4 == 0 {
            return Ok(Raster { width: w, height: h, pixels: samples });
        }
    } else {
        if (samples.len() as u64) / 3 == pixels && (samples.len() as u64) % 3 == 0 {
            let rgba = widen_rgb(&samples);
            proof {
                assert(samples.len() / 3 * 4 == rgba_len(w as int, h as int));
            }
            return Ok(Raster { width: w, height: h, pixels: rgba });
        }
    }
    Err(
        CoreError::Webp {
            operation: String::from_str("decode"),
            detail: String::from_str("the decoded buffer does not match the image size"),
        },
    )
}

/// The image `decode` gives for `bytes`, or `None` when it refuses them.
pub open spec fn spec_decoded(bytes: Seq<u8>) -> Option<RasterView> {
    if sniffed_kind(bytes) == ImageKind::Webp {
        if webp_within_budget(bytes) {
            webp_image(bytes)
        } else {
            None
        }
    } else {
        match image_crate_decoding(bytes) {
            Ok(view) => Some(view),
            Err(_) => None,
        }
    }
}

/// Decodes PNG, JPEG, WebP, GIF or BMP bytes to RGBA; the format is sniffed from the
/// content, never from a file name. Invalid input gives an error, never a panic.
pub fn decode(bytes: &[u8]) -> (decoded: Result<Raster, CoreError>)
    ensures
        match spec_decoded(bytes@) {
            Some(view) => (decoded matches Ok(img) && img@ == view),
            None => decoded is Err,
        },
        decoded matches Ok(img) ==> img.wf(),
        sniffed_kind(bytes@) == ImageKind::Webp ==> (decoded is Ok <==> webp_within_budget(bytes@)
            && webp_image(bytes@) is Some),
        sniffed_kind(bytes@) == ImageKind::Webp ==> (decoded matches Ok(img) ==> webp_image(bytes@)
            == Some(img@)),
        sniffed_kind(bytes@) == ImageKind::Webp ==> (webp_header(bytes@) matches Some((w, h)) && w
            * h > MAX_DECODE_PIXELS ==> decoded matches Err(CoreError::ImageTooLarge { .. })),
        sniffed_kind(bytes@) != ImageKind::Webp ==> match image_crate_decoding(bytes@) {
            Ok(view) => (decoded matches Ok(img) && img@ == view),
            Err(text) => (decoded matches Err(CoreError::ImageDecode { detail }) && detail@ == text),
        },
{
    if guess_kind(bytes) == ImageKind::Webp {
        return decode_webp(bytes);
    }
    match decode_with_image_crate(bytes) {
        Ok(img) => Ok(img),
        Err(detail) => Err(CoreError::ImageDecode { detail }),
    }
}

/// What the `image` crate's PNG encoder (adaptive filtering) writes for RGBA pixels, or its
/// error text.
pub uninterp spec fn png_encoding(
    pixels: Seq<u8>,
    width: u32,
    height: u32,
    compression: PngCompression,
) -> Result<Seq<u8>, Seq<char>>;

/// `image::codecs::png::PngEncoder::new_with_quality(.., compression, Adaptive)` and
/// `write_image(.., Rgba8)`. The encoder asserts that the buffer holds exactly four bytes
/// per pixel, which `requires` guarantees.
#[verifier::external_body]
fn png_encode(img: &Raster, compression: PngCompression) -> (encoded: Result<Vec<u8>, String>)
    requires
        img.wf(),
    ensures
        encoded matches Ok(b) ==> (png_encoding(img.pixels@, img.width, img.height, compression) matches Ok(got) && got == b@),
        encoded matches Err(t) ==> (png_encoding(img.pixels@, img.width, img.height, compression) matches Err(got) && got == t@),
{
    let kind = match compression {
        PngCompression::Fast => image::codecs::png::CompressionType::Fast,
        PngCompression::Default => image::codecs::png::CompressionType::Default,
        PngCompression::Best => image::codecs::png::CompressionType::Best,
    };
    let mut out = Vec::new();
    let encoder = image::codecs::png::PngEncoder::new_with_quality(
        &mut out,
        kind,
        image::codecs::png::FilterType::Adaptive,
    );
    match encoder.write_image(&img.pixels, img.width, img.height, image::ExtendedColorType::Rgba8) {
        Ok(()) => Ok(out),
        Err(error) => Err(error.to_string()),
    }
}

/// What the `image` crate's JPEG encoder writes for RGB samples at `quality`, or its
/// error text.
pub uninterp spec fn jpeg_encoding(rgb: Seq<u8>, width: u32, height: u32, quality: u8) -> Result<
    Seq<u8>,
    Seq<char>,
>;

/// `image::codecs::jpeg::JpegEncoder::new_with_quality(.., quality)` and
/// `write_image(.., Rgb8)`. The encoder asserts that the buffer holds exactly three bytes
/// per pixel, which `requires` guarantees.
#[verifier::external_body]
fn jpeg_encode(rgb: &Vec<u8>, width: u32, height: u32, quality: u8) -> (encoded: Result<
    Vec<u8>,
    String,
>)
    requires
        rgb.len() == 3 * (width * height),
    ensures
        encoded matches Ok(b) ==> (jpeg_encoding(rgb@, width, height, quality) matches Ok(got) && got == b@),
        encoded matches Err(t) ==> (jpeg_encoding(rgb@, width, height, quality) matches Err(got) && got == t@),
{
    let mut out = Vec::new();
    let encoder = image::codecs::jpeg::JpegEncoder::new_with_quality(&mut out, quality);
    match encoder.write_image(rgb, width, height, image::ExtendedColorType::Rgb8) {
        Ok(()) => Ok(out),
        Err(error) => Err(error.to_string()),
    }
}

/// Largest WebP canvas side.
pub const WEBP_MAX_DIMENSION: u32 = 16383;

/// libwebp accepts the canvas: both sides from 1 to 16383.
pub open spec fn webp_encodable(width: u32, height: u32) -> bool {
    1 <= width <= WEBP_MAX_DIMENSION && 1 <= height <= WEBP_MAX_DIMENSION
}

/// What libwebp writes for RGBA pixels in lossy mode at `quality`.
pub uninterp spec fn webp_lossy_encoding(pixels: Seq<u8>, width: u32, height: u32, quality: u8) -> Seq<
    u8,
>;

/// `webp::Encoder::from_rgba(..).encode(quality)`. The crate unwraps libwebp's status, so
/// `requires` keeps to canvases and qualities (at most 100) that libwebp accepts; a failed
/// allocation inside libwebp is not ruled out by anything here.
#[verifier::external_body]
fn webp_lossy_encode(img: &Raster, quality: u8) -> (encoded: Vec<u8>)
    requires
        img.wf(),
        webp_encodable(img.width, img.height),
        quality <= 100,
    ensures
        encoded@ == webp_lossy_encoding(img.pixels@, img.width, img.height, quality),
{
    let encoder = webp::Encoder::from_rgba(&img.pixels, img.width, img.height);
    encoder.encode(quality.into()).to_vec()
}

/// What libwebp writes for RGBA pixels in lossless mode.
pub uninterp spec fn webp_lossless_encoding(pixels: Seq<u8>, width: u32, height: u32) -> Seq<u8>;

/// `webp::Encoder::from_rgba(..).encode_lossless()`, under the same canvas limits as the
/// lossy encoder.
#[verifier::external_body]
fn webp_lossless_encode(img: &Raster) -> (encoded: Vec<u8>)
    requires
        img.wf(),
        webp_encodable(img.width, img.height),
    ensures
        encoded@ == webp_lossless_encoding(img.pixels@, img.width, img.height),
{
    let encoder = webp::Encoder::from_rgba(&img.pixels, img.width, img.height);
    encoder.encode_lossless().to_vec()
}

/// One channel `c` with alpha `a` composited over white, rounded to the nearest integer
/// (the exact value is never halfway between two integers).
pub open spec fn over_white(c: u8, a: u8) -> u8 {
    ((c * a + 255 * (255 - a) + 127) / 255) as u8
}

/// The RGB samples of RGBA `pixels` composited over opaque white.
pub open spec fn flattened_onto_white(pixels: Seq<u8>) -> Seq<u8> {
    Seq::new(
        (pixels.len() / 4 * 3) as nat,
        |i: int| over_white(pixels[i / 3 * 4 + i % 3], pixels[i / 3 * 4 + 3]),
    )
}

proof fn lemma_over_white_bound(c: u8, a: u8)
    by (nonlinear_arith)
    ensures
        0 <= c * a + 255 * (255 - a) + 127,
        (c * a + 255 * (255 - a) + 127) / 255 <= 255,
{
}

fn blend_over_white(c: u8, a: u8) -> (v: u8)
    ensures
        v == over_white(c, a),
{
    proof {
        lemma_over_white_bound(c, a);
    }
    let num: u32 = (c as u32) * (a as u32) + 255 * (255 - a as u32) + 127;
    (num / 255) as u8
}

proof fn lemma_rgba_index(n: int, i: int)
    by (nonlinear_arith)
    requires
        0 <= i < n,
    ensures
        0 <= 4 * i,
        4 * i + 3 < 4 * n,
{
}

/// Composites RGBA pixels over opaque white, giving RGB samples.
fn flatten_onto_white(img: &Raster) -> (rgb: Vec<u8>)
    requires
        img.wf(),
    ensures
        rgb@ == flattened_onto_white(img.pixels@),
        rgb.len() == 3 * (img.width * img.height),
{
    let n = img.pixels.len() / 4;
    let mut rgb: Vec<u8> = Vec::new();
    let mut i: usize = 0;
    while i < n
        invariant
            img.wf(),
            n == img.pixels.len() / 4,
            i <= n,
            rgb.len() == 3 * i,
            forall|j: int|
                0 <= j < rgb.len() ==> #[trigger] rgb@[j] == over_white(
                    img.pixels@[j / 3 * 4 + j % 3],
                    img.pixels@[j / 3 * 4 + 3],
                ),
        decreases n - i,
    {
        proof {
            lemma_rgba_index(n as int, i as int);
        }
        let base = 4 * i;
        let a = img.pixels[base + 3];
        let ghost start = rgb.len() as int;
        rgb.push(blend_over_white(img.pixels[base], a));
        rgb.push(blend_over_white(img.pixels[base + 1], a));
        rgb.push(blend_over_white(img.pixels[base + 2], a));
        proof {
            assert forall|k: int| 0 <= k < 3 implies #[trigger] rgb@[start + k] == over_white(
                img.pixels@[(start + k) / 3 * 4 + (start + k) % 3],
                img.pixels@[(start + k) / 3 * 4 + 3],
            ) by {
                lemma_fundamental_div_mod_converse(start + k, 3, i as int, k);
            }
        }
        i = i + 1;
    }
    assert(rgb@ =~= flattened_onto_white(img.pixels@));
    rgb
}

/// What encoding `img` with `settings` gives: the bytes, or the format and the encoder's
/// error text.
pub open spec fn spec_encode(img: RasterView, settings: EncodeSettings) -> Result<
    Seq<u8>,
    (OutputFormat, Seq<char>),
> {
    match settings {
        EncodeSettings::Png { compression } => match png_encoding(
            img.pixels,
            img.width,
            img.height,
            compression,
        ) {
            Ok(b) => Ok(b),
            Err(t) => Err((OutputFormat::Png, t)),
        },
        EncodeSettings::Jpeg { quality } => match jpeg_encoding(
            flattened_onto_white(img.pixels),
            img.width,
            img.height,
            quality.spec_value(),
        ) {
            Ok(b) => Ok(b),
            Err(t) => Err((OutputFormat::Jpeg, t)),
        },
        EncodeSettings::WebpLossy { quality } => Ok(
            webp_lossy_encoding(img.pixels, img.width, img.height, quality.spec_value()),
        ),
        EncodeSettings::WebpLossless => Ok(webp_lossless_encoding(img.pixels, img.width, img.height)),
    }
}

/// The settings can encode a `width` × `height` image without the encoder aborting.
pub open spec fn encodable(settings: EncodeSettings, width: u32, height: u32) -> bool {
    settings is WebpLossy || settings is WebpLossless ==> webp_encodable(width, height)
}

/// Encodes `img` with `settings`; the quality value goes to the encoder unchanged.
pub fn encode(img: &Raster, settings: EncodeSettings) -> (encoded: Result<Vec<u8>, CoreError>)
    requires
        img.wf(),
        encodable(settings, img.width, img.height),
    ensures
        match spec_encode(img@, settings) {
            Ok(b) => (encoded matches Ok(v) && v@ == b),
            Err((f, t)) => (encoded matches Err(CoreError::ImageEncode { format, detail })
                && format == f && detail@ == t),
        },
{
    match settings {
        EncodeSettings::Png { compression } => match png_encode(img, compression) {
            Ok(bytes) => Ok(bytes),
            Err(detail) => Err(CoreError::ImageEncode { format: OutputFormat::Png, detail }),
        },
        EncodeSettings::Jpeg { quality } => {
            let rgb = flatten_onto_white(img);
            match jpeg_encode(&rgb, img.width, img.height, quality.get()) {
                Ok(bytes) => Ok(bytes),
                Err(detail) => Err(CoreError::ImageEncode { format: OutputFormat::Jpeg, detail }),
            }
        },
        EncodeSettings::WebpLossy { quality } => Ok(webp_lossy_encode(img, quality.get())),
        EncodeSettings::WebpLossless => Ok(webp_lossless_encode(img)),
    }
}

/// The format named by a lower-case extension.
pub open spec fn spec_format_for_extension(lower: Seq<char>) -> Option<OutputFormat> {
    if lower == seq!['p', 'n', 'g'] {
        Some(OutputFormat::Png)
    } else if lower == seq!['j', 'p', 'g'] || lower == seq!['j', 'p', 'e', 'g'] {
        Some(OutputFormat::Jpeg)
    } else if lower == seq!['w', 'e', 'b', 'p'] {
        Some(OutputFormat::Webp)
    } else {
        None
    }
}

/// The upper-case spelling of a format's extension.
pub open spec fn upper_extension(format: OutputFormat) -> Seq<char> {
    match format {
        OutputFormat::Png => seq!['P', 'N', 'G'],
        OutputFormat::Jpeg => seq!['J', 'P', 'G'],
        OutputFormat::Webp => seq!['W', 'E', 'B', 'P'],
    }
}

/// A format's own extension names it again, in lower or upper case; `jpeg` names JPEG too.
pub proof fn law_extension_round_trip(format: OutputFormat)
    ensures
        spec_format_for_extension(seq_ascii_lower(spec_extension(format))) == Some(format),
        spec_format_for_extension(seq_ascii_lower(upper_extension(format))) == Some(format),
        spec_format_for_extension(seq_ascii_lower(seq!['J', 'P', 'E', 'G'])) == Some(OutputFormat::Jpeg),
{
    assert(seq_ascii_lower(spec_extension(format)) =~= spec_extension(format));
    assert(seq_ascii_lower(upper_extension(format)) =~= spec_extension(format));
    assert(seq_ascii_lower(seq!['J', 'P', 'E', 'G']) =~= seq!['j', 'p', 'e', 'g']);
}

/// The output format an extension names, ignoring ASCII case; `None` when unknown.
pub fn format_from_extension(ext: &str) -> (format: Option<OutputFormat>)
    ensures
        format == spec_format_for_extension(seq_ascii_lower(ext@)),
{
    let lower = ascii_lowercase_chars(ext);
    proof {
        reveal_strlit("png");
        reveal_strlit("jpg");
        reveal_strlit("jpeg");
        reveal_strlit("webp");
        assert("png"@ =~= seq!['p', 'n', 'g']);
        assert("jpg"@ =~= seq!['j', 'p', 'g']);
        assert("jpeg"@ =~= seq!['j', 'p', 'e', 'g']);
        assert("webp"@ =~= seq!['w', 'e', 'b', 'p']);
    }
    if chars_equal(&lower, "png") {
        Some(OutputFormat::Png)
    } else if chars_equal(&lower, "jpg") || chars_equal(&lower, "jpeg") {
        Some(OutputFormat::Jpeg)
    } else if chars_equal(&lower, "webp") {
        Some(OutputFormat::Webp)
    } else {
        None
    }
}

/// Whether the bytes announce PNG, JPEG, WebP, GIF or BMP.
pub fn is_supported_input(bytes: &[u8]) -> (supported: bool)
    ensures
        supported <==> sniffed_kind(bytes@) != ImageKind::Other,
{
    guess_kind(bytes) != ImageKind::Other
}

} // verus!
