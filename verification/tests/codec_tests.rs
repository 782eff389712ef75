use impressy::error::CoreError;
use impressy::format::{decode, encode, format_from_extension, EncodeSettings, OutputFormat, PngCompression};
use impressy::raster::Raster;

fn patterned(width: u32, height: u32, seed: u32) -> Raster {
    let mut pixels = Vec::new();
    for index in 0..width * height * 4 {
        pixels.push(((index * 29 + seed * 7) % 256) as u8);
    }
    Raster { width, height, pixels }
}

fn samples() -> Vec<Raster> {
    vec![patterned(1, 1, 0), patterned(3, 7, 1), patterned(24, 24, 2), patterned(13, 2, 3)]
}

#[test]
fn invalid_bytes_return_error_without_crash() {
    let result = decode(b"definitely not an image");
    assert!(result.is_err());
}

#[test]
fn oversized_webp_canvas_is_rejected_before_decoding() {
    let mut bytes = Vec::new();
    bytes.extend_from_slice(b"RIFF");
    bytes.extend_from_slice(&17u32.to_le_bytes());
    bytes.extend_from_slice(b"WEBP");
    bytes.extend_from_slice(b"VP8L");
    bytes.extend_from_slice(&5u32.to_le_bytes());
    bytes.push(0x2F);
    bytes.extend_from_slice(&0x0FFF_FFFFu32.to_le_bytes());

    let result = decode(&bytes);
    assert!(matches!(result, Err(CoreError::ImageTooLarge { .. })), "got: {result:?}");
}

#[test]
fn png_round_trip_preserves_pixels() {
    for img in samples() {
        let bytes = encode(&img, EncodeSettings::Png { compression: PngCompression::Default }).expect("encode");
        let decoded = decode(&bytes).expect("decode");
        assert_eq!(img, decoded);
    }
}

#[test]
fn webp_lossless_round_trip_preserves_visible_pixels() {
    for img in samples() {
        let bytes = encode(&img, EncodeSettings::WebpLossless).expect("encode");
        let decoded = decode(&bytes).expect("decode");
        assert_eq!((img.width, img.height), (decoded.width, decoded.height));
        for (a, b) in img.pixels.chunks(4).zip(decoded.pixels.chunks(4)) {
            if a[3] == 0 {
                assert_eq!(b[3], 0);
            } else {
                assert_eq!(a, b);
            }
        }
    }
}

#[test]
fn png_to_png_conversion_is_idempotent() {
    for img in samples() {
        let settings = EncodeSettings::Png { compression: PngCompression::Default };
        let once = encode(&img, settings).expect("encode");
        let twice = encode(&decode(&once).expect("decode"), settings).expect("encode again");
        assert_eq!(decode(&once).unwrap(), decode(&twice).unwrap());
    }
}

#[test]
fn extensions_name_their_format_in_any_case() {
    for format in [OutputFormat::Png, OutputFormat::Jpeg, OutputFormat::Webp] {
        assert_eq!(format_from_extension(format.extension()), Some(format));
        assert_eq!(format_from_extension(&format.extension().to_ascii_uppercase()), Some(format));
    }
    assert_eq!(format_from_extension("jpeg"), Some(OutputFormat::Jpeg));
    assert_eq!(format_from_extension("JPEG"), Some(OutputFormat::Jpeg));
    assert_eq!(format_from_extension("gif"), None);
}
