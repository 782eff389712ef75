use impressy::exif::{gps_from_fields, has_exif, read, strip, ExifData, Fraction};
use impressy::format::{decode, encode, EncodeSettings, PngCompression, Quality};
use impressy::raster::Raster;

fn filled(width: u32, height: u32, rgba: [u8; 4]) -> Raster {
    let mut pixels = Vec::new();
    for _ in 0..width * height {
        pixels.extend_from_slice(&rgba);
    }
    Raster { width, height, pixels }
}

fn jpeg_with_camera_make() -> Vec<u8> {
    let plain = encode(&filled(4, 4, [200, 100, 50, 255]), EncodeSettings::Jpeg { quality: Quality::new(90).unwrap() })
        .expect("jpeg");
    let mut tiff = vec![b'I', b'I', 0x2A, 0x00, 0x08, 0x00, 0x00, 0x00, 0x01, 0x00];
    tiff.extend_from_slice(&[0x0F, 0x01, 0x02, 0x00, 0x04, 0x00, 0x00, 0x00, b'C', b'a', b'm', 0x00]);
    tiff.extend_from_slice(&[0x00, 0x00, 0x00, 0x00]);
    let mut payload = b"Exif\0\0".to_vec();
    payload.extend_from_slice(&tiff);
    let length = (payload.len() + 2) as u16;
    let mut out = plain[0..2].to_vec();
    out.extend_from_slice(&[0xFF, 0xE1]);
    out.extend_from_slice(&length.to_be_bytes());
    out.extend_from_slice(&payload);
    out.extend_from_slice(&plain[2..]);
    out
}

#[test]
fn images_without_exif_are_returned_byte_for_byte() {
    let png = encode(&filled(3, 3, [1, 2, 3, 255]), EncodeSettings::Png { compression: PngCompression::Default }).unwrap();
    assert_eq!(has_exif(&png).unwrap(), false);
    assert_eq!(strip(&png).unwrap(), png);
    assert_eq!(read(&png).unwrap(), None);
}

#[test]
fn exif_segments_are_read_and_removed_without_touching_pixels() {
    let jpeg = jpeg_with_camera_make();
    assert!(has_exif(&jpeg).unwrap());
    let data = read(&jpeg).unwrap().expect("exif record");
    assert!(data.camera_make.as_deref().unwrap_or("").contains("Cam"));
    assert!(data.has_privacy_data());
    let clean = strip(&jpeg).unwrap();
    assert!(!has_exif(&clean).unwrap());
    assert_eq!(decode(&clean).unwrap().pixels, decode(&jpeg).unwrap().pixels);
    assert_eq!(strip(&clean).unwrap(), clean);
}

#[test]
fn unknown_data_cannot_be_stripped() {
    let junk = vec![0u8, 1, 2, 3, 4, 5];
    assert!(strip(&junk).is_err());
    assert_eq!(has_exif(&junk).unwrap(), false);
}

#[test]
fn gps_position_needs_both_angles_and_reads_the_hemispheres() {
    let angle = Some(vec![(30, 1), (15, 1), (0, 1)]);
    let gps = gps_from_fields(&angle, Some(b's'), &angle, Some(b'E')).expect("position");
    assert!(gps.south);
    assert!(!gps.west);
    assert_eq!(gps.latitude.minutes, Fraction { numerator: 15, denominator: 1 });
    assert!(gps_from_fields(&Some(vec![(1, 1)]), None, &angle, None).is_none());
    let empty = ExifData {
        camera_make: None,
        camera_model: None,
        lens_model: None,
        focal_length: Some("4 mm".to_string()),
        aperture: None,
        shutter_speed: None,
        iso: None,
        taken_at: None,
        gps: None,
    };
    assert!(!empty.has_privacy_data());
}
