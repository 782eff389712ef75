//! Reading and removing EXIF metadata.
//!
//! Metadata is removed at the container level (JPEG, PNG and WebP segments), so the
//! compressed image data, and with it every pixel, is carried over untouched; an image
//! without EXIF is returned byte for byte.

use vstd::prelude::*;

use exif::{In, Reader, Tag};
use img_parts::ImageEXIF;

use crate::error::CoreError;

verus! {

/// The descriptive EXIF fields shown to the user.
#[derive(Debug, Clone, Copy, PartialEq, Eq, Structural)]
pub enum ExifTag {
    Make,
    Model,
    LensModel,
    FocalLength,
    FNumber,
    ExposureTime,
    PhotographicSensitivity,
    DateTimeOriginal,
}

/// The GPS fields of a position.
#[derive(Debug, Clone, Copy, PartialEq, Eq, Structural)]
pub enum GpsTag {
    Latitude,
    LatitudeRef,
    Longitude,
    LongitudeRef,
}

/// A fraction as EXIF stores it.
#[derive(Debug, Clone, Copy, PartialEq, Eq, Structural)]
pub struct Fraction {
    pub numerator: u32,
    pub denominator: u32,
}

/// An angle as EXIF stores it: degrees, minutes and seconds.
#[derive(Debug, Clone, Copy, PartialEq, Eq, Structural)]
pub struct DmsAngle {
    pub degrees: Fraction,
    pub minutes: Fraction,
    pub seconds: Fraction,
}

/// A fraction from a (numerator, denominator) pair.
pub open spec fn fraction(pair: (u32, u32)) -> Fraction {
    Fraction { numerator: pair.0, denominator: pair.1 }
}

/// A GPS position as recorded: latitude and longitude angles, and whether each lies
/// south or west (negative).
#[derive(Debug, Clone, Copy, PartialEq, Eq, Structural)]
pub struct GpsReading {
    pub latitude: DmsAngle,
    pub south: bool,
    pub longitude: DmsAngle,
    pub west: bool,
}

/// Camera settings read from EXIF, each as the EXIF library displays it (with units);
/// a missing field is `None`.
#[derive(Debug, Clone, PartialEq, Eq)]
pub struct ExifData {
    /// Camera maker (identifies the device).
    pub camera_make: Option<String>,
    /// Camera model (identifies the device).
    pub camera_model: Option<String>,
    /// Lens model (identifies the device).
    pub lens_model: Option<String>,
    pub focal_length: Option<String>,
    pub aperture: Option<String>,
    pub shutter_speed: Option<String>,
    pub iso: Option<String>,
    pub taken_at: Option<String>,
    /// Where the photo was taken (private).
    pub gps: Option<GpsReading>,
}

impl ExifData {
    /// Whether the metadata holds something private: a position or a field that
    /// identifies the device.
    pub fn has_privacy_data(&self) -> (private: bool)
        ensures
            private == (self.gps is Some || self.camera_make is Some || self.camera_model is Some
                || self.lens_model is Some),
    {
        self.gps.is_some() || self.camera_make.is_some() || self.camera_model.is_some()
            || self.lens_model.is_some()
    }
}

/// Whether an EXIF record could be read from an image.
#[derive(Debug, Clone, PartialEq, Eq)]
pub enum ExifReadStatus {
    /// A record was read.
    Found,
    /// The image has no (or a blank) EXIF record.
    Missing,
    /// The data could not be read; the reader's message.
    Failed(String),
}

/// The plain view of a read status.
pub enum ExifStatusView {
    Found,
    Missing,
    Failed(Seq<char>),
}

/// What `exif::Reader::read_from_container` reports for the image in `bytes`.
pub uninterp spec fn exif_read_status(bytes: Seq<u8>) -> ExifStatusView;

/// The text `exif` displays (with its unit) for field `tag` of the primary image of the
/// record in `bytes`, if the record has that field.
pub uninterp spec fn exif_field_display(bytes: Seq<u8>, tag: ExifTag) -> Option<Seq<char>>;

/// The rational values (numerator, denominator) of GPS field `tag` of the record in
/// `bytes`, or its first ASCII byte, as the field holds them.
pub uninterp spec fn exif_gps_value(bytes: Seq<u8>, tag: GpsTag) -> (Option<Seq<(u32, u32)>>, Option<u8>);

/// The plain view of a read status.
pub open spec fn status_view(status: ExifReadStatus) -> ExifStatusView {
    match status {
        ExifReadStatus::Found => ExifStatusView::Found,
        ExifReadStatus::Missing => ExifStatusView::Missing,
        ExifReadStatus::Failed(text) => ExifStatusView::Failed(text@),
    }
}

/// `exif::Reader::read_from_container`: whether the image has an EXIF record; a missing
/// or blank record is told apart from other failures.
#[verifier::external_body]
fn read_exif_status(bytes: &[u8]) -> (status: ExifReadStatus)
    ensures
        status_view(status) == exif_read_status(bytes@),
{
    match Reader::new().read_from_container(&mut std::io::Cursor::new(bytes)) {
        Ok(_) => ExifReadStatus::Found,
        Err(exif::Error::NotFound(_)) | Err(exif::Error::BlankValue(_)) => ExifReadStatus::Missing,
        Err(error) => ExifReadStatus::Failed(error.to_string()),
    }
}

/// `exif::Exif::get_field` with `Field::display_value().with_unit(..)` on the record read
/// from `bytes`: the primary image's field as the EXIF library displays it.
#[verifier::external_body]
fn exif_field_text(bytes: &[u8], tag: ExifTag) -> (text: Option<String>)
    ensures
        match text {
            Some(t) => exif_field_display(bytes@, tag) == Some(t@),
            None => exif_field_display(bytes@, tag) is None,
        },
{
    let record = Reader::new().read_from_container(&mut std::io::Cursor::new(bytes)).ok()?;
    let tag = match tag {
        ExifTag::Make => Tag::Make,
        ExifTag::Model => Tag::Model,
        ExifTag::LensModel => Tag::LensModel,
        ExifTag::FocalLength => Tag::FocalLength,
        ExifTag::FNumber => Tag::FNumber,
        ExifTag::ExposureTime => Tag::ExposureTime,
        ExifTag::PhotographicSensitivity => Tag::PhotographicSensitivity,
        ExifTag::DateTimeOriginal => Tag::DateTimeOriginal,
    };
    record.get_field(tag, In::PRIMARY).map(|field| field.display_value().with_unit(&record).to_string())
}

/// `exif::Exif::get_field` for a GPS field of the record read from `bytes`: its rational
/// values, or its first ASCII byte.
#[verifier::external_body]
fn exif_gps_field(bytes: &[u8], tag: GpsTag) -> (value: (Option<Vec<(u32, u32)>>, Option<u8>))
    ensures
        (match value.0 {
            Some(v) => Some(v@),
            None => None,
        }, value.1) == exif_gps_value(bytes@, tag),
{
    let Ok(record) = Reader::new().read_from_container(&mut std::io::Cursor::new(bytes)) else { return (None, None) };
    let tag = match tag {
        GpsTag::Latitude => Tag::GPSLatitude,
        GpsTag::LatitudeRef => Tag::GPSLatitudeRef,
        GpsTag::Longitude => Tag::GPSLongitude,
        GpsTag::LongitudeRef => Tag::GPSLongitudeRef,
    };
    match record.get_field(tag, In::PRIMARY).map(|field| &field.value) {
        Some(exif::Value::Rational(values)) => (Some(values.iter().map(|r| (r.num, r.denom)).collect()), None),
        Some(exif::Value::Ascii(strings)) => (None, strings.first().and_then(|s| s.first()).copied()),
        _ => (None, None),
    }
}

/// The angle in the first three rationals of a GPS value, if it has three.
pub open spec fn spec_dms(values: Option<Seq<(u32, u32)>>) -> Option<DmsAngle> {
    match values {
        Some(v) => if v.len() >= 3 {
            Some(DmsAngle { degrees: fraction(v[0]), minutes: fraction(v[1]), seconds: fraction(v[2]) })
        } else {
            None
        },
        None => None,
    }
}

/// Whether a GPS reference byte names the negative direction (`S` or `W`, either case).
pub open spec fn is_negative_ref(reference: Option<u8>, negative: u8) -> bool {
    match reference {
        Some(c) => c == negative || c == negative + 32,
        None => false,
    }
}

/// The position made of the four GPS fields, when both angles are present.
pub open spec fn spec_gps(
    latitude: Option<Seq<(u32, u32)>>,
    latitude_ref: Option<u8>,
    longitude: Option<Seq<(u32, u32)>>,
    longitude_ref: Option<u8>,
) -> Option<GpsReading> {
    match (spec_dms(latitude), spec_dms(longitude)) {
        (Some(lat), Some(lon)) => Some(
            GpsReading {
                latitude: lat,
                south: is_negative_ref(latitude_ref, 83),
                longitude: lon,
                west: is_negative_ref(longitude_ref, 87),
            },
        ),
        _ => None,
    }
}

/// The position takes its latitude from the latitude values and its longitude from the
/// longitude values (degrees, minutes, seconds: the first three rationals of each); it
/// lies south exactly when the latitude reference is `S` or `s`, west exactly when the
/// longitude reference is `W` or `w`; without three values on either side there is none.
pub proof fn law_gps_reads_each_angle_from_its_field(
    latitude: Seq<(u32, u32)>,
    latitude_ref: Option<u8>,
    longitude: Seq<(u32, u32)>,
    longitude_ref: Option<u8>,
)
    ensures
        spec_gps(Some(latitude), latitude_ref, Some(longitude), longitude_ref) is Some <==> latitude.len() >= 3
            && longitude.len() >= 3,
        spec_gps(Some(latitude), latitude_ref, Some(longitude), longitude_ref) matches Some(g) ==> {
            &&& g.latitude.degrees.numerator == latitude[0].0 && g.latitude.degrees.denominator == latitude[0].1
            &&& g.latitude.minutes.numerator == latitude[1].0 && g.latitude.minutes.denominator == latitude[1].1
            &&& g.latitude.seconds.numerator == latitude[2].0 && g.latitude.seconds.denominator == latitude[2].1
            &&& g.longitude.degrees.numerator == longitude[0].0 && g.longitude.degrees.denominator
                == longitude[0].1
            &&& g.longitude.minutes.numerator == longitude[1].0 && g.longitude.minutes.denominator
                == longitude[1].1
            &&& g.longitude.seconds.numerator == longitude[2].0 && g.longitude.seconds.denominator
                == longitude[2].1
            &&& g.south <==> (latitude_ref == Some(83u8) || latitude_ref == Some(115u8))
            &&& g.west <==> (longitude_ref == Some(87u8) || longitude_ref == Some(119u8))
        },
{
}

fn dms(values: &Option<Vec<(u32, u32)>>) -> (angle: Option<DmsAngle>)
    ensures
        angle == spec_dms(match values {
            Some(v) => Some(v@),
            None => None,
        }),
{
    match values {
        Some(v) => if v.len() >= 3 {
            Some(
                DmsAngle {
                    degrees: Fraction { numerator: v[0].0, denominator: v[0].1 },
                    minutes: Fraction { numerator: v[1].0, denominator: v[1].1 },
                    seconds: Fraction { numerator: v[2].0, denominator: v[2].1 },
                },
            )
        } else {
            None
        },
        None => None,
    }
}

/// The GPS position recorded by the four GPS fields (see [`spec_gps`]).
pub fn gps_from_fields(
    latitude: &Option<Vec<(u32, u32)>>,
    latitude_ref: Option<u8>,
    longitude: &Option<Vec<(u32, u32)>>,
    longitude_ref: Option<u8>,
) -> (gps: Option<GpsReading>)
    ensures
        gps == spec_gps(
            match latitude {
                Some(v) => Some(v@),
                None => None,
            },
            latitude_ref,
            match longitude {
                Some(v) => Some(v@),
                None => None,
            },
            longitude_ref,
        ),
{
    match (dms(latitude), dms(longitude)) {
        (Some(lat), Some(lon)) => {
            let south = match latitude_ref {
                Some(c) => c == 83 || c == 115,
                None => false,
            };
            let west = match longitude_ref {
                Some(c) => c == 87 || c == 119,
                None => false,
            };
            Some(GpsReading { latitude: lat, south, longitude: lon, west })
        },
        _ => None,
    }
}

/// The plain view of an optional text.
pub open spec fn opt_text(text: Option<String>) -> Option<Seq<char>> {
    match text {
        Some(t) => Some(t@),
        None => None,
    }
}

/// The camera settings and position recorded in the image `bytes`, as the EXIF library
/// displays each field.
pub open spec fn exif_data_of(bytes: Seq<u8>, data: ExifData) -> bool {
    &&& opt_text(data.camera_make) == exif_field_display(bytes, ExifTag::Make)
    &&& opt_text(data.camera_model) == exif_field_display(bytes, ExifTag::Model)
    &&& opt_text(data.lens_model) == exif_field_display(bytes, ExifTag::LensModel)
    &&& opt_text(data.focal_length) == exif_field_display(bytes, ExifTag::FocalLength)
    &&& opt_text(data.aperture) == exif_field_display(bytes, ExifTag::FNumber)
    &&& opt_text(data.shutter_speed) == exif_field_display(bytes, ExifTag::ExposureTime)
    &&& opt_text(data.iso) == exif_field_display(bytes, ExifTag::PhotographicSensitivity)
    &&& opt_text(data.taken_at) == exif_field_display(bytes, ExifTag::DateTimeOriginal)
    &&& data.gps == spec_gps(
        exif_gps_value(bytes, GpsTag::Latitude).0,
        exif_gps_value(bytes, GpsTag::LatitudeRef).1,
        exif_gps_value(bytes, GpsTag::Longitude).0,
        exif_gps_value(bytes, GpsTag::LongitudeRef).1,
    )
}

/// The camera settings and position recorded in an image's EXIF; `Ok(None)` when the image
/// has none (not an error). Data that cannot be read is reported as a metadata error.
pub fn read(bytes: &[u8]) -> (data: Result<Option<ExifData>, CoreError>)
    ensures
        match exif_read_status(bytes@) {
            ExifStatusView::Missing => data matches Ok(None),
            ExifStatusView::Failed(text) => (data matches Err(CoreError::Exif { detail }) && detail@ == text),
            ExifStatusView::Found => (data matches Ok(Some(d)) && exif_data_of(bytes@, d)),
        },
{
    match read_exif_status(bytes) {
        ExifReadStatus::Found => {},
        ExifReadStatus::Missing => {
            return Ok(None);
        },
        ExifReadStatus::Failed(detail) => {
            return Err(CoreError::Exif { detail });
        },
    }
    let (latitude, _) = exif_gps_field(bytes, GpsTag::Latitude);
    let (_, latitude_ref) = exif_gps_field(bytes, GpsTag::LatitudeRef);
    let (longitude, _) = exif_gps_field(bytes, GpsTag::Longitude);
    let (_, longitude_ref) = exif_gps_field(bytes, GpsTag::LongitudeRef);
    Ok(
        Some(
            ExifData {
                camera_make: exif_field_text(bytes, ExifTag::Make),
                camera_model: exif_field_text(bytes, ExifTag::Model),
                lens_model: exif_field_text(bytes, ExifTag::LensModel),
                focal_length: exif_field_text(bytes, ExifTag::FocalLength),
                aperture: exif_field_text(bytes, ExifTag::FNumber),
                shutter_speed: exif_field_text(bytes, ExifTag::ExposureTime),
                iso: exif_field_text(bytes, ExifTag::PhotographicSensitivity),
                taken_at: exif_field_text(bytes, ExifTag::DateTimeOriginal),
                gps: gps_from_fields(&latitude, latitude_ref, &longitude, longitude_ref),
            },
        ),
    )
}

/// What `img_parts::DynImage::from_bytes` gives for these bytes: `Ok(None)` when they are
/// not a JPEG, PNG or WebP container, `Ok(Some(present))` telling whether the container
/// has an EXIF segment, or the text of its error for a malformed container.
pub uninterp spec fn exif_segment_probe(bytes: Seq<u8>) -> Result<Option<bool>, Seq<char>>;

/// What `img_parts` gives when writing the container in `bytes` again with its EXIF
/// segment removed (every other segment, the compressed image data included, is carried
/// over): the bytes, or the text of its error.
pub uninterp spec fn exif_segment_removed(bytes: Seq<u8>) -> Result<Seq<u8>, Seq<char>>;

/// The plain view of a probe result.
pub open spec fn probe_view(probe: Result<Option<bool>, String>) -> Result<Option<bool>, Seq<char>> {
    match probe {
        Ok(p) => Ok(p),
        Err(t) => Err(t@),
    }
}

/// `img_parts::DynImage::from_bytes` and `ImageEXIF::exif`: whether the bytes form a
/// supported container, and whether it has an EXIF segment; a malformed container is an
/// error.
#[verifier::external_body]
fn probe_container(bytes: &[u8]) -> (probe: Result<Option<bool>, String>)
    ensures
        probe_view(probe) == exif_segment_probe(bytes@),
{
    match img_parts::DynImage::from_bytes(img_parts::Bytes::copy_from_slice(bytes)) {
        Ok(Some(image)) => Ok(Some(image.exif().is_some())),
        Ok(None) => Ok(None),
        Err(error) => Err(error.to_string()),
    }
}

/// `ImageEXIF::set_exif(None)` and `DynImage::encoder().bytes()`: the container in
/// `bytes` written again without its EXIF segment.
#[verifier::external_body]
fn remove_exif_segment(bytes: &[u8]) -> (out: Result<Vec<u8>, String>)
    ensures
        match exif_segment_removed(bytes@) {
            Ok(b) => (out matches Ok(v) && v@ == b),
            Err(t) => (out matches Err(e) && e@ == t),
        },
{
    match img_parts::DynImage::from_bytes(img_parts::Bytes::copy_from_slice(bytes)) {
        Ok(Some(mut image)) => {
            image.set_exif(None);
            Ok(image.encoder().bytes().to_vec())
        },
        Ok(None) => Err(String::from("not a JPEG, PNG or WebP container")),
        Err(error) => Err(error.to_string()),
    }
}

/// A copy of `bytes`.
fn copy_bytes(bytes: &[u8]) -> (copy: Vec<u8>)
    ensures
        copy@ == bytes@,
{
    let mut copy: Vec<u8> = Vec::new();
    let mut i: usize = 0;
    while i < bytes.len()
        invariant
            i <= bytes.len(),
            copy@ == bytes@.take(i as int),
        decreases bytes.len() - i,
    {
        copy.push(bytes[i]);
        i = i + 1;
        assert(copy@ =~= bytes@.take(i as int));
    }
    assert(bytes@.take(i as int) =~= bytes@);
    copy
}

/// Removes the whole EXIF segment (GPS and device fields with it) of a JPEG, PNG or WebP
/// image without touching its compressed data. An image without EXIF is returned byte for
/// byte, so stripping twice changes nothing more; other data is refused with a metadata
/// error.
pub fn strip(bytes: &[u8]) -> (out: Result<Vec<u8>, CoreError>)
    ensures
        match exif_segment_probe(bytes@) {
            Err(t) => (out matches Err(CoreError::Exif { detail }) && detail@ == t),
            Ok(None) => (out matches Err(e) && e is Exif),
            Ok(Some(false)) => (out matches Ok(b) && b@ == bytes@),
            Ok(Some(true)) => match exif_segment_removed(bytes@) {
                Ok(clean) => (out matches Ok(b) && b@ == clean),
                Err(t) => (out matches Err(CoreError::Exif { detail }) && detail@ == t),
            },
        },
{
    match probe_container(bytes) {
        Err(detail) => Err(CoreError::Exif { detail }),
        Ok(None) => Err(CoreError::Exif { detail: String::from_str("not a JPEG, PNG or WebP container: its metadata cannot be removed") }),
        Ok(Some(false)) => Ok(copy_bytes(bytes)),
        Ok(Some(true)) => match remove_exif_segment(bytes) {
            Ok(clean) => Ok(clean),
            Err(detail) => Err(CoreError::Exif { detail }),
        },
    }
}

/// Whether the image has an EXIF segment (data that is not a supported container has
/// none); a malformed container is a metadata error.
pub fn has_exif(bytes: &[u8]) -> (has: Result<bool, CoreError>)
    ensures
        match exif_segment_probe(bytes@) {
            Err(t) => (has matches Err(CoreError::Exif { detail }) && detail@ == t),
            Ok(None) => has == Ok::<bool, CoreError>(false),
            Ok(Some(present)) => has == Ok::<bool, CoreError>(present),
        },
{
    match probe_container(bytes) {
        Err(detail) => Err(CoreError::Exif { detail }),
        Ok(None) => Ok(false),
        Ok(Some(present)) => Ok(present),
    }
}

} // verus!
