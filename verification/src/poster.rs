//! Poster composition: already rasterized transparent layers placed over a background.

use vstd::prelude::*;

use crate::cover::{cover_possible, exact_cover, is_cover_of, lemma_cover_unique};
use crate::error::CoreError;
use crate::format::{decode, encode, spec_decoded, spec_encode, EncodeSettings, OutputFormat, PngCompression};
use crate::raster::{Raster, RasterView};
use crate::ui_rules::{POSTER_HEIGHT, POSTER_WIDTH};

verus! {

/// A transparent raster layer placed at (`x`, `y`) in output pixels.
#[derive(Debug, Clone, PartialEq, Eq)]
pub struct RasterLayer {
    /// Layer pixels, normally transparent outside the glyphs.
    pub image: Raster,
    /// Left position in output pixels.
    pub x: u32,
    /// Top position in output pixels.
    pub y: u32,
}

/// The RGBA bytes that `image::imageops::overlay` leaves in a `bw` × `bh` bottom image
/// after alpha-blending a `tw` × `th` top image over it at (`x`, `y`).
pub uninterp spec fn overlaid(
    bottom: Seq<u8>,
    bw: u32,
    bh: u32,
    top: Seq<u8>,
    tw: u32,
    th: u32,
    x: u32,
    y: u32,
) -> Seq<u8>;

/// Whether pixel (`px`, `py`) lies under a `tw` × `th` layer placed at (`x`, `y`).
pub open spec fn covered(px: int, py: int, x: u32, y: u32, tw: u32, th: u32) -> bool {
    x <= px < x + tw && y <= py < y + th
}

/// `image::imageops::overlay`: blends `top` over `bottom` at (`x`, `y`), clipping what
/// falls outside. The bottom keeps its dimensions, and its pixels outside the placed
/// layer keep their values (the blend itself is computed in floating point and is only
/// named here).
#[verifier::external_body]
fn overlay(bottom: &mut Raster, top: &Raster, x: u32, y: u32)
    requires
        old(bottom).wf(),
        top.wf(),
    ensures
        final(bottom).wf(),
        final(bottom).width == old(bottom).width,
        final(bottom).height == old(bottom).height,
        final(bottom).pixels@ == overlaid(
            old(bottom).pixels@,
            old(bottom).width,
            old(bottom).height,
            top.pixels@,
            top.width,
            top.height,
            x,
            y,
        ),
        forall|px: int, py: int, k: int|
            0 <= px < old(bottom).width && 0 <= py < old(bottom).height && 0 <= k < 4 && !covered(
                px,
                py,
                x,
                y,
                top.width,
                top.height,
            ) ==> #[trigger] final(bottom)@.at(px, py, k) == old(bottom)@.at(px, py, k),
{
    let mut image = image::RgbaImage::from_raw(bottom.width, bottom.height, std::mem::take(&mut bottom.pixels)).expect("an RGBA buffer of four bytes per pixel");
    let layer = image::RgbaImage::from_raw(top.width, top.height, top.pixels.clone()).expect("an RGBA buffer of four bytes per pixel");
    image::imageops::overlay(&mut image, &layer, i64::from(x), i64::from(y));
    bottom.pixels = image.into_raw();
}

/// The bytes of `background` after blending the first `n` layers over it in order.
pub open spec fn spec_compose(background: RasterView, layers: Seq<RasterLayer>) -> Seq<u8>
    decreases layers.len(),
{
    if layers.len() == 0 {
        background.pixels
    } else {
        let below = spec_compose(background, layers.drop_last());
        let top = layers.last();
        overlaid(
            below,
            background.width,
            background.height,
            top.image.pixels@,
            top.image.width,
            top.image.height,
            top.x,
            top.y,
        )
    }
}

/// Whether any of `layers` covers pixel (`px`, `py`).
pub open spec fn any_layer_covers(layers: Seq<RasterLayer>, px: int, py: int) -> bool {
    exists|i: int|
        0 <= i < layers.len() && covered(
            px,
            py,
            layers[i].x,
            layers[i].y,
            layers[i].image.width,
            layers[i].image.height,
        )
}

/// Blends `layers` over a copy of `background`, in order; pixels outside the background
/// are clipped. The result has the background's dimensions, and a pixel under no layer
/// keeps the background's value.
pub fn compose(background: &Raster, layers: &Vec<RasterLayer>) -> (output: Raster)
    requires
        background.wf(),
        forall|i: int| 0 <= i < layers.len() ==> (#[trigger] layers[i]).image.wf(),
    ensures
        output.wf(),
        output.width == background.width,
        output.height == background.height,
        output.pixels@ == spec_compose(background@, layers@),
        forall|px: int, py: int, k: int|
            0 <= px < background.width && 0 <= py < background.height && 0 <= k < 4
                && !any_layer_covers(layers@, px, py) ==> #[trigger] output@.at(px, py, k)
                == background@.at(px, py, k),
{
    let mut output = background.clone_raster();
    let mut i: usize = 0;
    while i < layers.len()
        invariant
            i <= layers.len(),
            background.wf(),
            forall|j: int| 0 <= j < layers.len() ==> (#[trigger] layers[j]).image.wf(),
            output.wf(),
            output.width == background.width,
            output.height == background.height,
            output.pixels@ == spec_compose(background@, layers@.take(i as int)),
            forall|px: int, py: int, k: int|
                0 <= px < background.width && 0 <= py < background.height && 0 <= k < 4
                    && !any_layer_covers(layers@.take(i as int), px, py) ==> #[trigger] output@.at(
                    px,
                    py,
                    k,
                ) == background@.at(px, py, k),
        decreases layers.len() - i,
    {
        let layer = &layers[i];
        let ghost before = output@;
        overlay(&mut output, &layer.image, layer.x, layer.y);
        proof {
            let prefix = layers@.take(i + 1);
            assert(prefix.drop_last() =~= layers@.take(i as int));
            assert(prefix.last() == layers@[i as int]);
            assert forall|px: int, py: int, k: int|
                0 <= px < background.width && 0 <= py < background.height && 0 <= k < 4
                    && !any_layer_covers(prefix, px, py) implies #[trigger] output@.at(px, py, k)
                == background@.at(px, py, k) by {
                assert(!covered(px, py, layers@[i as int].x, layers@[i as int].y, layers@[i as int].image.width, layers@[i as int].image.height)) by {
                    if covered(px, py, layers@[i as int].x, layers@[i as int].y, layers@[i as int].image.width, layers@[i as int].image.height) {
                        assert(prefix[i as int] == layers@[i as int]);
                    }
                }
                assert(output@.at(px, py, k) == before.at(px, py, k));
                assert(!any_layer_covers(layers@.take(i as int), px, py)) by {
                    if any_layer_covers(layers@.take(i as int), px, py) {
                        let j = choose|j: int|
                            0 <= j < layers@.take(i as int).len() && covered(
                                px,
                                py,
                                layers@.take(i as int)[j].x,
                                layers@.take(i as int)[j].y,
                                layers@.take(i as int)[j].image.width,
                                layers@.take(i as int)[j].image.height,
                            );
                        assert(prefix[j] == layers@.take(i as int)[j]);
                    }
                }
            }
        }
        i = i + 1;
    }
    assert(layers@.take(i as int) =~= layers@);
    output
}

/// The poster made of a background image and text layers: the background fitted to the
/// poster size, the layers over it in order.
pub open spec fn poster_view(background: RasterView, layers: Seq<RasterLayer>) -> RasterView {
    RasterView { width: POSTER_WIDTH, height: POSTER_HEIGHT, pixels: spec_compose(background, layers) }
}

/// Whether a poster can be made from `background` bytes: they decode, can be fitted to the
/// poster size, and the finished poster encodes as PNG.
pub open spec fn poster_possible(background: Seq<u8>, layers: Seq<RasterLayer>) -> bool {
    match spec_decoded(background) {
        None => false,
        Some(d) => cover_possible(d.width as nat, d.height as nat, POSTER_WIDTH as nat, POSTER_HEIGHT as nat)
            && exists|c: RasterView| #[trigger] is_cover_of(c, d, POSTER_WIDTH, POSTER_HEIGHT) && spec_encode(
            poster_view(c, layers),
            EncodeSettings::Png { compression: PngCompression::Default },
        ) is Ok,
    }
}

/// A finished poster as PNG: the generated `background` decoded and fitted to the poster
/// size, with `layers` blended over it in order. Fails when the background does not
/// decode or fit, or the poster does not encode.
pub fn render_poster(background: &[u8], layers: &Vec<RasterLayer>) -> (png: Result<Vec<u8>, CoreError>)
    requires
        forall|i: int| 0 <= i < layers.len() ==> (#[trigger] layers[i]).image.wf(),
    ensures
        png is Ok <==> poster_possible(background@, layers@),
        png matches Ok(bytes) ==> (spec_decoded(background@) matches Some(d) && exists|c: RasterView|
            #[trigger] is_cover_of(c, d, POSTER_WIDTH, POSTER_HEIGHT) && spec_encode(
            poster_view(c, layers@),
            EncodeSettings::Png { compression: PngCompression::Default },
        ) == Ok::<Seq<u8>, (OutputFormat, Seq<char>)>(bytes@)),
{
    let image = match decode(background) {
        Ok(image) => image,
        Err(e) => return Err(e),
    };
    let fitted = match exact_cover(&image, POSTER_WIDTH, POSTER_HEIGHT) {
        Ok(fitted) => fitted,
        Err(e) => return Err(e),
    };
    let output = compose(&fitted, layers);
    assert(output@ == poster_view(fitted@, layers@));
    let settings = EncodeSettings::Png { compression: PngCompression::Default };
    let encoded = encode(&output, settings);
    proof {
        if encoded is Err {
            assert forall|c: RasterView| #[trigger] is_cover_of(c, image@, POSTER_WIDTH, POSTER_HEIGHT) implies !(spec_encode(
                poster_view(c, layers@),
                settings,
            ) is Ok) by {
                lemma_cover_unique(c, fitted@, image@, POSTER_WIDTH, POSTER_HEIGHT);
            }
        }
    }
    encoded
}

} // verus!
