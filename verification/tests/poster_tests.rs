use impressy::format::{decode, encode, EncodeSettings, PngCompression};
use impressy::poster::{compose, render_poster, RasterLayer};
use impressy::raster::Raster;

fn filled(width: u32, height: u32, rgba: [u8; 4]) -> Raster {
    let mut pixels = Vec::new();
    for _ in 0..width * height {
        pixels.extend_from_slice(&rgba);
    }
    Raster { width, height, pixels }
}

fn pixel(image: &Raster, x: u32, y: u32) -> [u8; 4] {
    let i = ((y * image.width + x) * 4) as usize;
    [image.pixels[i], image.pixels[i + 1], image.pixels[i + 2], image.pixels[i + 3]]
}

#[test]
fn composition_alpha_blends_and_clips_layers() {
    let background = filled(2, 2, [0, 0, 0, 255]);
    let layer = RasterLayer { image: filled(2, 1, [255, 255, 255, 128]), x: 1, y: 1 };
    let output = compose(&background, &vec![layer]);
    assert_eq!((output.width, output.height), (2, 2));
    assert_eq!(pixel(&output, 0, 0), [0, 0, 0, 255]);
    assert!(pixel(&output, 1, 1)[0] > 0);
}

#[test]
fn opaque_layers_replace_pixels_and_later_layers_win() {
    let background = filled(3, 1, [0, 0, 0, 255]);
    let red = RasterLayer { image: filled(2, 1, [255, 0, 0, 255]), x: 0, y: 0 };
    let blue = RasterLayer { image: filled(1, 1, [0, 0, 255, 255]), x: 1, y: 0 };
    let output = compose(&background, &vec![red, blue]);
    assert_eq!(pixel(&output, 0, 0), [255, 0, 0, 255]);
    assert_eq!(pixel(&output, 1, 0), [0, 0, 255, 255]);
    assert_eq!(pixel(&output, 2, 0), [0, 0, 0, 255]);
}

#[test]
fn posters_fit_the_background_and_keep_it_outside_the_text() {
    let background = Raster { width: 540, height: 960, pixels: [200, 200, 200, 255].repeat(540 * 960) };
    let bytes = encode(&background, EncodeSettings::Png { compression: PngCompression::Default }).unwrap();
    let text = Raster { width: 2, height: 2, pixels: vec![255, 0, 0, 255].repeat(4) };
    let png = render_poster(&bytes, &vec![RasterLayer { image: text, x: 10, y: 20 }]).expect("poster");
    let poster = decode(&png).unwrap();
    assert_eq!((poster.width, poster.height), (1080, 1920));
    let at = |x: u32, y: u32| &poster.pixels[(4 * (y * 1080 + x)) as usize..(4 * (y * 1080 + x) + 4) as usize];
    assert_eq!(at(10, 20), &[255, 0, 0, 255]);
    assert!(at(500, 500).iter().zip([200u8, 200, 200, 255]).all(|(a, b)| a.abs_diff(b) <= 1));
    assert!(render_poster(b"not an image", &vec![]).is_err());
}
