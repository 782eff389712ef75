use impressy::beautify::{canvas_size, corner_radius, draw_border, inside_rounded, round_corners, Border};
use impressy::raster::{Color, Raster};

fn filled(width: u32, height: u32, rgba: [u8; 4]) -> Raster {
    let mut pixels = Vec::new();
    for _ in 0..width * height {
        pixels.extend_from_slice(&rgba);
    }
    Raster { width, height, pixels }
}

fn pixel(image: &Raster, x: u32, y: u32) -> [u8; 4] {
    let i = ((y * image.width + x) * 4) as usize;
    [image.pixels[i], image.pixels[i + 1], image.pixels[i + 2], image.pixels[i + 3]]
}

#[test]
fn border_wider_than_half_the_content_is_clamped() {
    let content = [10, 20, 30, 255];
    let canvas = filled(8, 8, content);
    let border = Border { width: 32, color: Color { r: 200, g: 0, b: 0, a: 255 } };
    let out = draw_border(&canvas, 0, 0, 8, 8, 0, border);
    assert_eq!(pixel(&out, 0, 0), [200, 0, 0, 255]);
    assert_eq!(pixel(&out, 4, 4), content);
    assert_eq!(pixel(&out, 2, 4), [200, 0, 0, 255]);
    assert_eq!(pixel(&out, 3, 4), content);
}

#[test]
fn border_on_single_pixel_content_is_skipped() {
    let content = [10, 20, 30, 255];
    let canvas = filled(1, 1, content);
    let border = Border { width: 8, color: Color { r: 200, g: 0, b: 0, a: 255 } };
    let out = draw_border(&canvas, 0, 0, 1, 1, 0, border);
    assert_eq!(pixel(&out, 0, 0), content);
}

#[test]
fn beautify_padding_dims_grow_by_twice_the_padding() {
    assert_eq!(canvas_size(10, 6, 3), (16, 12));
    assert_eq!(corner_radius(50, 10, 6, 3), 3);
    assert_eq!(corner_radius(2, 10, 6, 3), 2);
}

#[test]
fn rounded_corners_are_transparent_outside_the_outline() {
    let image = filled(8, 8, [100, 150, 200, 255]);
    let out = round_corners(&image, 3);
    assert_eq!(pixel(&out, 0, 0)[3], 0);
    assert_eq!(&pixel(&out, 0, 0)[0..3], &[100, 150, 200]);
    assert_eq!(pixel(&out, 4, 4), [100, 150, 200, 255]);
    assert_eq!(pixel(&out, 3, 0), [100, 150, 200, 255]);
    assert!(!inside_rounded(0, 0, 0, 0, 8, 8, 3));
    assert!(inside_rounded(0, 3, 0, 0, 8, 8, 3));
}
