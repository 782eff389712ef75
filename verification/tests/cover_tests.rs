use impressy::cover::{aspect_ratio_is_close, exact_cover};
use impressy::raster::Raster;

fn filled(width: u32, height: u32, rgba: [u8; 4]) -> Raster {
    let mut pixels = Vec::new();
    for _ in 0..width * height {
        pixels.extend_from_slice(&rgba);
    }
    Raster { width, height, pixels }
}

#[test]
fn local_platform_crop_has_exact_dimensions_without_stretching() {
    let source = filled(1_000, 1_000, [1, 2, 3, 255]);
    let output = exact_cover(&source, 800, 800).expect("local crop");
    assert_eq!((output.width, output.height), (800, 800));
    assert!(aspect_ratio_is_close(1_000, 1_000, 800, 800));
    assert!(!aspect_ratio_is_close(1_000, 1_000, 900, 383));
}

#[test]
fn wide_sources_are_cropped_to_the_target_proportions() {
    let source = filled(300, 100, [9, 9, 9, 255]);
    let output = exact_cover(&source, 50, 50).expect("square crop");
    assert_eq!((output.width, output.height), (50, 50));
    assert!(exact_cover(&source, 0, 50).is_err());
    assert!(exact_cover(&filled(0, 0, [0, 0, 0, 0]), 10, 10).is_err());
}

#[test]
fn ratio_closeness_allows_eight_percent() {
    assert!(aspect_ratio_is_close(107, 100, 100, 100));
    assert!(!aspect_ratio_is_close(109, 100, 100, 100));
    assert!(!aspect_ratio_is_close(100, 100, 0, 100));
}
