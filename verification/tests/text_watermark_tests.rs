use impressy::text_watermark::{prepare_text, WatermarkTextError, MAX_CHARS};

#[test]
fn rejects_empty_text_without_loading_fonts() {
    assert!(prepare_text("  \n ").is_err());
}

#[test]
fn rejects_unbounded_watermark_text() {
    let text = "x".repeat(MAX_CHARS + 1);
    assert!(prepare_text(&text).is_err());
}

#[test]
fn watermark_text_is_trimmed_and_limited_after_trimming() {
    assert_eq!(prepare_text("  © Studio \t"), Ok("© Studio".to_string()));
    let padded = format!("  {}  ", "字".repeat(MAX_CHARS));
    assert_eq!(prepare_text(&padded).map(|t| t.chars().count()), Ok(MAX_CHARS));
    assert_eq!(prepare_text(""), Err(WatermarkTextError::Empty));
    assert_eq!(prepare_text(&"y".repeat(MAX_CHARS + 1)), Err(WatermarkTextError::TooLong));
    assert_eq!(WatermarkTextError::Empty.message(), "text watermark is empty");
}

use impressy::raster::Color;
use impressy::text_watermark::GlyphCanvas;

#[test]
fn glyph_canvas_crops_to_painted_pixels_and_clips_at_edges() {
    let mut canvas = GlyphCanvas::new(10, 6);
    assert!(canvas.finish().is_none());
    let white = Color { r: 255, g: 255, b: 255, a: 200 };
    canvas.plot(-2, 1, 4, 2, white);
    canvas.plot(5, 3, 2, 1, white);
    canvas.plot(0, 0, 10, 6, Color { r: 9, g: 9, b: 9, a: 0 });
    let image = canvas.finish().expect("painted pixels");
    assert_eq!((image.width, image.height), (7, 3));
    assert_eq!(&image.pixels[0..4], &[255, 255, 255, 200]);
    let last = image.pixels.len() - 4;
    assert_eq!(&image.pixels[last..], &[255, 255, 255, 200]);
    assert_eq!(image.pixels[3 * 4 + 3], 0);
}
