use std::io::Cursor;

use impressy::animation::{compose, GifParams, Playback};
use impressy::error::CoreError;
use impressy::raster::Raster;

fn filled(width: u32, height: u32, rgba: [u8; 4]) -> Raster {
    let mut pixels = Vec::new();
    for _ in 0..width * height {
        pixels.extend_from_slice(&rgba);
    }
    Raster { width, height, pixels }
}

fn frame_count(bytes: &[u8]) -> usize {
    let decoder = image::codecs::gif::GifDecoder::new(Cursor::new(bytes)).expect("decode GIF");
    image::AnimationDecoder::into_frames(decoder).count()
}

fn params(delay: u32, playback: Playback) -> GifParams {
    GifParams { frame_delay_ms: delay, dimensions: None, playback }
}

#[test]
fn ping_pong_frame_count_matches_the_looping_preview_sequence() {
    let frames: Vec<Raster> = (0..4).map(|value| filled(4, 4, [value, 0, 0, 255])).collect();
    let bytes = compose(&frames, &params(100, Playback::PingPong)).expect("compose ping-pong GIF");
    assert_eq!(frame_count(&bytes), 7);
}

#[test]
fn forward_and_reverse_keep_the_frame_count() {
    let frames: Vec<Raster> = (0..3).map(|value| filled(4, 4, [value * 40, 0, 0, 255])).collect();
    assert_eq!(frame_count(&compose(&frames, &params(200, Playback::Forward)).unwrap()), 3);
    assert_eq!(frame_count(&compose(&frames, &params(200, Playback::Reverse)).unwrap()), 3);
}

#[test]
fn frames_of_other_sizes_are_fitted_to_the_output() {
    let frames = vec![filled(4, 4, [1, 2, 3, 255]), filled(8, 2, [4, 5, 6, 255])];
    let gif = GifParams { frame_delay_ms: 150, dimensions: Some((6, 5)), playback: Playback::Forward };
    let bytes = compose(&frames, &gif).expect("fitted frames");
    let decoder = image::codecs::gif::GifDecoder::new(Cursor::new(bytes.as_slice())).unwrap();
    let first = image::AnimationDecoder::into_frames(decoder).next().unwrap().unwrap();
    assert_eq!(first.buffer().dimensions(), (6, 5));
}

#[test]
fn invalid_animation_requests_are_refused() {
    let frames = vec![filled(2, 2, [0, 0, 0, 255])];
    assert!(matches!(compose(&Vec::new(), &params(100, Playback::Forward)), Err(CoreError::InvalidArgument(_))));
    assert!(matches!(compose(&frames, &params(99, Playback::Forward)), Err(CoreError::InvalidArgument(_))));
    assert!(matches!(compose(&frames, &params(801, Playback::Forward)), Err(CoreError::InvalidArgument(_))));
    let zero = GifParams { frame_delay_ms: 100, dimensions: Some((0, 3)), playback: Playback::Forward };
    assert!(matches!(compose(&frames, &zero), Err(CoreError::InvalidArgument(_))));
    let huge = GifParams { frame_delay_ms: 100, dimensions: Some((70_000, 3)), playback: Playback::Forward };
    assert!(matches!(compose(&frames, &huge), Err(CoreError::InvalidArgument(_))));
}
