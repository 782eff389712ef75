//! Animated GIF assembly.
//!
//! Frame delays are stored by GIF in hundredths of a second; milliseconds are rounded to
//! the nearest centisecond, at least 1.

use vstd::prelude::*;

use crate::error::CoreError;
use crate::raster::{rgba_len, Raster, RasterView};
use crate::transform::{resampled, resize, ResizeFilter};

verus! {

/// Frame order of the animation.
#[derive(Debug, Clone, Copy, PartialEq, Eq, Structural)]
pub enum Playback {
    /// First to last.
    Forward,
    /// Last to first.
    Reverse,
    /// First to last, then back towards the first without repeating either end.
    PingPong,
}

impl Default for Playback {
    fn default() -> (playback: Self)
        ensures
            playback == Playback::Forward,
    {
        Playback::Forward
    }
}

/// GIF encoding parameters.
#[derive(Debug, Clone, Copy)]
pub struct GifParams {
    /// Delay between frames in milliseconds; 100–800 is accepted.
    pub frame_delay_ms: u32,
    /// Output size; `None` takes the first frame's size.
    pub dimensions: Option<(u32, u32)>,
    /// Frame order.
    pub playback: Playback,
}

/// Shortest accepted frame delay, in milliseconds.
pub const MIN_FRAME_DELAY_MS: u32 = 100;

/// Longest accepted frame delay, in milliseconds.
pub const MAX_FRAME_DELAY_MS: u32 = 800;

/// `frames` in playback order: as given, reversed, or forward then backward without the
/// last frame repeated (ping-pong also ends before the first frame, so looping never
/// shows it twice in a row).
pub open spec fn play_order<A>(frames: Seq<A>, playback: Playback) -> Seq<A> {
    match playback {
        Playback::Forward => frames,
        Playback::Reverse => frames.reverse(),
        Playback::PingPong => frames + frames.take(frames.len() - 1).reverse(),
    }
}

/// The frames shown, by playback: forward shows them as given; reverse shows frame
/// `n-1-i` at step `i`; ping-pong shows them forward and then back down to the second
/// frame, frame `2n-2-i` at step `i >= n`.
pub proof fn law_play_order_frames<A>(frames: Seq<A>)
    ensures
        play_order(frames, Playback::Forward).len() == frames.len(),
        forall|i: int| 0 <= i < frames.len() ==> #[trigger] play_order(frames, Playback::Forward)[i] == frames[i],
        play_order(frames, Playback::Reverse).len() == frames.len(),
        forall|i: int|
            0 <= i < frames.len() ==> #[trigger] play_order(frames, Playback::Reverse)[i] == frames[frames.len() - 1 - i],
        frames.len() > 0 ==> play_order(frames, Playback::PingPong).len() == 2 * frames.len() - 1,
        frames.len() > 0 ==> forall|i: int|
            0 <= i < frames.len() ==> #[trigger] play_order(frames, Playback::PingPong)[i] == frames[i],
        frames.len() > 0 ==> forall|i: int|
            frames.len() <= i < 2 * frames.len() - 1 ==> #[trigger] play_order(frames, Playback::PingPong)[i]
                == frames[2 * frames.len() - 2 - i],
{
}

/// The GIF delay (hundredths of a second) for a frame delay in milliseconds: rounded to
/// the nearest hundredth, at least one.
pub open spec fn delay_centiseconds(ms: u32) -> u16 {
    let cs = (ms + 5) / 10;
    if cs < 1 {
        1
    } else {
        cs as u16
    }
}

/// The output size: the requested one, or the first frame's.
pub open spec fn target_size(frames: Seq<Raster>, params: GifParams) -> (u32, u32) {
    match params.dimensions {
        Some(d) => d,
        None => (frames[0].width, frames[0].height),
    }
}

/// A frame's pixels at the output size: unchanged when it already has that size,
/// otherwise resampled (Lanczos3).
pub open spec fn fitted(frame: RasterView, w: u32, h: u32) -> Seq<u8> {
    if frame.width == w && frame.height == h {
        frame.pixels
    } else {
        resampled(frame.pixels, frame.width, frame.height, w, h, ResizeFilter::Lanczos3)
    }
}

/// The RGBA frames of an animation at the output size, in input order.
pub open spec fn fitted_frames(frames: Seq<Raster>, w: u32, h: u32) -> Seq<Seq<u8>> {
    frames.map_values(|f: Raster| fitted(f@, w, h))
}

/// What the `gif` crate gives when writing `frames` (RGBA, `width` × `height` each,
/// quantized per frame), each shown for `delay_cs` hundredths of a second, looping
/// forever: the bytes of the file, or the text of its encoding error.
pub uninterp spec fn gif_encoding(width: u16, height: u16, delay_cs: u16, frames: Seq<Seq<u8>>) -> Result<
    Seq<u8>,
    Seq<char>,
>;

/// The pixel buffers of a list of rasters.
pub open spec fn frame_pixels(frames: Seq<Raster>) -> Seq<Seq<u8>> {
    frames.map_values(|f: Raster| f.pixels@)
}

/// `gif::Encoder`: writes a looping GIF of `frames` (each converted with
/// `gif::Frame::from_rgba_speed` at speed 10 and shown for `delay_cs`) into memory. The
/// written bytes, or the encoder's error text (reported as [`CoreError::GifEncode`]), are
/// a function of the arguments.
#[verifier::external_body]
fn encode_gif(width: u16, height: u16, delay_cs: u16, frames: &Vec<Raster>) -> (out: Result<Vec<u8>, CoreError>)
    requires
        forall|i: int| 0 <= i < frames.len() ==> (#[trigger] frames[i]).wf() && frames[i].width == width
            && frames[i].height == height,
    ensures
        match gif_encoding(width, height, delay_cs, frame_pixels(frames@)) {
            Ok(b) => (out matches Ok(v) && v@ == b),
            Err(t) => (out matches Err(CoreError::GifEncode { detail }) && detail@ == t),
        },
{
    let fail = |e: gif::EncodingError| CoreError::GifEncode { detail: e.to_string() };
    let mut encoder = gif::Encoder::new(Vec::new(), width, height, &[]).map_err(fail)?;
    encoder.set_repeat(gif::Repeat::Infinite).map_err(fail)?;
    for frame in frames {
        let mut rgba = frame.pixels.clone();
        let mut gif_frame = gif::Frame::from_rgba_speed(width, height, &mut rgba, 10);
        gif_frame.delay = delay_cs;
        encoder.write_frame(&gif_frame).map_err(fail)?;
    }
    encoder.into_inner().map_err(fail)
}

/// Whether the animation parameters are accepted for these frames: at least one frame,
/// a delay of 100–800 ms, and a non-empty output of at most 65535 × 65535 pixels.
pub open spec fn gif_accepted(frames: Seq<Raster>, params: GifParams) -> bool {
    &&& frames.len() > 0
    &&& MIN_FRAME_DELAY_MS <= params.frame_delay_ms <= MAX_FRAME_DELAY_MS
    &&& target_size(frames, params).0 > 0 && target_size(frames, params).1 > 0
    &&& target_size(frames, params).0 <= u16::MAX && target_size(frames, params).1 <= u16::MAX
}

/// Encodes `frames` as a looping GIF: each frame is brought to the output size, the
/// frames are put in playback order and all get the same delay. Refused (as an invalid
/// argument) without frames, with a delay outside 100–800 ms, or with an empty or
/// oversized output.
pub fn compose(frames: &Vec<Raster>, params: &GifParams) -> (out: Result<Vec<u8>, CoreError>)
    requires
        forall|i: int| 0 <= i < frames.len() ==> (#[trigger] frames[i]).wf(),
        rgba_len(u16::MAX as int, u16::MAX as int) <= usize::MAX,
    ensures
        !gif_accepted(frames@, *params) ==> (out matches Err(e) && e is InvalidArgument),
        gif_accepted(frames@, *params) ==> {
            let (w, h) = target_size(frames@, *params);
            match gif_encoding(
                w as u16,
                h as u16,
                delay_centiseconds(params.frame_delay_ms),
                play_order(fitted_frames(frames@, w, h), params.playback),
            ) {
                Ok(b) => (out matches Ok(v) && v@ == b),
                Err(t) => (out matches Err(CoreError::GifEncode { detail }) && detail@ == t),
            }
        },
{
    if frames.len() == 0 {
        return Err(CoreError::InvalidArgument(String::from_str("an animation needs at least one frame")));
    }
    if params.frame_delay_ms < MIN_FRAME_DELAY_MS || params.frame_delay_ms > MAX_FRAME_DELAY_MS {
        return Err(CoreError::InvalidArgument(String::from_str("the frame delay must be 100–800 ms")));
    }
    let (tw, th) = match params.dimensions {
        Some(d) => d,
        None => (frames[0].width, frames[0].height),
    };
    if tw == 0 || th == 0 {
        return Err(CoreError::InvalidArgument(String::from_str("the animation size must not be zero")));
    }
    if tw > 65535 || th > 65535 {
        return Err(CoreError::InvalidArgument(String::from_str("the animation size exceeds 65535")));
    }
    let ghost fitted_seq = fitted_frames(frames@, tw, th);
    let mut resized: Vec<Raster> = Vec::new();
    let mut i: usize = 0;
    proof {
        assert(rgba_len(tw as int, th as int) <= rgba_len(u16::MAX as int, u16::MAX as int)) by (nonlinear_arith)
            requires tw <= u16::MAX, th <= u16::MAX;
    }
    while i < frames.len()
        invariant
            i <= frames.len(),
            0 < tw <= u16::MAX,
            0 < th <= u16::MAX,
            rgba_len(tw as int, th as int) <= usize::MAX,
            forall|j: int| 0 <= j < frames.len() ==> (#[trigger] frames[j]).wf(),
            fitted_seq == fitted_frames(frames@, tw, th),
            resized.len() == i,
            forall|j: int| 0 <= j < i ==> (#[trigger] resized[j]).wf() && resized[j].width == tw && resized[j].height == th
                && resized[j].pixels@ == fitted_seq[j],
        decreases frames.len() - i,
    {
        let frame = &frames[i];
        let next = if frame.width == tw && frame.height == th {
            frame.clone_raster()
        } else {
            match resize(frame, tw, th, ResizeFilter::default()) {
                Ok(r) => r,
                Err(e) => {
                    return Err(e);
                },
            }
        };
        resized.push(next);
        i = i + 1;
    }
    let n = resized.len();
    let ordered: Vec<Raster> = match params.playback {
        Playback::Forward => resized,
        Playback::Reverse => {
            let mut out: Vec<Raster> = Vec::new();
            let mut k: usize = n;
            while k > 0
                invariant
                    k <= n,
                    n == resized.len(),
                    out.len() == n - k,
                    forall|j: int| 0 <= j < out.len() ==> (#[trigger] out[j])@ == resized[n - 1 - j]@,
                decreases k,
            {
                k = k - 1;
                out.push(resized[k].clone_raster());
            }
            out
        },
        Playback::PingPong => {
            let mut out: Vec<Raster> = Vec::new();
            let mut j: usize = 0;
            while j < n
                invariant
                    j <= n,
                    n == resized.len(),
                    out.len() == j,
                    forall|m: int| 0 <= m < j ==> (#[trigger] out[m])@ == resized[m]@,
                decreases n - j,
            {
                out.push(resized[j].clone_raster());
                j = j + 1;
            }
            let mut k: usize = n - 1;
            while k > 0
                invariant
                    k <= n - 1,
                    n == resized.len(),
                    n > 0,
                    out.len() == n + (n - 1 - k),
                    forall|m: int| 0 <= m < n ==> (#[trigger] out[m])@ == resized[m]@,
                    forall|m: int| n <= m < out.len() ==> (#[trigger] out[m])@ == resized[2 * n - 2 - m]@,
                decreases k,
            {
                k = k - 1;
                out.push(resized[k].clone_raster());
            }
            out
        },
    };
    let delay = if params.frame_delay_ms + 5 < 10 {
        1u16
    } else {
        ((params.frame_delay_ms + 5) / 10) as u16
    };
    proof {
        let spec_resized = frame_pixels(resized@);
        assert(spec_resized =~= fitted_seq);
        let expected = play_order(fitted_seq, params.playback);
        assert(frame_pixels(ordered@) =~= expected) by {
            match params.playback {
                Playback::Forward => {},
                Playback::Reverse => {
                    assert forall|j: int| 0 <= j < ordered.len() implies frame_pixels(ordered@)[j] == expected[j] by {
                        assert(ordered[j]@ == resized[n - 1 - j]@);
                    }
                },
                Playback::PingPong => {
                    assert forall|j: int| 0 <= j < ordered.len() implies frame_pixels(ordered@)[j] == expected[j] by {
                        if j < n {
                            assert(ordered[j]@ == resized[j]@);
                        } else {
                            assert(ordered[j]@ == resized[2 * n - 2 - j]@);
                        }
                    }
                },
            }
        }
    }
    encode_gif(tw as u16, th as u16, delay, &ordered)
}

/// The number of frames an animation shows per loop: the input count forwards or
/// reversed, and twice that less one in ping-pong.
pub proof fn law_played_frame_count<A>(frames: Seq<A>, playback: Playback)
    requires
        frames.len() > 0,
    ensures
        play_order(frames, playback).len() == match playback {
            Playback::PingPong => 2 * frames.len() - 1,
            _ => frames.len() as int,
        },
{
}

} // verus!
