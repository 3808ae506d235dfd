//! Channel downmixing: interleaved multi-channel samples to one channel.
//!
//! The arithmetic that reduces one frame to one sample is the caller's: the
//! stage is handed a function for it and applies it frame by frame.

use vstd::prelude::*;
use vstd::slice::slice_subrange;
use crate::decode::DecodedAudio;

verus! {

/// The samples of frame `f` of an interleaved signal with `channels` channels.
pub open spec fn frame_of<S>(samples: Seq<S>, channels: int, f: int) -> Seq<S> {
    samples.subrange(f * channels, f * channels + channels)
}

/// The number of whole frames in `len` interleaved samples.
pub open spec fn frame_count(len: int, channels: int) -> int {
    len / channels
}

/// `m` is a value that `mean` may return for a slice holding `frame`.
pub open spec fn reduces_to<S, F: Fn(&[S]) -> S>(mean: F, frame: Seq<S>, m: S) -> bool {
    exists|s: &[S]| s@ == frame && #[trigger] call_ensures(mean, (s,), m)
}

/// `mean` is ready to reduce every frame of `channels` samples. With one
/// channel nothing is asked of it: it is not called.
pub open spec fn reduces_frames<S, F: Fn(&[S]) -> S>(mean: F, channels: int) -> bool {
    channels != 1 ==> forall|frame: &[S]| frame@.len() == channels ==> call_requires(mean, (frame,))
}

/// `mono` is a downmix of `samples` by `mean`: the samples themselves where
/// there is one channel, else one value of `mean` for each whole frame.
pub open spec fn is_downmix<S, F: Fn(&[S]) -> S>(
    mean: F,
    samples: Seq<S>,
    channels: int,
    mono: Seq<S>,
) -> bool {
    &&& channels == 1 ==> mono == samples
    &&& mono.len() == frame_count(samples.len() as int, channels)
    &&& channels != 1 ==> forall|f: int|
        0 <= f < mono.len() ==> reduces_to(mean, frame_of(samples, channels, f), #[trigger] mono[f])
}

/// Reduces interleaved samples to one channel.
///
/// With one channel the samples come back as they are and `mean` is not
/// called. Otherwise output `f` is what `mean` returns for the
/// `channel_count` consecutive samples of frame `f`; samples after the last
/// whole frame, if there are any, are left out. Audio of whole frames gives
/// a signal that is not empty, with one sample for each frame.
pub fn downmix<S, F>(audio: DecodedAudio<S>, mean: F) -> (mono: Vec<S>) where F: Fn(&[S]) -> S
    requires
        audio.channel_count > 0,
        reduces_frames(mean, audio.channel_count as int),
    ensures
        is_downmix(mean, audio.samples@, audio.channel_count as int, mono@),
        audio.wf() ==> mono@.len() > 0 && mono@.len() * audio.channel_count == audio.samples@.len(),
{
    proof {
        if audio.wf() {
            lemma_whole_frames_downmix(audio.samples@.len() as int, audio.channel_count as int);
        }
    }
    let channels = audio.channel_count;
    let samples = audio.samples;
    if channels == 1 {
        return samples;
    }
    let frames: usize = samples.len() / channels;
    let mut out: Vec<S> = Vec::with_capacity(frames);
    let mut f: usize = 0;
    while f < frames
        invariant
            channels > 1,
            samples@.len() <= usize::MAX,
            frames == samples@.len() as int / channels as int,
            f <= frames,
            out@.len() == f,
            forall|frame: &[S]| frame@.len() == channels ==> call_requires(mean, (frame,)),
            forall|g: int|
                0 <= g < f ==> reduces_to(
                    mean,
                    frame_of(samples@, channels as int, g),
                    #[trigger] out@[g],
                ),
        decreases frames - f,
    {
        assert(0 <= f * channels && f * channels + channels <= samples@.len()) by {
            lemma_frame_in_bounds(samples@.len() as int, channels as int, f as int);
        }
        let base: usize = f * channels;
        let frame = slice_subrange(samples.as_slice(), base, base + channels);
        let m = mean(frame);
        assert(reduces_to(mean, frame_of(samples@, channels as int, f as int), m));
        out.push(m);
        f += 1;
    }
    out
}

/// Frame `f` of a signal with `len / channels` frames lies within the signal.
pub proof fn lemma_frame_in_bounds(len: int, channels: int, f: int)
    requires
        channels > 0,
        0 <= f < len / channels,
    ensures
        0 <= f * channels,
        f * channels + channels <= len,
{
    assert(f * channels + channels <= len) by (nonlinear_arith)
        requires
            channels > 0,
            0 <= f,
            f + 1 <= len / channels,
    {
        assert((f + 1) * channels <= (len / channels) * channels);
        assert((len / channels) * channels <= len);
    }
    assert(0 <= f * channels) by (nonlinear_arith)
        requires
            channels > 0,
            0 <= f,
    ;
}

/// Whole frames downmix without loss: a signal of whole frames has exactly
/// `channels` samples for each output sample, and at least one output sample
/// if it has any sample at all.
pub proof fn lemma_whole_frames_downmix(len: int, channels: int)
    requires
        channels > 0,
        len > 0,
        len % channels == 0,
    ensures
        frame_count(len, channels) * channels == len,
        frame_count(len, channels) > 0,
{
    assert(len == channels * (len / channels) + len % channels) by (nonlinear_arith)
        requires
            channels > 0,
    ;
    assert((len / channels) * channels == len) by (nonlinear_arith)
        requires
            len == channels * (len / channels),
    ;
    assert(len / channels > 0) by (nonlinear_arith)
        requires
            channels > 0,
            len > 0,
            (len / channels) * channels == len,
    ;
}

} // verus!
