//! Sample-rate conversion to the pipeline's fixed rate: the decisions around
//! the converter, its configuration, and the two-phase sizing of its output.
//!
//! The converter itself is the caller's. This module decides whether it runs
//! at all, fixes what it is configured with, prepares the output buffer from
//! the converter's upper bound, and cuts the buffer to what was written.

use vstd::prelude::*;
use audioadapter_buffers::direct::InterleavedSlice;
use audioadapter_buffers::SizeError;
use crate::error::PipelineError;

verus! {

/// The rate, in hertz, of every signal after this stage.
pub const TARGET_RATE: u32 = 16000;

/// The number of input frames that the converter analyses at a time.
pub const CHUNK_FRAMES: usize = 1024;

/// The number of parts a chunk is processed in.
pub const SUB_CHUNKS: usize = 1;

/// The width, in frames, of the band around the exact length in which the
/// converter's output length lies: it rounds the exact length up to a frame.
pub const LENGTH_TOLERANCE: usize = 1;

/// What a converter for one signal is constructed with.
#[derive(Clone, Copy, Debug, PartialEq, Eq, Structural)]
pub struct ResamplerConfig {
    /// The rate of the input in hertz; never zero.
    pub rate_in: usize,
    /// The rate of the output in hertz.
    pub rate_out: usize,
    /// The chunk length in input frames; the input side is the fixed one.
    pub chunk_frames: usize,
    pub sub_chunks: usize,
    pub channels: usize,
}

/// A mono signal on its way through the stage.
pub enum ResampleStep<S> {
    /// The signal is at the target rate: these are the stage's output samples.
    Ready(Vec<S>),
    /// The signal must be converted with a converter of this configuration.
    Convert { input: Vec<S>, config: ResamplerConfig },
}

/// What constructing the converter came to.
#[derive(Clone, Copy, Debug, PartialEq, Eq, Structural)]
pub enum ConverterSetup {
    /// The converter refused its configuration.
    Rejected,
    /// The converter stands, and needs an output buffer of this many frames
    /// at least to take the whole signal.
    Made { needed_frames: usize },
}

/// What running the converter over the whole signal came to.
#[derive(Clone, Copy, Debug, PartialEq, Eq, Structural)]
pub enum ConverterRun {
    /// The converter gave up, as over buffers of the wrong shape.
    Failed,
    /// The converter wrote this many frames to the start of the output buffer.
    Written { frames: usize },
}

/// The configuration for an input at `sample_rate`.
pub open spec fn config_for(sample_rate: u32) -> ResamplerConfig {
    ResamplerConfig {
        rate_in: sample_rate as usize,
        rate_out: TARGET_RATE as usize,
        chunk_frames: CHUNK_FRAMES,
        sub_chunks: SUB_CHUNKS,
        channels: 1,
    }
}

/// The exact output length for `input_len` frames at `sample_rate`, rounded
/// up to a whole frame.
pub open spec fn nominal_len(input_len: int, sample_rate: int) -> int {
    (input_len * TARGET_RATE as int + sample_rate - 1) / sample_rate
}

/// `output_len` lies within `LENGTH_TOLERANCE` frames of the exact ratio
/// `input_len * TARGET_RATE / sample_rate`, taken as a fraction.
pub open spec fn in_tolerance(output_len: int, input_len: int, sample_rate: int) -> bool {
    &&& (output_len - LENGTH_TOLERANCE as int) * sample_rate <= input_len * TARGET_RATE as int
    &&& input_len * TARGET_RATE as int <= (output_len + LENGTH_TOLERANCE as int) * sample_rate
}

/// Starts the stage for a mono signal at `sample_rate`.
///
/// A signal at the target rate passes through untouched, and no converter is
/// asked for. A rate of zero admits no converter. Any other rate asks for a
/// converter of one channel from that rate to the target rate.
pub fn begin_resample<S>(mono: Vec<S>, sample_rate: u32) -> (r: Result<
    ResampleStep<S>,
    PipelineError,
>)
    ensures
        match r {
            Ok(ResampleStep::Ready(out)) => sample_rate == TARGET_RATE && out@ == mono@,
            Ok(ResampleStep::Convert { input, config }) => {
                &&& sample_rate != TARGET_RATE
                &&& sample_rate != 0
                &&& input@ == mono@
                &&& config == config_for(sample_rate)
            },
            Err(e) => sample_rate == 0 && e == PipelineError::ResamplerInit,
        },
{
    if sample_rate == TARGET_RATE {
        Ok(ResampleStep::Ready(mono))
    } else if sample_rate == 0 {
        Err(PipelineError::ResamplerInit)
    } else {
        Ok(
            ResampleStep::Convert {
                input: mono,
                config: ResamplerConfig {
                    rate_in: sample_rate as usize,
                    rate_out: TARGET_RATE as usize,
                    chunk_frames: CHUNK_FRAMES,
                    sub_chunks: SUB_CHUNKS,
                    channels: 1,
                },
            },
        )
    }
}

/// The first phase of sizing: for a converter that stands, a buffer of
/// silence of the length it needs; for one that was refused, the error.
pub fn output_buffer<S: Copy>(setup: ConverterSetup, silence: S) -> (r: Result<
    Vec<S>,
    PipelineError,
>)
    ensures
        match setup {
            ConverterSetup::Rejected => r is Err && r->Err_0 == PipelineError::ResamplerInit,
            ConverterSetup::Made { needed_frames } => r is Ok && r->Ok_0@ == Seq::new(
                needed_frames as nat,
                |i: int| silence,
            ),
        },
{
    let needed: usize = match setup {
        ConverterSetup::Rejected => {
            return Err(PipelineError::ResamplerInit);
        },
        ConverterSetup::Made { needed_frames } => needed_frames,
    };
    let mut out: Vec<S> = Vec::with_capacity(needed);
    let mut i: usize = 0;
    while i < needed
        invariant
            i <= needed,
            out@ == Seq::new(i as nat, |j: int| silence),
        decreases needed - i,
    {
        out.push(silence);
        i += 1;
        assert(out@ =~= Seq::new(i as nat, |j: int| silence));
    }
    Ok(out)
}

/// The second phase of sizing: after a run that wrote, the buffer cut to the
/// frames written, where a count beyond the buffer leaves it whole; after a
/// run that failed, the error.
pub fn finish_resample<S>(out: Vec<S>, run: ConverterRun) -> (r: Result<Vec<S>, PipelineError>)
    ensures
        match run {
            ConverterRun::Failed => r is Err && r->Err_0 == PipelineError::Resample,
            ConverterRun::Written { frames } => r is Ok && r->Ok_0@ == (if frames <= out@.len() {
                out@.take(frames as int)
            } else {
                out@
            }),
        },
{
    match run {
        ConverterRun::Failed => Err(PipelineError::Resample),
        ConverterRun::Written { frames } => {
            let mut pcm = out;
            pcm.truncate(frames);
            Ok(pcm)
        },
    }
}

/// The adapter through which the converter reads or writes a flat buffer as
/// frames of interleaved channels.
#[verifier::external_type_specification]
#[verifier::external_body]
#[verifier::reject_recursive_types(U)]
pub struct ExInterleavedSlice<U>(InterleavedSlice<U>);

/// The adapter's complaint about a buffer that is too short.
#[verifier::external_type_specification]
#[verifier::external_body]
pub struct ExSizeError(SizeError);

/// `InterleavedSlice::new`: wraps `buf` as `frames` frames of `channels`
/// channels, and succeeds exactly if `buf` holds at least that many samples.
#[verifier::external_body]
fn wrap_slice<'a, S>(buf: &'a [S], channels: usize, frames: usize) -> (r: Result<
    InterleavedSlice<&'a [S]>,
    SizeError,
>)
    requires
        frames * channels <= usize::MAX,
    ensures
        r is Ok <==> buf@.len() >= frames * channels,
{
    InterleavedSlice::new(buf, channels, frames)
}

/// `InterleavedSlice::new_mut`: wraps `buf` for writing as `frames` frames of
/// `channels` channels, and succeeds exactly if `buf` holds at least that
/// many samples.
#[verifier::external_body]
fn wrap_slice_mut<'a, S>(buf: &'a mut [S], channels: usize, frames: usize) -> (r: Result<
    InterleavedSlice<&'a mut [S]>,
    SizeError,
>)
    requires
        frames * channels <= usize::MAX,
    ensures
        r is Ok <==> old(buf)@.len() >= frames * channels,
{
    InterleavedSlice::new_mut(buf, channels, frames)
}

/// The adapter over a whole mono signal, one frame per sample, for the converter to read from.
pub fn input_adapter<'a, S>(mono: &'a [S]) -> (r: Result<Reader<'a, S>, PipelineError>)
    ensures
        frames_all(r, mono@),
{
    let frames: usize = mono.len();
    match wrap_slice(mono, 1, frames) {
        Ok(adapter) => Ok(Framed { adapter, frames, channels: 1, source: Ghost(mono@) }),
        Err(_) => Err(PipelineError::Resample),
    }
}

/// The adapter over a whole output buffer, one frame per sample, for the converter to write to.
pub fn output_adapter<'a, S>(out: &'a mut [S]) -> (r: Result<
    Writer<'a, S>,
    PipelineError,
>)
    ensures
        frames_all(r, old(out)@),
{
    let frames: usize = out.len();
    let ghost before = out@;
    match wrap_slice_mut(out, 1, frames) {
        Ok(adapter) => Ok(Framed { adapter, frames, channels: 1, source: Ghost(before) }),
        Err(_) => Err(PipelineError::Resample),
    }
}

/// An adapter together with what its constructor was handed: the converter
/// is given the adapter, and is told the frame count that goes with it.
pub struct Framed<A, S> {
    /// The adapter itself.
    pub adapter: A,
    /// The number of frames that the adapter was made for.
    pub frames: usize,
    /// The number of interleaved channels that the adapter was made for.
    pub channels: usize,
    /// The samples that the buffer held when the adapter was made over it.
    pub source: Ghost<Seq<S>>,
}

/// An adapter to read a buffer through.
pub type Reader<'a, S> = Framed<InterleavedSlice<&'a [S]>, S>;

/// An adapter to write a buffer through.
pub type Writer<'a, S> = Framed<InterleavedSlice<&'a mut [S]>, S>;

/// `r` holds an adapter with what it was made for: a buffer holding
/// `samples`, all of it, as one frame of one channel for each sample.
pub open spec fn frames_all<A, S>(r: Result<Framed<A, S>, PipelineError>, samples: Seq<S>) -> bool {
    &&& r is Ok
    &&& r->Ok_0.frames == samples.len()
    &&& r->Ok_0.channels == 1
    &&& r->Ok_0.source@ == samples
}

/// The exact output length, rounded up to a whole frame.
pub fn nominal_output_len(input_len: usize, sample_rate: u32) -> (n: u128)
    requires
        sample_rate > 0,
    ensures
        n == nominal_len(input_len as int, sample_rate as int),
{
    let scaled: u128 = (input_len as u128) * (TARGET_RATE as u128);
    (scaled + (sample_rate as u128 - 1)) / (sample_rate as u128)
}

/// Tells whether an output of `output_len` frames is within tolerance for an
/// input of `input_len` frames at `sample_rate`.
pub fn length_in_tolerance(output_len: usize, input_len: usize, sample_rate: u32) -> (ok: bool)
    ensures
        ok == in_tolerance(output_len as int, input_len as int, sample_rate as int),
{
    let rate: u128 = sample_rate as u128;
    let exact: u128 = (input_len as u128) * (TARGET_RATE as u128);
    assert((output_len + LENGTH_TOLERANCE) * rate <= 0x1_0000_0000_0000_0000 * 0x1_0000_0000)
        by (nonlinear_arith)
        requires
            0 <= output_len + LENGTH_TOLERANCE <= 0x1_0000_0000_0000_0000,
            0 <= rate <= 0x1_0000_0000,
    ;
    let upper: u128 = (output_len as u128 + LENGTH_TOLERANCE as u128) * rate;
    if output_len >= LENGTH_TOLERANCE {
        assert((output_len - LENGTH_TOLERANCE) * rate <= 0x1_0000_0000_0000_0000 * 0x1_0000_0000)
            by (nonlinear_arith)
            requires
                0 <= output_len - LENGTH_TOLERANCE <= 0x1_0000_0000_0000_0000,
                0 <= rate <= 0x1_0000_0000,
        ;
        let lower: u128 = (output_len as u128 - LENGTH_TOLERANCE as u128) * rate;
        lower <= exact && exact <= upper
    } else {
        assert((output_len - LENGTH_TOLERANCE as int) * sample_rate <= 0) by (nonlinear_arith)
            requires
                output_len - LENGTH_TOLERANCE as int <= 0,
                sample_rate >= 0,
        ;
        exact <= upper
    }
}

/// The nominal length is within tolerance of the exact ratio.
pub proof fn lemma_nominal_in_tolerance(input_len: int, sample_rate: int)
    requires
        input_len >= 0,
        sample_rate > 0,
    ensures
        in_tolerance(nominal_len(input_len, sample_rate), input_len, sample_rate),
{
    let x = input_len * TARGET_RATE as int;
    let n = nominal_len(input_len, sample_rate);
    let y = x + sample_rate - 1;
    assert(y == sample_rate * (y / sample_rate) + y % sample_rate && 0 <= y % sample_rate
        < sample_rate) by (nonlinear_arith)
        requires
            sample_rate > 0,
    ;
    assert(n == y / sample_rate);
    assert((n - 1) * sample_rate == sample_rate * n - sample_rate) by (nonlinear_arith);
    assert((n + 1) * sample_rate == sample_rate * n + sample_rate) by (nonlinear_arith);
}

/// At the target rate the nominal length is the input length.
pub proof fn lemma_nominal_at_target(input_len: int)
    requires
        input_len >= 0,
    ensures
        nominal_len(input_len, TARGET_RATE as int) == input_len,
{
    assert((input_len * 16000 + 15999) / 16000 == input_len) by (nonlinear_arith)
        requires
            input_len >= 0,
    ;
}

} // verus!
