//! From a decoded stream to a mono signal on its way to the target rate: the
//! stages between the last packet and the converter, taken in one step.

use vstd::prelude::*;
use crate::decode::DecodeSession;
use crate::downmix::{downmix, is_downmix, reduces_frames};
use crate::error::PipelineError;
use crate::resample::{begin_resample, config_for, ResampleStep, TARGET_RATE};

verus! {

/// Ends a decode session, downmixes what it gathered and starts the
/// conversion to the target rate.
///
/// A session that cannot be finished gives its error. Otherwise the samples
/// are downmixed by `mean`, and the mono signal either is the result, where
/// the stream is at the target rate, or waits for a converter of the
/// configuration given with it.
pub fn decode_to_f32_mono_16k<S, F>(session: DecodeSession<S>, mean: F) -> (r: Result<
    ResampleStep<S>,
    PipelineError,
>) where F: Fn(&[S]) -> S
    requires
        session@.finish_error() is None ==> session@.channel_count->0 > 0,
        session@.finish_error() is None ==> reduces_frames(
            mean,
            session@.channel_count->0 as int,
        ),
    ensures
        match r {
            Err(e) => session@.finish_error() == Some(e) || (session@.finish_error() is None
                && session@.sample_rate == Some(0u32) && e == PipelineError::ResamplerInit),
            Ok(ResampleStep::Ready(pcm)) => {
                &&& session@.finish_error() is None
                &&& session@.sample_rate == Some(TARGET_RATE)
                &&& is_downmix(
                    mean,
                    session@.samples,
                    session@.channel_count->0 as int,
                    pcm@,
                )
            },
            Ok(ResampleStep::Convert { input, config }) => {
                &&& session@.finish_error() is None
                &&& session@.sample_rate != Some(TARGET_RATE)
                &&& session@.sample_rate != Some(0u32)
                &&& config == config_for(session@.sample_rate->0)
                &&& is_downmix(
                    mean,
                    session@.samples,
                    session@.channel_count->0 as int,
                    input@,
                )
            },
        },
{
    let audio = match session.finish() {
        Ok(audio) => audio,
        Err(e) => {
            return Err(e);
        },
    };
    let sample_rate = audio.sample_rate;
    let mono = downmix(audio, mean);
    begin_resample(mono, sample_rate)
}

} // verus!
