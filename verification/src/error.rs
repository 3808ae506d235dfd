//! The failures that end the processing of one file.

use vstd::prelude::*;
use vstd::string::StringExecFns;

verus! {

/// The stage of the pipeline in which a failure arose.
#[derive(Clone, Copy, Debug, PartialEq, Eq, Structural)]
pub enum Stage {
    Decode,
    Resample,
    Assemble,
}

impl Stage {
    /// The stage's name in a report.
    pub open spec fn spec_name(self) -> Seq<char> {
        match self {
            Stage::Decode => "decode"@,
            Stage::Resample => "resample"@,
            Stage::Assemble => "assemble"@,
        }
    }

    /// The stage's name in a report.
    pub fn name(self) -> (n: &'static str)
        ensures
            n@ == self.spec_name(),
    {
        match self {
            Stage::Decode => "decode",
            Stage::Resample => "resample",
            Stage::Assemble => "assemble",
        }
    }
}

/// The broad class of a failure, which decides how a caller reacts to it.
#[derive(Clone, Copy, Debug, PartialEq, Eq, Structural)]
pub enum ErrorClass {
    /// The file itself cannot be processed.
    Input,
    /// The stream broke off in a way that a single pass cannot repair.
    Stream,
    /// The sample-rate converter could not be set up or run.
    Resampling,
    /// A defect: a state that a correct pipeline never reaches.
    Internal,
}

/// A fatal, file-specific failure. Transient packet errors are absorbed by
/// the decode session and never surface as a value of this type.
#[derive(Clone, Copy, Debug, PartialEq, Eq, Structural)]
pub enum PipelineError {
    /// The file could not be opened.
    FileNotOpenable,
    /// No known container format matched the byte stream.
    UnsupportedFormat,
    /// The container holds no track with a real codec.
    NoAudioTrack,
    /// No decoder exists for the selected track's codec.
    UnsupportedCodec,
    /// Decoding ended without a single sample.
    EmptyAudio,
    /// Neither the container nor any decoded buffer told the sample rate.
    UnknownSampleRate,
    /// Neither the container nor any decoded buffer told the channel count.
    UnknownChannelCount,
    /// The stream changed format and asks for a fresh decoder.
    ResetRequired,
    /// Reading the next packet failed for a reason other than the stream's end.
    PacketRead,
    /// A packet failed to decode in a way that is not transient.
    DecodeFailed,
    /// The converter rejected its rates or chunk configuration.
    ResamplerInit,
    /// The converter failed while running.
    Resample,
    /// The flat mel sequence does not divide into whole frames.
    InconsistentMelLength,
}

impl PipelineError {
    /// The stage a failure belongs to.
    pub open spec fn spec_stage(self) -> Stage {
        match self {
            PipelineError::ResamplerInit | PipelineError::Resample => Stage::Resample,
            PipelineError::InconsistentMelLength => Stage::Assemble,
            _ => Stage::Decode,
        }
    }

    /// The class a failure belongs to.
    pub open spec fn spec_class(self) -> ErrorClass {
        match self {
            PipelineError::ResetRequired | PipelineError::PacketRead | PipelineError::DecodeFailed =>
                ErrorClass::Stream,
            PipelineError::ResamplerInit | PipelineError::Resample => ErrorClass::Resampling,
            PipelineError::InconsistentMelLength => ErrorClass::Internal,
            _ => ErrorClass::Input,
        }
    }

    /// The cause of a failure in words.
    pub open spec fn spec_message(self) -> Seq<char> {
        match self {
            PipelineError::FileNotOpenable => "failed to open audio file"@,
            PipelineError::UnsupportedFormat => "unsupported format or failed to probe container"@,
            PipelineError::NoAudioTrack => "no supported audio tracks found"@,
            PipelineError::UnsupportedCodec => "failed to create decoder for selected track"@,
            PipelineError::EmptyAudio => "decoded audio was empty"@,
            PipelineError::UnknownSampleRate => "could not determine input sample rate"@,
            PipelineError::UnknownChannelCount => "could not determine channel count"@,
            PipelineError::ResetRequired => "decoder reset required"@,
            PipelineError::PacketRead => "error reading next packet"@,
            PipelineError::DecodeFailed => "unrecoverable decode error"@,
            PipelineError::ResamplerInit => "failed to construct FFT resampler"@,
            PipelineError::Resample => "resampling failed"@,
            PipelineError::InconsistentMelLength => "mel sequence is not a whole number of frames"@,
        }
    }

    #[verifier::when_used_as_spec(spec_stage)]
    pub fn stage(self) -> (s: Stage)
        ensures
            s == self.spec_stage(),
    {
        match self {
            PipelineError::ResamplerInit | PipelineError::Resample => Stage::Resample,
            PipelineError::InconsistentMelLength => Stage::Assemble,
            _ => Stage::Decode,
        }
    }

    #[verifier::when_used_as_spec(spec_class)]
    pub fn class(self) -> (c: ErrorClass)
        ensures
            c == self.spec_class(),
    {
        match self {
            PipelineError::ResetRequired | PipelineError::PacketRead | PipelineError::DecodeFailed =>
                ErrorClass::Stream,
            PipelineError::ResamplerInit | PipelineError::Resample => ErrorClass::Resampling,
            PipelineError::InconsistentMelLength => ErrorClass::Internal,
            _ => ErrorClass::Input,
        }
    }

    /// The line that reports a failed file: the file, the stage that failed
    /// and the cause, in this order.
    pub fn report(self, path: &str) -> (line: String)
        ensures
            line@ == path@ + ": "@ + self.spec_stage().spec_name() + ": "@ + self.spec_message(),
    {
        let mut line = path.to_owned();
        line.append(": ");
        line.append(self.stage().name());
        line.append(": ");
        line.append(self.message());
        line
    }

    /// The cause in words, for the line that reports a failed file.
    pub fn message(self) -> (m: &'static str)
        ensures
            m@ == self.spec_message(),
    {
        match self {
            PipelineError::FileNotOpenable => "failed to open audio file",
            PipelineError::UnsupportedFormat => "unsupported format or failed to probe container",
            PipelineError::NoAudioTrack => "no supported audio tracks found",
            PipelineError::UnsupportedCodec => "failed to create decoder for selected track",
            PipelineError::EmptyAudio => "decoded audio was empty",
            PipelineError::UnknownSampleRate => "could not determine input sample rate",
            PipelineError::UnknownChannelCount => "could not determine channel count",
            PipelineError::ResetRequired => "decoder reset required",
            PipelineError::PacketRead => "error reading next packet",
            PipelineError::DecodeFailed => "unrecoverable decode error",
            PipelineError::ResamplerInit => "failed to construct FFT resampler",
            PipelineError::Resample => "resampling failed",
            PipelineError::InconsistentMelLength => "mel sequence is not a whole number of frames",
        }
    }
}

} // verus!
