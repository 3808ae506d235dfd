use shout_core::error::{ErrorClass, PipelineError, Stage};

#[test]
fn input_errors_belong_to_the_decode_stage() {
    let input = [
        PipelineError::FileNotOpenable,
        PipelineError::UnsupportedFormat,
        PipelineError::NoAudioTrack,
        PipelineError::UnsupportedCodec,
        PipelineError::EmptyAudio,
        PipelineError::UnknownSampleRate,
        PipelineError::UnknownChannelCount,
    ];
    for e in input {
        assert_eq!(e.class(), ErrorClass::Input);
        assert_eq!(e.stage(), Stage::Decode);
    }
}

#[test]
fn stream_errors_are_their_own_class() {
    for e in [PipelineError::ResetRequired, PipelineError::PacketRead, PipelineError::DecodeFailed] {
        assert_eq!(e.class(), ErrorClass::Stream);
        assert_eq!(e.stage(), Stage::Decode);
    }
}

#[test]
fn resampling_errors_name_their_stage() {
    for e in [PipelineError::ResamplerInit, PipelineError::Resample] {
        assert_eq!(e.class(), ErrorClass::Resampling);
        assert_eq!(e.stage(), Stage::Resample);
    }
}

#[test]
fn a_ragged_mel_sequence_is_an_internal_error() {
    let e = PipelineError::InconsistentMelLength;
    assert_eq!(e.class(), ErrorClass::Internal);
    assert_eq!(e.stage(), Stage::Assemble);
}

#[test]
fn messages_name_the_cause() {
    assert_eq!(PipelineError::FileNotOpenable.message(), "failed to open audio file");
    assert_eq!(
        PipelineError::UnsupportedFormat.message(),
        "unsupported format or failed to probe container"
    );
    assert_eq!(PipelineError::NoAudioTrack.message(), "no supported audio tracks found");
    assert_eq!(
        PipelineError::UnsupportedCodec.message(),
        "failed to create decoder for selected track"
    );
    assert_eq!(PipelineError::EmptyAudio.message(), "decoded audio was empty");
    assert_eq!(
        PipelineError::UnknownSampleRate.message(),
        "could not determine input sample rate"
    );
    assert_eq!(
        PipelineError::UnknownChannelCount.message(),
        "could not determine channel count"
    );
    assert_eq!(PipelineError::ResetRequired.message(), "decoder reset required");
    assert_eq!(PipelineError::PacketRead.message(), "error reading next packet");
    assert_eq!(PipelineError::DecodeFailed.message(), "unrecoverable decode error");
    assert_eq!(PipelineError::ResamplerInit.message(), "failed to construct FFT resampler");
    assert_eq!(PipelineError::Resample.message(), "resampling failed");
    assert_eq!(
        PipelineError::InconsistentMelLength.message(),
        "mel sequence is not a whole number of frames"
    );
}

#[test]
fn a_report_names_the_file_the_stage_and_the_cause() {
    assert_eq!(
        PipelineError::EmptyAudio.report("clips/a.mp3"),
        "clips/a.mp3: decode: decoded audio was empty"
    );
    assert_eq!(
        PipelineError::ResamplerInit.report("b.wav"),
        "b.wav: resample: failed to construct FFT resampler"
    );
    assert_eq!(
        PipelineError::InconsistentMelLength.report(""),
        ": assemble: mel sequence is not a whole number of frames"
    );
    assert_eq!(Stage::Decode.name(), "decode");
    assert_eq!(Stage::Resample.name(), "resample");
    assert_eq!(Stage::Assemble.name(), "assemble");
}
