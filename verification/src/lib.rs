//! Verified core of an audio-to-mel-spectrogram feature pipeline.
//!
//! The pipeline turns one decoded audio file into one matrix of mel energies
//! in four stages: decoding, channel downmixing, sample-rate conversion, and
//! spectral framing with mel assembly. This crate holds the decisions, the
//! index arithmetic and the data layout of every stage, each with a contract
//! that Verus proves. It is generic over the sample type: the numeric kernels
//! (codec, resampling filter, Fourier transform, filterbank) are supplied
//! by the caller and never inspected here.

pub mod decode;
pub mod downmix;
pub mod error;
pub mod frame;
pub mod manifest;
pub mod mel;
pub mod pipeline;
pub mod resample;
