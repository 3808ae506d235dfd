//! The decisions of the decode stage.
//!
//! Demuxing and decoding are done by the caller, packet by packet. After each
//! step the caller reports what happened as a plain value, and the session
//! answers what to do next. The session owns the growing buffer of interleaved
//! samples and resolves the sample rate and the channel count.

use vstd::prelude::*;
use crate::error::PipelineError;

verus! {

/// What a container declares of one of its tracks.
#[derive(Clone, Copy, Debug, PartialEq, Eq, Structural)]
pub struct TrackInfo {
    /// The identifier that the packets of this track carry.
    pub id: u32,
    /// Whether the track's codec is a real one, not the null codec.
    pub has_codec: bool,
    /// The sample rate in hertz, where the container declares it.
    pub sample_rate: Option<u32>,
    /// The channel count, where the container declares it.
    pub channel_count: Option<usize>,
}

/// What opening a file and probing its container came to.
pub enum Probe {
    /// The file could not be opened.
    Unopened,
    /// No container format matched.
    Unrecognized,
    /// The container was read; these are its tracks, in its order.
    Tracks(Vec<TrackInfo>),
}

/// Why a read or a decode step failed, as the demuxer or decoder reports it.
#[derive(Clone, Copy, Debug, PartialEq, Eq, Structural)]
pub enum StreamFault {
    /// The underlying byte stream failed or ran out.
    Io,
    /// The data was malformed.
    Malformed,
    /// A seek failed.
    Seek,
    /// The stream uses a feature that is not supported.
    Unsupported,
    /// A safety limit was reached.
    Limit,
    /// The stream changed format; the decoder must be created anew.
    ResetRequired,
}

/// The outcome of asking the demuxer for the next packet.
#[derive(Clone, Copy, Debug, PartialEq, Eq, Structural)]
pub enum PacketRead {
    /// A packet of the track with this identifier.
    Packet { track_id: u32 },
    /// No packet.
    Fault(StreamFault),
}

/// What the caller does after a read.
#[derive(Clone, Copy, Debug, PartialEq, Eq, Structural)]
pub enum ReadAction {
    /// Decode the packet and report the outcome.
    Decode,
    /// Drop the packet and read the next one.
    Skip,
    /// The stream has ended: stop reading and finish the session.
    Finish,
    /// Give up on the file with this error.
    Abort(PipelineError),
}

/// The outcome of decoding one packet.
pub enum Decoded<S> {
    /// A buffer of interleaved samples with the signal parameters it reports.
    Buffer { sample_rate: u32, channel_count: usize, samples: Vec<S> },
    /// No buffer.
    Fault(StreamFault),
}

/// What the caller does after a decode step.
#[derive(Clone, Copy, Debug, PartialEq, Eq, Structural)]
pub enum DecodeAction {
    /// Read the next packet.
    Continue,
    /// Give up on the file with this error.
    Abort(PipelineError),
}

/// Interleaved samples of one file with their signal parameters.
pub struct DecodedAudio<S> {
    pub samples: Vec<S>,
    pub sample_rate: u32,
    pub channel_count: usize,
}

impl<S> DecodedAudio<S> {
    /// The samples form whole frames: at least one, each of `channel_count`
    /// samples, at a positive rate.
    pub open spec fn wf(&self) -> bool {
        &&& self.sample_rate > 0
        &&& self.channel_count > 0
        &&& self.samples@.len() > 0
        &&& self.samples@.len() % (self.channel_count as nat) == 0
    }
}

/// The mathematical state of a decode session.
pub struct SessionState<S> {
    pub track_id: u32,
    pub sample_rate: Option<u32>,
    pub channel_count: Option<usize>,
    pub samples: Seq<S>,
}

impl<S> SessionState<S> {
    /// The state after a decoded buffer: the samples are appended, and a
    /// parameter that was unknown so far takes the buffer's value.
    pub open spec fn absorb(self, sample_rate: u32, channel_count: usize, samples: Seq<S>) -> Self {
        SessionState {
            track_id: self.track_id,
            sample_rate: if self.sample_rate is Some {
                self.sample_rate
            } else {
                Some(sample_rate)
            },
            channel_count: if self.channel_count is Some {
                self.channel_count
            } else {
                Some(channel_count)
            },
            samples: self.samples + samples,
        }
    }

    /// Every sample so far belongs to a whole frame of the resolved channel count.
    pub open spec fn whole_frames(self) -> bool {
        match self.channel_count {
            Some(c) => c > 0 && self.samples.len() % (c as nat) == 0,
            None => self.samples.len() == 0,
        }
    }

    /// The error that finishing in this state gives, if any.
    pub open spec fn finish_error(self) -> Option<PipelineError> {
        if self.sample_rate is None {
            Some(PipelineError::UnknownSampleRate)
        } else if self.channel_count is None {
            Some(PipelineError::UnknownChannelCount)
        } else if self.samples.len() == 0 {
            Some(PipelineError::EmptyAudio)
        } else {
            None
        }
    }
}

/// The index of the first track with a real codec, or `tracks.len()` if there is none.
pub open spec fn first_decodable(tracks: Seq<TrackInfo>) -> int
    decreases tracks.len(),
{
    if tracks.len() == 0 {
        0
    } else if tracks[0].has_codec {
        0
    } else {
        1 + first_decodable(tracks.subrange(1, tracks.len() as int))
    }
}

/// `first_decodable` is the least index of a track with a real codec.
pub proof fn lemma_first_decodable(tracks: Seq<TrackInfo>)
    ensures
        0 <= first_decodable(tracks) <= tracks.len(),
        forall|j: int| 0 <= j < first_decodable(tracks) ==> !(#[trigger] tracks[j]).has_codec,
        first_decodable(tracks) < tracks.len() ==> tracks[first_decodable(tracks)].has_codec,
    decreases tracks.len(),
{
    if tracks.len() > 0 && !tracks[0].has_codec {
        let rest = tracks.subrange(1, tracks.len() as int);
        lemma_first_decodable(rest);
        assert forall|j: int| 0 <= j < first_decodable(tracks) implies !(#[trigger] tracks[j]).has_codec by {
            if j > 0 {
                assert(tracks[j] == rest[j - 1]);
            }
        }
        if first_decodable(tracks) < tracks.len() {
            assert(tracks[first_decodable(tracks)] == rest[first_decodable(rest)]);
        }
    }
}

/// What to do after a read, for a session that follows track `track_id`.
///
/// A packet of another track is skipped. An I/O fault is how the stream's end
/// shows, so it ends the reading without an error. Every other fault is fatal.
pub open spec fn read_action(track_id: u32, read: PacketRead) -> ReadAction {
    match read {
        PacketRead::Packet { track_id: id } => if id == track_id {
            ReadAction::Decode
        } else {
            ReadAction::Skip
        },
        PacketRead::Fault(StreamFault::Io) => ReadAction::Finish,
        PacketRead::Fault(StreamFault::ResetRequired) => ReadAction::Abort(
            PipelineError::ResetRequired,
        ),
        PacketRead::Fault(_) => ReadAction::Abort(PipelineError::PacketRead),
    }
}

/// What to do after a decode step that gave no buffer.
///
/// A malformed packet or an I/O fault within one packet is transient: the
/// packet is lost and decoding goes on. Every other fault is fatal.
pub open spec fn fault_action(fault: StreamFault) -> DecodeAction {
    match fault {
        StreamFault::Io | StreamFault::Malformed => DecodeAction::Continue,
        StreamFault::ResetRequired => DecodeAction::Abort(PipelineError::ResetRequired),
        _ => DecodeAction::Abort(PipelineError::DecodeFailed),
    }
}

/// Picks the track to decode: the first one with a real codec.
pub fn select_track(tracks: &[TrackInfo]) -> (r: Result<usize, PipelineError>)
    ensures
        match r {
            Ok(i) => i == first_decodable(tracks@) && i < tracks@.len(),
            Err(e) => e == PipelineError::NoAudioTrack && first_decodable(tracks@)
                == tracks@.len(),
        },
{
    proof {
        lemma_first_decodable(tracks@);
    }
    let mut i: usize = 0;
    while i < tracks.len()
        invariant
            i <= tracks@.len(),
            forall|j: int| 0 <= j < i ==> !(#[trigger] tracks@[j]).has_codec,
            0 <= first_decodable(tracks@) <= tracks@.len(),
            forall|j: int|
                0 <= j < first_decodable(tracks@) ==> !(#[trigger] tracks@[j]).has_codec,
            first_decodable(tracks@) < tracks@.len() ==> tracks@[first_decodable(
                tracks@,
            )].has_codec,
        decreases tracks@.len() - i,
    {
        if tracks[i].has_codec {
            return Ok(i);
        }
        i += 1;
    }
    Err(PipelineError::NoAudioTrack)
}

/// The position of the track to decode for a probed file, or the reason
/// there is none.
pub fn choose_track(probe: &Probe) -> (r: Result<usize, PipelineError>)
    ensures
        match *probe {
            Probe::Unopened => r == Err::<usize, PipelineError>(PipelineError::FileNotOpenable),
            Probe::Unrecognized => r == Err::<usize, PipelineError>(
                PipelineError::UnsupportedFormat,
            ),
            Probe::Tracks(tracks) => match r {
                Ok(i) => i == first_decodable(tracks@) && i < tracks@.len(),
                Err(e) => e == PipelineError::NoAudioTrack && first_decodable(tracks@)
                    == tracks@.len(),
            },
        },
{
    match probe {
        Probe::Unopened => Err(PipelineError::FileNotOpenable),
        Probe::Unrecognized => Err(PipelineError::UnsupportedFormat),
        Probe::Tracks(tracks) => select_track(tracks.as_slice()),
    }
}

/// The state of decoding one track of one file.
pub struct DecodeSession<S> {
    track_id: u32,
    sample_rate: Option<u32>,
    channel_count: Option<usize>,
    samples: Vec<S>,
}

impl<S> View for DecodeSession<S> {
    type V = SessionState<S>;

    closed spec fn view(&self) -> SessionState<S> {
        SessionState {
            track_id: self.track_id,
            sample_rate: self.sample_rate,
            channel_count: self.channel_count,
            samples: self.samples@,
        }
    }
}

impl<S> DecodeSession<S> {
    /// The state of a session on `track` before the first packet: no samples,
    /// and the parameters that the container declares for the track.
    pub open spec fn initial(track: TrackInfo) -> SessionState<S> {
        SessionState {
            track_id: track.id,
            sample_rate: track.sample_rate,
            channel_count: track.channel_count,
            samples: Seq::empty(),
        }
    }

    /// Opens a session on `track`, given whether a decoder for its codec
    /// could be made.
    pub fn begin(track: TrackInfo, decoder_available: bool) -> (r: Result<Self, PipelineError>)
        ensures
            match r {
                Ok(s) => decoder_available && s@ == Self::initial(track),
                Err(e) => !decoder_available && e == PipelineError::UnsupportedCodec,
            },
    {
        if !decoder_available {
            return Err(PipelineError::UnsupportedCodec);
        }
        Ok(
            DecodeSession {
                track_id: track.id,
                sample_rate: track.sample_rate,
                channel_count: track.channel_count,
                samples: Vec::new(),
            },
        )
    }

    /// The identifier of the track that the session follows.
    pub fn track_id(&self) -> (id: u32)
        ensures
            id == self@.track_id,
    {
        self.track_id
    }

    /// The sample rate, once the container or a buffer has told it.
    pub fn sample_rate(&self) -> (rate: Option<u32>)
        ensures
            rate == self@.sample_rate,
    {
        self.sample_rate
    }

    /// The channel count, once the container or a buffer has told it.
    pub fn channel_count(&self) -> (count: Option<usize>)
        ensures
            count == self@.channel_count,
    {
        self.channel_count
    }

    /// The number of samples gathered so far.
    pub fn sample_count(&self) -> (n: usize)
        ensures
            n == self@.samples.len(),
    {
        self.samples.len()
    }

    /// Decides what follows a read.
    pub fn on_read(&self, read: PacketRead) -> (action: ReadAction)
        ensures
            action == read_action(self@.track_id, read),
    {
        match read {
            PacketRead::Packet { track_id } => {
                if track_id == self.track_id {
                    ReadAction::Decode
                } else {
                    ReadAction::Skip
                }
            },
            PacketRead::Fault(StreamFault::Io) => ReadAction::Finish,
            PacketRead::Fault(StreamFault::ResetRequired) => ReadAction::Abort(
                PipelineError::ResetRequired,
            ),
            PacketRead::Fault(_) => ReadAction::Abort(PipelineError::PacketRead),
        }
    }

    /// Takes in the outcome of a decode step and decides what follows.
    ///
    /// A buffer is appended to the samples; a fault leaves the session as it was.
    pub fn on_decoded(&mut self, decoded: Decoded<S>) -> (action: DecodeAction)
        ensures
            match decoded {
                Decoded::Buffer { sample_rate, channel_count, samples } => {
                    &&& action == DecodeAction::Continue
                    &&& final(self)@ == old(self)@.absorb(sample_rate, channel_count, samples@)
                },
                Decoded::Fault(fault) => {
                    &&& action == fault_action(fault)
                    &&& final(self)@ == old(self)@
                },
            },
    {
        match decoded {
            Decoded::Buffer { sample_rate, channel_count, samples } => {
                if self.sample_rate.is_none() {
                    self.sample_rate = Some(sample_rate);
                }
                if self.channel_count.is_none() {
                    self.channel_count = Some(channel_count);
                }
                let mut samples = samples;
                self.samples.append(&mut samples);
                DecodeAction::Continue
            },
            Decoded::Fault(StreamFault::Io) | Decoded::Fault(StreamFault::Malformed) => {
                DecodeAction::Continue
            },
            Decoded::Fault(StreamFault::ResetRequired) => DecodeAction::Abort(
                PipelineError::ResetRequired,
            ),
            Decoded::Fault(_) => DecodeAction::Abort(PipelineError::DecodeFailed),
        }
    }

    /// Ends the session once the stream has ended.
    ///
    /// Fails if the sample rate is unknown, else if the channel count is
    /// unknown, else if no sample was decoded. Otherwise hands out every sample
    /// gathered, in order, with the resolved parameters.
    pub fn finish(self) -> (r: Result<DecodedAudio<S>, PipelineError>)
        ensures
            match r {
                Ok(audio) => {
                    &&& self@.finish_error() is None
                    &&& audio.samples@ == self@.samples
                    &&& Some(audio.sample_rate) == self@.sample_rate
                    &&& Some(audio.channel_count) == self@.channel_count
                    &&& self@.whole_frames() && audio.sample_rate > 0 ==> audio.wf()
                },
                Err(e) => self@.finish_error() == Some(e),
            },
    {
        let sample_rate = match self.sample_rate {
            Some(rate) => rate,
            None => {
                return Err(PipelineError::UnknownSampleRate);
            },
        };
        let channel_count = match self.channel_count {
            Some(count) => count,
            None => {
                return Err(PipelineError::UnknownChannelCount);
            },
        };
        if self.samples.len() == 0 {
            return Err(PipelineError::EmptyAudio);
        }
        Ok(DecodedAudio { samples: self.samples, sample_rate, channel_count })
    }
}

/// A session starts with whole frames: it holds no sample yet.
pub proof fn lemma_initial_whole_frames<S>(track: TrackInfo)
    requires
        track.channel_count != Some(0usize),
    ensures
        DecodeSession::<S>::initial(track).whole_frames(),
{
}

/// Buffers of whole frames keep the samples in whole frames: if the samples
/// so far are whole frames and the buffer holds whole frames of the channel
/// count that the session has resolved or now resolves, so are the samples
/// after it.
pub proof fn lemma_absorb_keeps_whole_frames<S>(
    state: SessionState<S>,
    sample_rate: u32,
    channel_count: usize,
    samples: Seq<S>,
)
    requires
        state.whole_frames(),
        channel_count > 0,
        samples.len() % (channel_count as nat) == 0,
        state.channel_count is Some ==> state.channel_count == Some(channel_count),
    ensures
        state.absorb(sample_rate, channel_count, samples).whole_frames(),
{
    let c = channel_count as int;
    let a = state.samples.len() as int;
    let b = samples.len() as int;
    assert((a + b) % c == 0) by (nonlinear_arith)
        requires
            c > 0,
            a % c == 0,
            b % c == 0,
    {
        assert(a == c * (a / c) + a % c);
        assert(b == c * (b / c) + b % c);
        assert(a + b == c * (a / c + b / c));
    }
}

/// Decoding only ever appends, and what the container declared stands: the
/// samples before a buffer are the first samples after it, and a parameter
/// that was known keeps its value.
pub proof fn lemma_absorb_appends<S>(
    state: SessionState<S>,
    sample_rate: u32,
    channel_count: usize,
    samples: Seq<S>,
)
    ensures
        ({
            let after = state.absorb(sample_rate, channel_count, samples);
            &&& after.samples.len() == state.samples.len() + samples.len()
            &&& after.samples.take(state.samples.len() as int) == state.samples
            &&& after.samples.skip(state.samples.len() as int) == samples
            &&& after.track_id == state.track_id
            &&& state.sample_rate is Some ==> after.sample_rate == state.sample_rate
            &&& state.channel_count is Some ==> after.channel_count == state.channel_count
            &&& after.sample_rate is Some
            &&& after.channel_count is Some
        }),
{
    let after = state.absorb(sample_rate, channel_count, samples);
    assert(after.samples.take(state.samples.len() as int) =~= state.samples);
    assert(after.samples.skip(state.samples.len() as int) =~= samples);
}

} // verus!
