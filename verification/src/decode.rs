//! Track description and decode-side decisions.
//!
//! A track is decoded by a codec pack that lives outside this library. What
//! the player decides about a track is decided here, on plain values: which
//! MIME hint to probe with, which channel count and sample rate to play at,
//! how a failed packet read or a failed packet decode ends up as a
//! [`DecoderError`], and how durations convert to sample counts.

use vstd::prelude::*;
use vstd::std_specs::convert::FromSpecImpl;

verus! {

/// Microseconds in one second.
pub const MICROS_PER_SECOND: u64 = 1_000_000;

/// Sample rate used when neither the server nor the container names one.
pub const DEFAULT_SAMPLE_RATE: u32 = 44100;

/// Channel count used when neither the server nor the container names one.
pub const DEFAULT_CHANNELS: u8 = 2;

/// Why a pull from the decoder yielded no audio.
#[derive(Clone, Debug, PartialEq, Eq)]
pub enum DecoderError {
    /// The encoded stream is exhausted.
    EndOfDecode,
    /// The codec was reset; the pull has to be repeated.
    Retry,
    /// The stream cannot be read or decoded any further.
    StreamError(String),
}

impl DecoderError {
    /// The text shown for this error.
    pub open spec fn spec_message(self) -> Seq<char> {
        match self {
            DecoderError::EndOfDecode => "End of decode stream"@,
            DecoderError::Retry => "Decoder reset required"@,
            DecoderError::StreamError(e) => e@,
        }
    }

    /// Render the error as text.
    pub fn message(&self) -> (text: String)
        ensures
            text@ == self.spec_message(),
    {
        match self {
            DecoderError::EndOfDecode => "End of decode stream".to_owned(),
            DecoderError::Retry => "Decoder reset required".to_owned(),
            DecoderError::StreamError(e) => e.clone(),
        }
    }
}

/// In-memory layout of one sample.
#[derive(Clone, Copy, Debug, PartialEq, Eq, Structural)]
pub enum AudioFormat {
    F32,
    I32,
    U32,
    I16,
    U16,
}

impl AudioFormat {
    /// Bytes taken by one sample.
    pub open spec fn spec_size_of(self) -> nat {
        match self {
            AudioFormat::F32 | AudioFormat::I32 | AudioFormat::U32 => 4,
            AudioFormat::I16 | AudioFormat::U16 => 2,
        }
    }

    /// Bytes taken by one sample.
    pub fn size_of(&self) -> (n: usize)
        ensures
            n == self.spec_size_of(),
    {
        match self {
            AudioFormat::F32 => 4,
            AudioFormat::I32 => 4,
            AudioFormat::U32 => 4,
            AudioFormat::I16 => 2,
            AudioFormat::U16 => 2,
        }
    }
}

/// Sample encoding that a container declares for a track.
#[derive(Clone, Copy, Debug, PartialEq, Eq, Structural)]
pub enum SampleFormat {
    U8,
    U16,
    U24,
    U32,
    S8,
    S16,
    S24,
    S32,
    F32,
    F64,
}

/// The playback layout for a declared encoding: 16- and 32-bit integer
/// encodings keep their width and signedness, everything else plays as
/// 32-bit float.
pub open spec fn format_of(value: SampleFormat) -> AudioFormat {
    match value {
        SampleFormat::U16 => AudioFormat::U16,
        SampleFormat::S16 => AudioFormat::I16,
        SampleFormat::U32 => AudioFormat::U32,
        SampleFormat::S32 => AudioFormat::I32,
        _ => AudioFormat::F32,
    }
}

impl From<SampleFormat> for AudioFormat {
    fn from(value: SampleFormat) -> (format: AudioFormat) {
        match value {
            SampleFormat::U16 => AudioFormat::U16,
            SampleFormat::S16 => AudioFormat::I16,
            SampleFormat::U32 => AudioFormat::U32,
            SampleFormat::S32 => AudioFormat::I32,
            _ => AudioFormat::F32,
        }
    }
}

impl FromSpecImpl<SampleFormat> for AudioFormat {
    open spec fn obeys_from_spec() -> bool {
        true
    }

    open spec fn from_spec(value: SampleFormat) -> AudioFormat {
        format_of(value)
    }
}

/// Stream format tag sent by the server.
#[derive(Clone, Copy, Debug, PartialEq, Eq, Structural)]
pub enum Format {
    Pcm,
    Mp3,
    Flac,
    Wma,
    Ogg,
    Aac,
    Alac,
}

/// Sample rate hint sent by the server.
#[derive(Clone, Copy, Debug, PartialEq, Eq, Structural)]
pub enum PcmSampleRate {
    Rate(u32),
    SelfDescribing,
}

/// Channel hint sent by the server.
#[derive(Clone, Copy, Debug, PartialEq, Eq, Structural)]
pub enum PcmChannels {
    Mono,
    Stereo,
    SelfDescribing,
}

/// Channel layout that a container declares for a track.
#[derive(Clone, Copy, Debug, PartialEq, Eq, Structural)]
pub enum Layout {
    /// One channel.
    Mono,
    /// Left and right.
    Stereo,
    /// Left and right and one low-frequency channel.
    TwoPointOne,
    /// Front left and right, rear left and right, centre and one
    /// low-frequency channel.
    FivePointOne,
}

impl Layout {
    /// Number of channels in the layout.
    pub open spec fn spec_count(self) -> u8 {
        match self {
            Layout::Mono => 1,
            Layout::Stereo => 2,
            Layout::TwoPointOne => 3,
            Layout::FivePointOne => 6,
        }
    }

    /// Number of channels in the layout.
    pub fn count(&self) -> (channels: u8)
        ensures
            channels == self.spec_count(),
    {
        match self {
            Layout::Mono => 1,
            Layout::Stereo => 2,
            Layout::TwoPointOne => 3,
            Layout::FivePointOne => 6,
        }
    }
}

/// What the container declares about its default track.
#[derive(Clone, Copy, Debug, PartialEq, Eq, Structural)]
pub struct TrackParams {
    pub sample_rate: Option<u32>,
    pub channel_layout: Option<Layout>,
    /// Number of channels in the declared channel set, when there is one.
    pub channel_count: Option<usize>,
}

/// Outcome of probing an encoded stream.
#[derive(Clone, Copy, Debug, PartialEq, Eq, Structural)]
pub enum Probe {
    /// No container reader accepted the stream.
    Unrecognized,
    /// The container holds no default track.
    NoTrack,
    /// The container holds a default track.
    Track {
        params: TrackParams,
        /// Whether a codec for the track is available.
        codec_found: bool,
    },
}

/// Why no decoder could be set up for a stream.
#[derive(Clone, Copy, Debug, PartialEq, Eq, Structural)]
pub enum SetupError {
    UnrecognizedContainer,
    NoDefaultTrack,
    NoSuitableDecoder,
}

impl SetupError {
    /// The text shown for this error.
    pub open spec fn spec_message(self) -> Seq<char> {
        match self {
            SetupError::UnrecognizedContainer => "Unrecognized container format"@,
            SetupError::NoDefaultTrack => "Unable to find default track"@,
            SetupError::NoSuitableDecoder => "Unable to find suitable decoder"@,
        }
    }

    /// Render the error as text.
    pub fn message(&self) -> (text: &'static str)
        ensures
            text@ == self.spec_message(),
    {
        match self {
            SetupError::UnrecognizedContainer => "Unrecognized container format",
            SetupError::NoDefaultTrack => "Unable to find default track",
            SetupError::NoSuitableDecoder => "Unable to find suitable decoder",
        }
    }
}

/// The MIME type that a format tag stands for; empty for tags without one.
pub open spec fn spec_mime_hint(format: Format) -> Seq<char> {
    match format {
        Format::Pcm => "audio/x-adpcm"@,
        Format::Mp3 => "audio/mpeg"@,
        Format::Aac => "audio/aac"@,
        Format::Ogg => "audio/ogg"@,
        Format::Flac => "audio/flac"@,
        _ => ""@,
    }
}

/// MIME type handed to the container probe as a hint.
pub fn mime_hint(format: Format) -> (mime: &'static str)
    ensures
        mime@ == spec_mime_hint(format),
{
    match format {
        Format::Pcm => "audio/x-adpcm",
        Format::Mp3 => "audio/mpeg",
        Format::Aac => "audio/aac",
        Format::Ogg => "audio/ogg",
        Format::Flac => "audio/flac",
        _ => "",
    }
}

/// Sample rate of a track: the server's rate when it sends one, else the
/// container's, else 44100.
pub open spec fn spec_resolve_sample_rate(hint: PcmSampleRate, track: TrackParams) -> u32 {
    match hint {
        PcmSampleRate::Rate(rate) => rate,
        PcmSampleRate::SelfDescribing => match track.sample_rate {
            Some(rate) => rate,
            None => DEFAULT_SAMPLE_RATE,
        },
    }
}

/// Channel count that the container declares for a track: that of its
/// layout if it declares one, else the size of its channel set, reduced to
/// eight bits, if it declares one.
pub open spec fn spec_declared_channels(track: TrackParams) -> Option<u8> {
    match track.channel_layout {
        Some(layout) => Some(layout.spec_count()),
        None => match track.channel_count {
            Some(count) => Some((count % 256) as u8),
            None => None,
        },
    }
}

/// Channel count of a track: the server's when it sends one, else the
/// count that the container declares, else 2.
pub open spec fn spec_resolve_channels(hint: PcmChannels, track: TrackParams) -> u8 {
    match hint {
        PcmChannels::Mono => 1,
        PcmChannels::Stereo => 2,
        PcmChannels::SelfDescribing => match spec_declared_channels(track) {
            Some(channels) => channels,
            None => DEFAULT_CHANNELS,
        },
    }
}

/// Sample rate to play a track at.
pub fn resolve_sample_rate(hint: PcmSampleRate, track: &TrackParams) -> (rate: u32)
    ensures
        rate == spec_resolve_sample_rate(hint, *track),
{
    match hint {
        PcmSampleRate::Rate(rate) => rate,
        PcmSampleRate::SelfDescribing => match track.sample_rate {
            Some(rate) => rate,
            None => DEFAULT_SAMPLE_RATE,
        },
    }
}

/// Channel count to play a track with.
pub fn resolve_channels(hint: PcmChannels, track: &TrackParams) -> (channels: u8)
    ensures
        channels == spec_resolve_channels(hint, *track),
{
    match hint {
        PcmChannels::Mono => 1,
        PcmChannels::Stereo => 2,
        PcmChannels::SelfDescribing => match track.channel_layout {
            Some(layout) => layout.count(),
            None => match track.channel_count {
                Some(count) => (count % 256) as u8,
                None => DEFAULT_CHANNELS,
            },
        },
    }
}

/// Channel count, sample rate and sample layout of the audio that a decoder
/// hands out.
#[derive(Clone, Copy, Debug, PartialEq, Eq, Structural)]
pub struct AudioSpec {
    pub channels: u8,
    pub sample_rate: u32,
    pub format: AudioFormat,
}

/// Samples, counted across all channels, played in `micros` microseconds.
pub open spec fn spec_dur_to_samples(spec: AudioSpec, micros: nat) -> nat {
    (spec.sample_rate as nat) * (spec.channels as nat) * micros / (MICROS_PER_SECOND as nat)
}

/// Microseconds taken by `samples` samples, counted across all channels.
pub open spec fn spec_samples_to_dur(spec: AudioSpec, samples: nat) -> nat
    recommends
        spec.sample_rate > 0,
        spec.channels > 0,
{
    samples * (MICROS_PER_SECOND as nat) / ((spec.sample_rate as nat) * (spec.channels as nat))
}

/// Converting a sample count to a duration and back gives the count again,
/// if the count is that of a whole number of seconds.
pub proof fn lemma_samples_round_trip(spec: AudioSpec, samples: nat)
    requires
        spec.sample_rate > 0,
        spec.channels > 0,
        samples % ((spec.sample_rate as nat) * (spec.channels as nat)) == 0,
    ensures
        spec_dur_to_samples(spec, spec_samples_to_dur(spec, samples)) == samples,
{
    let per_second = (spec.sample_rate as nat) * (spec.channels as nat);
    let unit = MICROS_PER_SECOND as nat;
    assert(per_second > 0) by (nonlinear_arith)
        requires
            per_second == (spec.sample_rate as nat) * (spec.channels as nat),
            spec.sample_rate > 0,
            spec.channels > 0,
    ;
    let seconds = samples / per_second;
    assert(samples == seconds * per_second) by (nonlinear_arith)
        requires
            per_second > 0,
            samples % per_second == 0,
            seconds == samples / per_second,
    ;
    let micros = spec_samples_to_dur(spec, samples);
    assert(micros == seconds * unit) by (nonlinear_arith)
        requires
            per_second > 0,
            samples == seconds * per_second,
            micros == samples * unit / per_second,
    ;
    assert(per_second * micros / unit == samples) by (nonlinear_arith)
        requires
            unit > 0,
            micros == seconds * unit,
            samples == seconds * per_second,
    ;
}

/// The decoder of one track, as the player sees it: the audio it hands out.
#[derive(Clone, Copy, Debug, PartialEq, Eq, Structural)]
pub struct Decoder {
    spec: AudioSpec,
}

impl Decoder {
    /// The audio that this decoder hands out.
    pub closed spec fn spec_audio(self) -> AudioSpec {
        self.spec
    }

    /// The decoder that [`Decoder::try_new`] sets up for a probed track.
    pub open spec fn spec_for_track(
        track: TrackParams,
        pcmsamplerate: PcmSampleRate,
        pcmchannels: PcmChannels,
    ) -> AudioSpec {
        AudioSpec {
            channels: spec_resolve_channels(pcmchannels, track),
            sample_rate: spec_resolve_sample_rate(pcmsamplerate, track),
            format: AudioFormat::F32,
        }
    }

    /// Set up the decoder for a probed stream.
    ///
    /// Fails when the container was not recognized, holds no default track,
    /// or no codec is available for the track, in that order. Otherwise the
    /// decoder hands out 32-bit float samples, with the channel count and
    /// the sample rate resolved from the server's hints and the track.
    pub fn try_new(probe: Probe, pcmsamplerate: PcmSampleRate, pcmchannels: PcmChannels) -> (made:
        Result<Decoder, SetupError>)
        ensures
            probe is Unrecognized ==> made == Err::<Decoder, SetupError>(
                SetupError::UnrecognizedContainer,
            ),
            probe is NoTrack ==> made == Err::<Decoder, SetupError>(SetupError::NoDefaultTrack),
            probe matches Probe::Track { params, codec_found } ==> (if codec_found {
                made is Ok && made->Ok_0.spec_audio() == Decoder::spec_for_track(
                    params,
                    pcmsamplerate,
                    pcmchannels,
                )
            } else {
                made == Err::<Decoder, SetupError>(SetupError::NoSuitableDecoder)
            }),
    {
        match probe {
            Probe::Unrecognized => Err(SetupError::UnrecognizedContainer),
            Probe::NoTrack => Err(SetupError::NoDefaultTrack),
            Probe::Track { params, codec_found } => {
                let sample_rate = resolve_sample_rate(pcmsamplerate, &params);
                let channels = resolve_channels(pcmchannels, &params);
                if codec_found {
                    Ok(Decoder { spec: AudioSpec { channels, sample_rate, format: AudioFormat::F32 } })
                } else {
                    Err(SetupError::NoSuitableDecoder)
                }
            },
        }
    }

    /// Number of interleaved channels.
    pub fn channels(&self) -> (channels: u8)
        ensures
            channels == self.spec_audio().channels,
    {
        self.spec.channels
    }

    /// Frames per second.
    pub fn sample_rate(&self) -> (rate: u32)
        ensures
            rate == self.spec_audio().sample_rate,
    {
        self.spec.sample_rate
    }

    /// Layout of one sample.
    pub fn format(&self) -> (format: AudioFormat)
        ensures
            format == self.spec_audio().format,
    {
        self.spec.format
    }

    /// Samples, counted across all channels, played in one second.
    pub fn samples_per_second(&self) -> (n: u64)
        ensures
            n == self.spec_audio().sample_rate * self.spec_audio().channels,
            n <= 0xff_ffff_ffff,
            self.spec_audio().sample_rate > 0 && self.spec_audio().channels > 0 ==> n > 0,
    {
        let rate: u64 = self.spec.sample_rate as u64;
        let channels: u64 = self.spec.channels as u64;
        assert(rate * channels <= 0xff_ffff_ffff && (rate > 0 && channels > 0 ==> rate * channels
            > 0)) by (nonlinear_arith)
            requires
                rate <= 0xffff_ffff,
                channels <= 0xff,
        ;
        rate * channels
    }

    /// Samples, counted across all channels, played in `micros`
    /// microseconds: `sample_rate * channels * micros / 1_000_000`.
    pub fn dur_to_samples(&self, micros: u64) -> (samples: u64)
        requires
            spec_dur_to_samples(self.spec_audio(), micros as nat) <= u64::MAX,
        ensures
            samples == spec_dur_to_samples(self.spec_audio(), micros as nat),
    {
        let per_second: u64 = self.samples_per_second();
        assert(per_second * micros <= u128::MAX) by (nonlinear_arith)
            requires
                per_second <= 0xff_ffff_ffff,
                micros <= u64::MAX,
        ;
        let product: u128 = (per_second as u128) * (micros as u128);
        (product / (MICROS_PER_SECOND as u128)) as u64
    }

    /// Microseconds taken by `samples` samples, counted across all
    /// channels: `samples * 1_000_000 / (sample_rate * channels)`.
    pub fn samples_to_dur(&self, samples: u64) -> (micros: u64)
        requires
            self.spec_audio().sample_rate > 0,
            self.spec_audio().channels > 0,
            spec_samples_to_dur(self.spec_audio(), samples as nat) <= u64::MAX,
        ensures
            micros == spec_samples_to_dur(self.spec_audio(), samples as nat),
    {
        let per_second: u64 = self.samples_per_second();
        let scaled: u128 = (samples as u128) * (MICROS_PER_SECOND as u128);
        (scaled / (per_second as u128)) as u64
    }
}

/// What reading the next packet of the encoded stream gave.
#[derive(Clone, Debug, PartialEq, Eq)]
pub enum PacketRead {
    /// A packet was read.
    Packet,
    /// The read failed on the transport.
    IoError {
        /// Whether the transport ended in the middle of the data.
        unexpected_eof: bool,
        /// The text of the error.
        message: String,
    },
    /// The codec has to be reset before reading on.
    ResetRequired,
    /// The read failed in any other way.
    Failed(String),
}

/// What decoding a packet gave.
#[derive(Clone, Debug, PartialEq, Eq)]
pub enum PacketDecode {
    /// The packet was decoded to audio.
    Audio,
    /// The packet holds corrupt data; the rest of the stream may be fine.
    DecodeError(String),
    /// The decoder failed in any other way.
    Failed(String),
}

/// What to do next in a pull from the decoder.
#[derive(Clone, Debug, PartialEq, Eq)]
pub enum PullStep {
    /// Decode the packet that was read.
    Decode,
    /// Drop the packet and read the next one.
    NextPacket,
    /// Hand the decoded audio out.
    Yield,
    /// Give the pull up with this error, after a reset of the codec if
    /// `reset` is set.
    Fail { error: DecoderError, reset: bool },
}

/// Whether a transport error is the regular end of the stream: the data
/// ended unexpectedly, with the text "end of stream".
pub open spec fn spec_is_end_of_stream(unexpected_eof: bool, message: Seq<char>) -> bool {
    unexpected_eof && message == "end of stream"@
}

/// The step that follows a packet read: a packet is decoded, the regular
/// end of the stream ends the decode, a required reset makes the pull a
/// retry, and every other failure is a stream error with the failure's text.
pub open spec fn spec_after_read(read: PacketRead) -> PullStep {
    match read {
        PacketRead::Packet => PullStep::Decode,
        PacketRead::IoError { unexpected_eof, message } => if spec_is_end_of_stream(
            unexpected_eof,
            message@,
        ) {
            PullStep::Fail { error: DecoderError::EndOfDecode, reset: false }
        } else {
            PullStep::Fail { error: DecoderError::StreamError(message), reset: false }
        },
        PacketRead::ResetRequired => PullStep::Fail { error: DecoderError::Retry, reset: true },
        PacketRead::Failed(message) => PullStep::Fail {
            error: DecoderError::StreamError(message),
            reset: false,
        },
    }
}

/// The step that follows a packet decode: audio is handed out, a corrupt
/// packet is skipped, and every other failure is a stream error.
pub open spec fn spec_after_decode(decoded: PacketDecode) -> PullStep {
    match decoded {
        PacketDecode::Audio => PullStep::Yield,
        PacketDecode::DecodeError(_) => PullStep::NextPacket,
        PacketDecode::Failed(message) => PullStep::Fail {
            error: DecoderError::StreamError(message),
            reset: false,
        },
    }
}

/// Decide what follows a packet read.
pub fn after_read(read: PacketRead) -> (step: PullStep)
    ensures
        step == spec_after_read(read),
{
    match read {
        PacketRead::Packet => PullStep::Decode,
        PacketRead::IoError { unexpected_eof, message } => {
            let end = "end of stream".to_owned();
            if unexpected_eof && message == end {
                PullStep::Fail { error: DecoderError::EndOfDecode, reset: false }
            } else {
                PullStep::Fail { error: DecoderError::StreamError(message), reset: false }
            }
        },
        PacketRead::ResetRequired => PullStep::Fail { error: DecoderError::Retry, reset: true },
        PacketRead::Failed(message) => PullStep::Fail {
            error: DecoderError::StreamError(message),
            reset: false,
        },
    }
}

/// Decide what follows a packet decode.
pub fn after_decode(decoded: PacketDecode) -> (step: PullStep)
    ensures
        step == spec_after_decode(decoded),
{
    match decoded {
        PacketDecode::Audio => PullStep::Yield,
        PacketDecode::DecodeError(_) => PullStep::NextPacket,
        PacketDecode::Failed(message) => PullStep::Fail {
            error: DecoderError::StreamError(message),
            reset: false,
        },
    }
}

/// The address to fetch a stream from: the server's own address where the
/// request names none.
pub open spec fn spec_stream_address(server_ip: u32, default_ip: u32) -> u32 {
    if server_ip == 0 {
        default_ip
    } else {
        server_ip
    }
}

/// The address to fetch a stream from.
pub fn stream_address(server_ip: u32, default_ip: u32) -> (ip: u32)
    ensures
        ip == spec_stream_address(server_ip, default_ip),
{
    if server_ip == 0 {
        default_ip
    } else {
        server_ip
    }
}

/// Bytes that the input buffer of a stream holds: `threshold` KiB, held to
/// what a `usize` can hold.
pub open spec fn spec_input_capacity(threshold: u32) -> nat {
    if threshold * 1024 > usize::MAX {
        usize::MAX as nat
    } else {
        (threshold * 1024) as nat
    }
}

/// Bytes that the input buffer of a stream holds.
pub fn input_capacity(threshold: u32) -> (bytes: usize)
    ensures
        bytes == spec_input_capacity(threshold),
{
    let wide: u64 = (threshold as u64) * 1024;
    if wide > usize::MAX as u64 {
        usize::MAX
    } else {
        wide as usize
    }
}

} // verus!
