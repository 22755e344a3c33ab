//! The feed of one track: what happens each time the audio backend asks
//! for more audio.
//!
//! The backend pulls. On each pull the feed reports the start of the track
//! once, drops what a pending skip covers, asks for decoded audio until it
//! holds what the backend wants, and hands that over. When the decoder is
//! through and the buffer is empty, it arms the end-of-data signal, which
//! reports the track as drained once. Before the backend stream exists, the
//! same buffer takes the pre-roll of the track.
//!
//! The feed never calls the decoder itself. It says when a pull is due, and
//! takes the outcome of the pull as a value.

use vstd::prelude::*;

use crate::decode::{
    spec_dur_to_samples,
    spec_samples_to_dur,
    AudioSpec,
    Decoder,
    DecoderError,
    MICROS_PER_SECOND,
};
use crate::message::PlayerMsg;

verus! {

/// The least number of bytes that the pre-roll asks for.
pub const MIN_AUDIO_BUFFER_SIZE: usize = 8 * 1024;

/// Bytes in one sample handed to the backend.
pub const BYTES_PER_SAMPLE: usize = 4;

/// What the feed does next within one pull of the backend.
#[derive(Clone, Copy, Debug, PartialEq, Eq, Structural)]
pub enum Next {
    /// Nothing: the track is over.
    Idle,
    /// Pull from the decoder and report the outcome.
    Pull,
    /// Hand audio to the backend.
    Deliver,
}

/// What the pre-roll does next.
#[derive(Clone, Copy, Debug, PartialEq, Eq, Structural)]
pub enum PreRoll {
    /// Pull from the decoder and report the outcome.
    Pull,
    /// Enough is buffered: create the backend stream.
    Ready,
    /// The stream cannot be played: give the track up.
    Abort,
}

/// How a pull of the backend begins.
#[derive(Clone, Copy, Debug, PartialEq, Eq, Structural)]
pub struct Begun {
    /// The event to report, if any.
    pub msg: Option<PlayerMsg>,
    /// Audio that a pending skip dropped, in microseconds.
    pub skipped: u64,
    pub next: Next,
}

/// What the feed makes of the outcome of a decoder pull.
#[derive(Clone, Copy, Debug, PartialEq, Eq, Structural)]
pub struct Pulled {
    /// The event to report, if any.
    pub msg: Option<PlayerMsg>,
    pub next: Next,
}

/// What the pre-roll makes of the outcome of a decoder pull.
#[derive(Clone, Copy, Debug, PartialEq, Eq, Structural)]
pub struct PreRolled {
    /// The event to report, if any.
    pub msg: Option<PlayerMsg>,
    pub next: PreRoll,
}

/// What the feed hands to the backend.
#[derive(Clone, Debug, PartialEq, Eq)]
pub struct Delivery {
    /// The audio: interleaved little-endian 32-bit float samples.
    pub bytes: Vec<u8>,
    /// The time that the audio takes to play, in microseconds.
    pub elapsed: u64,
    /// Whether the end-of-data signal is armed.
    pub armed: bool,
}

/// Bytes at the head of a buffer of `available` bytes that a skip of
/// `skip` microseconds covers.
pub open spec fn spec_skip_bytes(audio: AudioSpec, skip: u64, available: nat) -> nat {
    let wanted = spec_dur_to_samples(audio, skip as nat) * (BYTES_PER_SAMPLE as nat);
    if wanted < available {
        wanted
    } else {
        available
    }
}

/// Microseconds that `bytes` bytes of audio take to play, held to what a
/// `u64` can hold.
pub open spec fn spec_micros_for(audio: AudioSpec, bytes: nat) -> u64
    recommends
        audio.sample_rate > 0,
        audio.channels > 0,
{
    let micros = spec_samples_to_dur(audio, bytes / (BYTES_PER_SAMPLE as nat));
    if micros > u64::MAX {
        u64::MAX
    } else {
        micros as u64
    }
}

/// Bytes that the pre-roll of a track asks for: the audio of
/// `output_threshold` microseconds, at least [`MIN_AUDIO_BUFFER_SIZE`], held
/// to what a `usize` can hold.
pub open spec fn spec_preroll_bytes(audio: AudioSpec, output_threshold: u64) -> usize {
    let wanted = spec_dur_to_samples(audio, output_threshold as nat) * (BYTES_PER_SAMPLE as nat);
    if wanted < MIN_AUDIO_BUFFER_SIZE {
        MIN_AUDIO_BUFFER_SIZE
    } else if wanted > usize::MAX {
        usize::MAX
    } else {
        wanted as usize
    }
}

/// The mathematical content of a [`FillState`].
pub struct Feed {
    /// The audio that the decoder hands out.
    pub audio: AudioSpec,
    /// Decoded audio that the backend has not taken yet.
    pub buf: Seq<u8>,
    /// Bytes that the pre-roll asks for.
    pub target: usize,
    /// Whether the start of the track was reported.
    pub started: bool,
    /// Whether the decoder is through.
    pub draining: bool,
    /// Whether the end-of-data signal is armed.
    pub armed: bool,
    /// Whether the track was reported as drained.
    pub reported: bool,
}

/// Something that happens to a feed.
pub enum FeedInput {
    /// The outcome of a decoder pull during the pre-roll.
    PreRoll(Result<Vec<u8>, DecoderError>),
    /// The backend asks for `limit` bytes; `skip` microseconds are pending.
    Begin { skip: u64, limit: usize },
    /// The outcome of a decoder pull while the backend asks for `limit` bytes.
    Pulled { pulled: Result<Vec<u8>, DecoderError>, limit: usize },
    /// The backend takes up to `limit` bytes.
    Deliver { limit: usize },
    /// The backend has run out of data.
    EndOfData,
}

impl Feed {
    /// What holds of every feed: its audio has a sample rate and channels.
    pub open spec fn wf(self) -> bool {
        self.audio.sample_rate > 0 && self.audio.channels > 0
    }

    /// The feed of a track before its pre-roll.
    pub open spec fn spec_new(audio: AudioSpec, output_threshold: u64) -> Feed {
        Feed {
            audio,
            buf: Seq::<u8>::empty(),
            target: spec_preroll_bytes(audio, output_threshold),
            started: false,
            draining: false,
            armed: false,
            reported: false,
        }
    }

    /// Whether the pre-roll has to pull.
    pub open spec fn preroll_next(self) -> PreRoll {
        if self.buf.len() < self.target {
            PreRoll::Pull
        } else {
            PreRoll::Ready
        }
    }

    /// The pre-roll takes the outcome of a pull. Audio is buffered until
    /// the target is reached. A retry is passed over. The end of the
    /// decode is reported, unless it was before, and ends the pre-roll. A
    /// stream error is reported as an unsupported stream and gives the
    /// track up.
    pub open spec fn preroll(self, pulled: Result<Vec<u8>, DecoderError>) -> (Feed, PreRolled) {
        match pulled {
            Ok(chunk) => {
                let next = Feed { buf: self.buf + chunk@, ..self };
                (next, PreRolled { msg: None, next: next.preroll_next() })
            },
            Err(DecoderError::Retry) => (self, PreRolled { msg: None, next: PreRoll::Pull }),
            Err(DecoderError::EndOfDecode) => (
                Feed { draining: true, ..self },
                PreRolled {
                    msg: if self.draining {
                        None
                    } else {
                        Some(PlayerMsg::EndOfDecode)
                    },
                    next: PreRoll::Ready,
                },
            ),
            Err(DecoderError::StreamError(_)) => (
                self,
                PreRolled { msg: Some(PlayerMsg::NotSupported), next: PreRoll::Abort },
            ),
        }
    }

    /// Whether the feed holds less than the backend asks for.
    pub open spec fn fill_next(self, limit: usize) -> Next {
        if self.buf.len() < limit {
            Next::Pull
        } else {
            Next::Deliver
        }
    }

    /// A pull of the backend begins. The start of the track is reported
    /// the first time. What the pending skip covers is dropped from the
    /// head of the buffer. A feed whose end-of-data signal is armed stays
    /// as it is.
    pub open spec fn begin(self, skip: u64, limit: usize) -> (Feed, Begun) {
        if self.armed {
            (self, Begun { msg: None, skipped: 0, next: Next::Idle })
        } else {
            let dropped = spec_skip_bytes(self.audio, skip, self.buf.len());
            let next = Feed { started: true, buf: self.buf.skip(dropped as int), ..self };
            (
                next,
                Begun {
                    msg: if self.started {
                        None
                    } else {
                        Some(PlayerMsg::TrackStarted)
                    },
                    skipped: spec_micros_for(self.audio, dropped),
                    next: next.fill_next(limit),
                },
            )
        }
    }

    /// The feed takes the outcome of a pull. Audio is buffered until the
    /// backend's demand is met. A retry is passed over. The end of the
    /// decode is reported, unless it was before, and a stream error is
    /// reported as an unsupported stream; after either the feed drains.
    pub open spec fn pulled(self, pulled: Result<Vec<u8>, DecoderError>, limit: usize) -> (
        Feed,
        Pulled,
    ) {
        match pulled {
            Ok(chunk) => {
                let next = Feed { buf: self.buf + chunk@, ..self };
                (next, Pulled { msg: None, next: next.fill_next(limit) })
            },
            Err(DecoderError::Retry) => (self, Pulled { msg: None, next: Next::Pull }),
            Err(DecoderError::EndOfDecode) => (
                Feed { draining: true, ..self },
                Pulled {
                    msg: if self.draining {
                        None
                    } else {
                        Some(PlayerMsg::EndOfDecode)
                    },
                    next: Next::Deliver,
                },
            ),
            Err(DecoderError::StreamError(_)) => (
                Feed { draining: true, ..self },
                Pulled { msg: Some(PlayerMsg::NotSupported), next: Next::Deliver },
            ),
        }
    }

    /// Bytes that the backend gets when it takes up to `limit` bytes.
    pub open spec fn deliverable(self, limit: usize) -> nat {
        if self.buf.len() < limit {
            self.buf.len()
        } else {
            limit as nat
        }
    }

    /// The feed after the backend took up to `limit` bytes. The
    /// end-of-data signal is armed once the feed drains and holds nothing.
    pub open spec fn deliver(self, limit: usize) -> Feed {
        let rest = self.buf.skip(self.deliverable(limit) as int);
        Feed { buf: rest, armed: self.armed || (self.draining && rest.len() == 0), ..self }
    }

    /// The backend has run out of data. If the signal is armed, the track
    /// is reported as drained, once.
    pub open spec fn end_of_data(self) -> (Feed, Option<PlayerMsg>) {
        if self.armed && !self.reported {
            (Feed { reported: true, ..self }, Some(PlayerMsg::Drained))
        } else {
            (self, None)
        }
    }

    /// The feed after `input`, and the event that it reports.
    pub open spec fn input(self, input: FeedInput) -> (Feed, Option<PlayerMsg>) {
        match input {
            FeedInput::PreRoll(pulled) => (self.preroll(pulled).0, self.preroll(pulled).1.msg),
            FeedInput::Begin { skip, limit } => (
                self.begin(skip, limit).0,
                self.begin(skip, limit).1.msg,
            ),
            FeedInput::Pulled { pulled, limit } => (
                self.pulled(pulled, limit).0,
                self.pulled(pulled, limit).1.msg,
            ),
            FeedInput::Deliver { limit } => (self.deliver(limit), None),
            FeedInput::EndOfData => self.end_of_data(),
        }
    }

    /// How often the event `msg` is reported while `inputs` happen, one
    /// after the other.
    pub open spec fn emitted(self, inputs: Seq<FeedInput>, msg: PlayerMsg) -> nat
        decreases inputs.len(),
    {
        if inputs.len() == 0 {
            0
        } else {
            let (next, out) = self.input(inputs[0]);
            let here: nat = if out == Some(msg) {
                1
            } else {
                0
            };
            here + next.emitted(inputs.drop_first(), msg)
        }
    }
}

/// Whatever happens to the feed of a track, and in whatever order, the
/// start of the track, the end of its decode and its draining are each
/// reported at most once.
pub proof fn lemma_events_at_most_once(feed: Feed, inputs: Seq<FeedInput>)
    ensures
        feed.emitted(inputs, PlayerMsg::TrackStarted) <= 1,
        feed.emitted(inputs, PlayerMsg::EndOfDecode) <= 1,
        feed.emitted(inputs, PlayerMsg::Drained) <= 1,
        feed.started ==> feed.emitted(inputs, PlayerMsg::TrackStarted) == 0,
        feed.draining ==> feed.emitted(inputs, PlayerMsg::EndOfDecode) == 0,
        feed.reported ==> feed.emitted(inputs, PlayerMsg::Drained) == 0,
    decreases inputs.len(),
{
    if inputs.len() > 0 {
        let (next, out) = feed.input(inputs[0]);
        lemma_events_at_most_once(next, inputs.drop_first());
    }
}

/// What a skip drops is never more than the skip asked for, and never more
/// than the buffer holds.
pub proof fn lemma_skip_bounds(audio: AudioSpec, skip: u64, available: nat)
    ensures
        spec_skip_bytes(audio, skip, available) <= available,
        spec_skip_bytes(audio, skip, available) <= spec_dur_to_samples(audio, skip as nat)
            * BYTES_PER_SAMPLE,
        spec_skip_bytes(audio, 0, available) == 0,
{
    assert(spec_dur_to_samples(audio, 0) == 0) by (nonlinear_arith)
        requires
            spec_dur_to_samples(audio, 0) == (audio.sample_rate as nat) * (audio.channels as nat)
                * 0 / (MICROS_PER_SECOND as nat),
    ;
}

/// The feed of one track.
pub struct FillState {
    decoder: Decoder,
    buf: Vec<u8>,
    target: usize,
    started: bool,
    draining: bool,
    armed: bool,
    reported: bool,
}

impl View for FillState {
    type V = Feed;

    closed spec fn view(&self) -> Feed {
        Feed {
            audio: self.decoder.spec_audio(),
            buf: self.buf@,
            target: self.target,
            started: self.started,
            draining: self.draining,
            armed: self.armed,
            reported: self.reported,
        }
    }
}

/// Microseconds that `bytes` bytes of the decoder's audio take to play.
fn micros_for(decoder: &Decoder, bytes: usize) -> (micros: u64)
    requires
        decoder.spec_audio().sample_rate > 0,
        decoder.spec_audio().channels > 0,
    ensures
        micros == spec_micros_for(decoder.spec_audio(), bytes as nat),
{
    let per_second: u64 = decoder.samples_per_second();
    let samples: u128 = (bytes / BYTES_PER_SAMPLE) as u128;
    assert(samples * MICROS_PER_SECOND <= u128::MAX) by (nonlinear_arith)
        requires
            samples <= 0xffff_ffff_ffff_ffff,
            MICROS_PER_SECOND == 1_000_000,
    ;
    let scaled: u128 = samples * (MICROS_PER_SECOND as u128);
    let micros: u128 = scaled / (per_second as u128);
    if micros > u64::MAX as u128 {
        u64::MAX
    } else {
        micros as u64
    }
}

/// Bytes of the decoder's audio in `micros` microseconds.
fn bytes_for(decoder: &Decoder, micros: u64) -> (bytes: u128)
    ensures
        bytes == spec_dur_to_samples(decoder.spec_audio(), micros as nat) * BYTES_PER_SAMPLE,
{
    let per_second: u64 = decoder.samples_per_second();
    assert(per_second * micros <= 0xff_ffff_ffff * 0xffff_ffff_ffff_ffff) by (nonlinear_arith)
        requires
            per_second <= 0xff_ffff_ffff,
            micros <= 0xffff_ffff_ffff_ffff,
    ;
    let product: u128 = (per_second as u128) * (micros as u128);
    let samples: u128 = product / (MICROS_PER_SECOND as u128);
    assert(samples * BYTES_PER_SAMPLE <= u128::MAX) by (nonlinear_arith)
        requires
            samples <= product,
            product <= 0xff_ffff_ffff * 0xffff_ffff_ffff_ffff,
            BYTES_PER_SAMPLE == 4,
    ;
    samples * (BYTES_PER_SAMPLE as u128)
}

impl FillState {
    /// The feed of a track before its pre-roll, or nothing if the
    /// decoder's audio has no sample rate or no channels.
    pub fn new(decoder: Decoder, output_threshold: u64) -> (made: Option<FillState>)
        ensures
            made is Some == (decoder.spec_audio().sample_rate > 0 && decoder.spec_audio().channels
                > 0),
            made matches Some(fill) ==> fill@ == Feed::spec_new(
                decoder.spec_audio(),
                output_threshold,
            ) && fill@.wf(),
    {
        if decoder.sample_rate() == 0 || decoder.channels() == 0 {
            return None;
        }
        let wanted = bytes_for(&decoder, output_threshold);
        let target: usize = if wanted < MIN_AUDIO_BUFFER_SIZE as u128 {
            MIN_AUDIO_BUFFER_SIZE
        } else if wanted > usize::MAX as u128 {
            usize::MAX
        } else {
            wanted as usize
        };
        Some(
            FillState {
                decoder,
                buf: Vec::new(),
                target,
                started: false,
                draining: false,
                armed: false,
                reported: false,
            },
        )
    }

    /// The decoder that this feed belongs to.
    pub fn decoder(&self) -> (decoder: Decoder)
        ensures
            decoder.spec_audio() == self@.audio,
    {
        self.decoder
    }

    /// Bytes of decoded audio that the backend has not taken yet.
    pub fn buffered(&self) -> (bytes: usize)
        ensures
            bytes == self@.buf.len(),
    {
        self.buf.len()
    }

    /// Bytes that the pre-roll asks for.
    pub fn target(&self) -> (bytes: usize)
        ensures
            bytes == self@.target,
    {
        self.target
    }

    /// Whether the decoder is through.
    pub fn is_draining(&self) -> (draining: bool)
        ensures
            draining == self@.draining,
    {
        self.draining
    }

    /// Whether the pre-roll has to pull before the backend stream is created.
    pub fn preroll_next(&self) -> (next: PreRoll)
        ensures
            next == self@.preroll_next(),
    {
        if self.buf.len() < self.target {
            PreRoll::Pull
        } else {
            PreRoll::Ready
        }
    }

    /// Take the outcome of a decoder pull during the pre-roll.
    pub fn preroll(&mut self, pulled: Result<Vec<u8>, DecoderError>) -> (out: PreRolled)
        requires
            old(self)@.wf(),
        ensures
            (final(self)@, out) == old(self)@.preroll(pulled),
            final(self)@.wf(),
    {
        match pulled {
            Ok(mut chunk) => {
                self.buf.append(&mut chunk);
                PreRolled { msg: None, next: self.preroll_next() }
            },
            Err(DecoderError::Retry) => PreRolled { msg: None, next: PreRoll::Pull },
            Err(DecoderError::EndOfDecode) => {
                let msg = if self.draining {
                    None
                } else {
                    Some(PlayerMsg::EndOfDecode)
                };
                self.draining = true;
                PreRolled { msg, next: PreRoll::Ready }
            },
            Err(DecoderError::StreamError(_)) => PreRolled {
                msg: Some(PlayerMsg::NotSupported),
                next: PreRoll::Abort,
            },
        }
    }

    /// Begin a pull of the backend, which asks for `limit` bytes, with a
    /// pending skip of `skip` microseconds.
    pub fn begin(&mut self, skip: u64, limit: usize) -> (out: Begun)
        requires
            old(self)@.wf(),
        ensures
            (final(self)@, out) == old(self)@.begin(skip, limit),
            final(self)@.wf(),
    {
        if self.armed {
            return Begun { msg: None, skipped: 0, next: Next::Idle };
        }
        let msg = if self.started {
            None
        } else {
            Some(PlayerMsg::TrackStarted)
        };
        self.started = true;
        let wanted = bytes_for(&self.decoder, skip);
        let dropped: usize = if wanted < self.buf.len() as u128 {
            wanted as usize
        } else {
            self.buf.len()
        };
        let mut rest = self.buf.split_off(dropped);
        core::mem::swap(&mut self.buf, &mut rest);
        assert(self.buf@ =~= old(self)@.buf.skip(dropped as int));
        let skipped = micros_for(&self.decoder, dropped);
        let next = if self.buf.len() < limit {
            Next::Pull
        } else {
            Next::Deliver
        };
        Begun { msg, skipped, next }
    }

    /// Take the outcome of a decoder pull while the backend asks for
    /// `limit` bytes.
    pub fn pulled(&mut self, pulled: Result<Vec<u8>, DecoderError>, limit: usize) -> (out: Pulled)
        requires
            old(self)@.wf(),
        ensures
            (final(self)@, out) == old(self)@.pulled(pulled, limit),
            final(self)@.wf(),
    {
        match pulled {
            Ok(mut chunk) => {
                self.buf.append(&mut chunk);
                let next = if self.buf.len() < limit {
                    Next::Pull
                } else {
                    Next::Deliver
                };
                Pulled { msg: None, next }
            },
            Err(DecoderError::Retry) => Pulled { msg: None, next: Next::Pull },
            Err(DecoderError::EndOfDecode) => {
                let msg = if self.draining {
                    None
                } else {
                    Some(PlayerMsg::EndOfDecode)
                };
                self.draining = true;
                Pulled { msg, next: Next::Deliver }
            },
            Err(DecoderError::StreamError(_)) => {
                self.draining = true;
                Pulled { msg: Some(PlayerMsg::NotSupported), next: Next::Deliver }
            },
        }
    }

    /// Hand up to `limit` bytes from the head of the buffer to the backend.
    pub fn deliver(&mut self, limit: usize) -> (out: Delivery)
        requires
            old(self)@.wf(),
        ensures
            final(self)@ == old(self)@.deliver(limit),
            final(self)@.wf(),
            out.bytes@ == old(self)@.buf.take(old(self)@.deliverable(limit) as int),
            out.elapsed == spec_micros_for(old(self)@.audio, old(self)@.deliverable(limit)),
            out.armed == final(self)@.armed,
    {
        let n: usize = if self.buf.len() < limit {
            self.buf.len()
        } else {
            limit
        };
        let mut rest = self.buf.split_off(n);
        core::mem::swap(&mut self.buf, &mut rest);
        assert(self.buf@ =~= old(self)@.buf.skip(n as int));
        assert(rest@ =~= old(self)@.buf.take(n as int));
        if self.draining && self.buf.len() == 0 {
            self.armed = true;
        }
        Delivery { bytes: rest, elapsed: micros_for(&self.decoder, n), armed: self.armed }
    }

    /// The backend has run out of data.
    pub fn end_of_data(&mut self) -> (msg: Option<PlayerMsg>)
        ensures
            (final(self)@, msg) == old(self)@.end_of_data(),
    {
        if self.armed && !self.reported {
            self.reported = true;
            Some(PlayerMsg::Drained)
        } else {
            None
        }
    }
}

} // verus!
