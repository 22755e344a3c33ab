//! The sink: the playback queue together with the playback clock.

use vstd::prelude::*;

use crate::message::{AutoStart, PlayerMsg, StreamParams};
use crate::stream::{Queue, Stream, StreamQueue};

verus! {

/// The mathematical content of an [`AudioOutput`].
pub struct Sink {
    pub queue: Queue,
    /// Playback position of the playing stream, in microseconds.
    pub elapsed: u64,
}

impl Sink {
    /// What holds of every sink: its queue is well formed, and the clock
    /// stands at zero while nothing plays.
    pub open spec fn wf(self) -> bool {
        &&& self.queue.wf()
        &&& self.queue.playing is None ==> self.elapsed == 0
    }

    /// The sink without streams.
    pub open spec fn empty() -> Sink {
        Sink { queue: Queue::empty(), elapsed: 0 }
    }

    /// The playback position: zero while nothing plays.
    pub open spec fn dur(self) -> u64 {
        if self.queue.playing is Some {
            self.elapsed
        } else {
            0
        }
    }

    /// The sink after a corked stream was handed to it. The stream plays
    /// when nothing did, and is uncorked at once if the server asked for
    /// that; otherwise it waits.
    pub open spec fn enqueue(self, stream: Stream, autostart: AutoStart) -> Sink {
        if self.starts(autostart) {
            Sink { queue: self.queue.add(stream).uncork(), ..self }
        } else {
            Sink { queue: self.queue.add(stream), ..self }
        }
    }

    /// The stream that an enqueue pushes out of the queue, cut off.
    pub open spec fn displaced(self) -> Option<Stream> {
        if self.queue.playing is Some {
            match self.queue.next_up {
                Some(before) => Some(before.disconnected()),
                None => None,
            }
        } else {
            None
        }
    }

    /// Whether a stream that is handed to the sink starts at once: it does
    /// when nothing plays and the server asked for that.
    pub open spec fn starts(self, autostart: AutoStart) -> bool {
        self.queue.playing is None && autostart == AutoStart::Auto
    }

    /// The sink after the backend stream `id` was set up, or was not.
    pub open spec fn enqueue_new_stream(self, id: u64, backend_ready: bool, autostart: AutoStart) -> Sink {
        if backend_ready {
            self.enqueue(Stream::spec_new(id), autostart)
        } else {
            self
        }
    }

    pub open spec fn pause(self) -> Sink {
        Sink { queue: self.queue.cork(), ..self }
    }

    pub open spec fn unpause(self) -> Sink {
        Sink { queue: self.queue.uncork(), ..self }
    }

    pub open spec fn stop(self) -> Sink {
        Sink { queue: self.queue.stop(), elapsed: 0 }
    }

    pub open spec fn shift(self) -> Sink {
        Sink { queue: self.queue.shift(), elapsed: 0 }
    }

    pub open spec fn drain(self) -> Sink {
        Sink { queue: self.queue.drain(), ..self }
    }

    /// The sink after `micros` more microseconds were played. The clock
    /// stops at the largest value it can hold.
    pub open spec fn advance(self, micros: u64) -> Sink {
        if self.queue.playing is Some {
            Sink {
                elapsed: if self.elapsed + micros > u64::MAX {
                    u64::MAX
                } else {
                    (self.elapsed + micros) as u64
                },
                ..self
            }
        } else {
            self
        }
    }

    /// The sink after a requested stream was accepted.
    pub open spec fn requested(self) -> Sink {
        Sink { queue: Queue { buffering: true, ..self.queue }, ..self }
    }

    /// The sink after a track handed out its first audio.
    pub open spec fn track_started(self) -> Sink {
        Sink { queue: Queue { buffering: false, ..self.queue }, elapsed: 0 }
    }
}

/// What a sink reports when a stream was handed to it.
pub open spec fn spec_enqueue_msgs(backend_ready: bool) -> Seq<PlayerMsg> {
    if backend_ready {
        seq![PlayerMsg::StreamEstablished]
    } else {
        seq![PlayerMsg::NotSupported]
    }
}

/// Every sink operation keeps the sink well formed; in particular a stream
/// waits only while another one plays.
pub proof fn lemma_sink_shape(s: Sink, stream: Stream, autostart: AutoStart, micros: u64)
    requires
        s.wf(),
        !stream.streaming,
    ensures
        Sink::empty().wf(),
        s.enqueue(stream, autostart).wf(),
        s.pause().wf(),
        s.unpause().wf(),
        s.stop().wf(),
        s.shift().wf(),
        s.drain().wf(),
        s.advance(micros).wf(),
        s.requested().wf(),
        s.track_started().wf(),
{
}

/// The playback position never goes back while a stream plays on: playing
/// audio moves it forward, and pausing, resuming, draining and queueing
/// another stream behind the playing one leave it alone. Stopping and the
/// start of a track put it back to zero.
pub proof fn lemma_clock_monotonic(s: Sink, stream: Stream, autostart: AutoStart, micros: u64)
    requires
        s.wf(),
    ensures
        s.advance(micros).dur() >= s.dur(),
        s.pause().dur() == s.dur(),
        s.unpause().dur() == s.dur(),
        s.drain().dur() == s.dur(),
        s.requested().dur() == s.dur(),
        s.enqueue(stream, autostart).dur() == s.dur(),
        s.stop().dur() == 0,
        s.track_started().dur() == 0,
        Sink::empty().dur() == 0,
{
}

/// Pausing twice is pausing once.
pub proof fn lemma_pause_idempotent(s: Sink)
    ensures
        s.pause().pause() == s.pause(),
        (s.pause().queue.playing is Some) == (s.queue.playing is Some),
{
}

/// Resuming a sink whose playing stream is connected and uncorked changes
/// nothing, and resuming twice is resuming once.
pub proof fn lemma_unpause_noop(s: Sink)
    ensures
        s.queue.playing matches Some(stream) && stream.streaming && stream.alive ==> s.unpause()
            == s,
        s.unpause().unpause() == s.unpause(),
        (s.unpause().queue.playing is Some) == (s.queue.playing is Some),
{
}

/// How far the audio backend is with a connection or a stream.
#[derive(Clone, Copy, Debug, PartialEq, Eq, Structural)]
pub enum LinkState {
    /// Still being set up.
    Pending,
    Ready,
    Failed,
    Terminated,
}

/// What to do while waiting for the backend.
#[derive(Clone, Copy, Debug, PartialEq, Eq, Structural)]
pub enum Gate {
    /// Wait for the next change of state.
    Wait,
    /// Go on: the backend is ready.
    Proceed,
    /// Give up: the backend will not get ready.
    GiveUp,
}

/// What a state of the backend means for the one who waits for it.
pub open spec fn spec_gate(state: LinkState) -> Gate {
    match state {
        LinkState::Pending => Gate::Wait,
        LinkState::Ready => Gate::Proceed,
        LinkState::Failed => Gate::GiveUp,
        LinkState::Terminated => Gate::GiveUp,
    }
}

/// Decide whether to wait on for the backend.
pub fn gate(state: LinkState) -> (step: Gate)
    ensures
        step == spec_gate(state),
{
    match state {
        LinkState::Pending => Gate::Wait,
        LinkState::Ready => Gate::Proceed,
        LinkState::Failed => Gate::GiveUp,
        LinkState::Terminated => Gate::GiveUp,
    }
}

/// The names of the two devices that a sink without a backend offers.
pub open spec fn spec_output_device_names() -> Seq<Seq<char>> {
    seq!["dummy_out1"@, "dummy_out2"@]
}

/// Output devices that a sink without a backend offers.
pub fn get_output_device_names() -> (names: Vec<String>)
    ensures
        names@.len() == 2,
        names@.map_values(|s: String| s@) == spec_output_device_names(),
{
    let mut names: Vec<String> = Vec::new();
    names.push("dummy_out1".to_owned());
    names.push("dummy_out2".to_owned());
    assert(names@.map_values(|s: String| s@) =~= spec_output_device_names());
    names
}

/// What came of handing a stream to the sink.
#[derive(Clone, Debug, PartialEq, Eq)]
pub struct Enqueued {
    /// The events to report to the control core.
    pub msgs: Vec<PlayerMsg>,
    /// The stream that lost its place in the queue and has to be released.
    pub displaced: Option<Stream>,
    /// Whether the stream plays from now on: its backend stream is then to
    /// be uncorked.
    pub started: bool,
}

/// The sink: the streams of the audio backend that the player holds, and
/// the position of the one that plays.
pub struct AudioOutput {
    queue: StreamQueue,
    elapsed: u64,
}

impl View for AudioOutput {
    type V = Sink;

    closed spec fn view(&self) -> Sink {
        Sink { queue: self.queue@, elapsed: self.elapsed }
    }
}

impl AudioOutput {
    #[verifier::type_invariant]
    spec fn inv(self) -> bool {
        self@.wf()
    }

    /// A sink without streams, if the audio backend could be set up.
    pub fn try_new(backend_ready: bool) -> (made: Option<AudioOutput>)
        ensures
            made is Some == backend_ready,
            made matches Some(output) ==> output@ == Sink::empty(),
    {
        if backend_ready {
            Some(AudioOutput { queue: StreamQueue::new(), elapsed: 0 })
        } else {
            None
        }
    }

    /// Hand a corked stream to the sink. Returns the stream that lost its
    /// place in the queue, cut off.
    pub fn enqueue(&mut self, stream: Stream, autostart: AutoStart) -> (displaced: Option<Stream>)
        requires
            !stream.streaming,
        ensures
            final(self)@ == old(self)@.enqueue(stream, autostart),
            final(self)@.wf(),
            displaced == old(self)@.displaced(),
            old(self)@.starts(autostart) ==> final(self)@.queue.playing == Some(stream.unpaused()),
    {
        proof {
            use_type_invariant(&*self);
        }
        let (first, displaced) = self.queue.add(stream);
        if first && autostart == AutoStart::Auto {
            self.queue.uncork();
        }
        displaced
    }

    /// Take in the stream `id` of the backend for the decoder that just
    /// finished its pre-roll, if the backend could create and connect it.
    ///
    /// A stream that is ready is queued and reported as established. One
    /// that is not is reported as unsupported, and the queue stays as it is.
    pub fn enqueue_new_stream(&mut self, backend_ready: bool, params: StreamParams) -> (done:
        Enqueued)
        ensures
            final(self)@ == old(self)@.enqueue_new_stream(
                params.id,
                backend_ready,
                params.autostart,
            ),
            final(self)@.wf(),
            done.msgs@ == spec_enqueue_msgs(backend_ready),
            done.displaced == (if backend_ready {
                old(self)@.displaced()
            } else {
                None
            }),
            done.started == (backend_ready && old(self)@.starts(params.autostart)),
    {
        proof {
            use_type_invariant(&*self);
        }
        let mut msgs: Vec<PlayerMsg> = Vec::new();
        if backend_ready {
            let started = self.queue.playing().is_none() && params.autostart == AutoStart::Auto;
            let displaced = self.enqueue(Stream::new(params.id), params.autostart);
            msgs.push(PlayerMsg::StreamEstablished);
            assert(msgs@ =~= spec_enqueue_msgs(backend_ready));
            Enqueued { msgs, displaced, started }
        } else {
            msgs.push(PlayerMsg::NotSupported);
            assert(msgs@ =~= spec_enqueue_msgs(backend_ready));
            Enqueued { msgs, displaced: None, started: false }
        }
    }

    /// Uncork the playing stream. Returns whether there was one.
    pub fn play(&mut self) -> (found: bool)
        ensures
            final(self)@ == old(self)@.unpause(),
            final(self)@.wf(),
            found == (old(self)@.queue.playing is Some),
    {
        self.unpause()
    }

    /// Uncork the playing stream. Returns whether there was one.
    pub fn unpause(&mut self) -> (found: bool)
        ensures
            final(self)@ == old(self)@.unpause(),
            final(self)@.wf(),
            found == (old(self)@.queue.playing is Some),
    {
        proof {
            use_type_invariant(&*self);
        }
        self.queue.uncork()
    }

    /// Cork the playing stream. Returns whether there was one.
    pub fn pause(&mut self) -> (found: bool)
        ensures
            final(self)@ == old(self)@.pause(),
            final(self)@.wf(),
            found == (old(self)@.queue.playing is Some),
    {
        proof {
            use_type_invariant(&*self);
        }
        self.queue.cork()
    }

    /// Drop both streams and put the clock back to zero. The streams that
    /// left are handed back, each cut off: the one that played and the one
    /// that waited.
    pub fn stop(&mut self) -> (left: (Option<Stream>, Option<Stream>))
        ensures
            final(self)@ == old(self)@.stop(),
            final(self)@.wf(),
            left == old(self)@.queue.stopped(),
    {
        proof {
            use_type_invariant(&*self);
        }
        self.elapsed = 0;
        self.queue.stop()
    }

    /// The same as [`AudioOutput::stop`].
    pub fn flush(&mut self) -> (left: (Option<Stream>, Option<Stream>))
        ensures
            final(self)@ == old(self)@.stop(),
            final(self)@.wf(),
            left == old(self)@.queue.stopped(),
    {
        self.stop()
    }

    /// Let go of the playing stream and promote the waiting one, with the
    /// clock back at zero. The stream that left is handed back, cut off.
    pub fn shift(&mut self) -> (left: Option<Stream>)
        ensures
            final(self)@ == old(self)@.shift(),
            final(self)@.wf(),
            left == (match old(self)@.queue.playing {
                Some(stream) => Some(stream.disconnected()),
                None => None,
            }),
    {
        proof {
            use_type_invariant(&*self);
        }
        self.elapsed = 0;
        self.queue.shift()
    }

    /// Mark the playing stream as draining. Returns whether a stream plays
    /// that was not draining yet.
    pub fn drain(&mut self) -> (armed: bool)
        ensures
            final(self)@ == old(self)@.drain(),
            final(self)@.wf(),
            armed == (old(self)@.queue.playing is Some && !old(self)@.queue.draining),
    {
        proof {
            use_type_invariant(&*self);
        }
        self.queue.drain()
    }

    /// Playback position in microseconds; zero while nothing plays.
    pub fn get_dur(&self) -> (micros: u64)
        ensures
            micros == self@.dur(),
            micros == self@.elapsed,
    {
        proof {
            use_type_invariant(self);
        }
        self.elapsed
    }

    /// Move the clock forward by the audio that was handed to the backend.
    pub fn advance(&mut self, micros: u64)
        ensures
            final(self)@ == old(self)@.advance(micros),
            final(self)@.wf(),
            final(self)@.dur() >= old(self)@.dur(),
    {
        proof {
            use_type_invariant(&*self);
        }
        if self.queue.playing().is_some() {
            self.elapsed = self.elapsed.saturating_add(micros);
        }
    }

    /// Note that a requested stream was accepted and is buffering.
    pub fn requested(&mut self)
        ensures
            final(self)@ == old(self)@.requested(),
            final(self)@.wf(),
    {
        proof {
            use_type_invariant(&*self);
        }
        self.queue.set_buffering(true);
    }

    /// Note that a track handed out its first audio: the clock starts over
    /// and buffering is done.
    pub fn track_started(&mut self)
        ensures
            final(self)@ == old(self)@.track_started(),
            final(self)@.wf(),
    {
        proof {
            use_type_invariant(&*self);
        }
        self.elapsed = 0;
        self.queue.set_buffering(false);
    }

    /// The stream that plays.
    pub fn playing(&self) -> (stream: Option<Stream>)
        ensures
            stream == self@.queue.playing,
    {
        self.queue.playing()
    }

    /// The stream that waits.
    pub fn next_up(&self) -> (stream: Option<Stream>)
        ensures
            stream == self@.queue.next_up,
            stream is Some ==> self@.queue.playing is Some,
    {
        self.queue.next_up()
    }

    /// Whether the playing stream is past the end of its decoded data.
    pub fn is_draining(&self) -> (draining: bool)
        ensures
            draining == self@.queue.draining,
    {
        self.queue.is_draining()
    }

    /// Whether a requested stream has not handed out audio yet.
    pub fn is_buffering(&self) -> (buffering: bool)
        ensures
            buffering == self@.queue.buffering,
    {
        self.queue.is_buffering()
    }
}

} // verus!
