//! The playback queue: one stream that plays and at most one that waits.
//!
//! A [`Stream`] stands for one stream of the audio backend and records what
//! the player has asked of it. The [`StreamQueue`] holds the stream that
//! plays and the one that follows it, so that the next track can start the
//! moment the current one has drained.

use vstd::prelude::*;

verus! {

/// One backend stream, as the player has left it.
#[derive(Clone, Copy, Debug, PartialEq, Eq, Structural)]
pub struct Stream {
    /// The handle by which the embedding program finds the backend stream.
    pub id: u64,
    /// Whether the stream is uncorked.
    pub streaming: bool,
    /// Whether the stream is connected to the backend.
    pub alive: bool,
}

impl Stream {
    /// A connected, corked stream.
    pub open spec fn spec_new(id: u64) -> Stream {
        Stream { id, streaming: false, alive: true }
    }

    /// The stream, uncorked.
    pub open spec fn played(self) -> Stream {
        Stream { streaming: true, ..self }
    }

    /// The stream, corked.
    pub open spec fn paused(self) -> Stream {
        Stream { streaming: false, ..self }
    }

    /// The stream, connected and uncorked.
    pub open spec fn unpaused(self) -> Stream {
        Stream { streaming: true, alive: true, ..self }
    }

    /// The stream, cut off from the backend.
    pub open spec fn disconnected(self) -> Stream {
        Stream { streaming: false, alive: false, ..self }
    }

    /// A connected, corked stream.
    pub fn new(id: u64) -> (stream: Stream)
        ensures
            stream == Stream::spec_new(id),
    {
        Stream { id, streaming: false, alive: true }
    }

    /// Uncork the stream.
    pub fn play(&mut self)
        ensures
            *final(self) == old(self).played(),
        no_unwind
    {
        self.streaming = true;
    }

    /// Cork the stream.
    pub fn pause(&mut self)
        ensures
            *final(self) == old(self).paused(),
        no_unwind
    {
        self.streaming = false;
    }

    /// Uncork the stream, reconnecting it first if it was cut off.
    pub fn unpause(&mut self)
        ensures
            *final(self) == old(self).unpaused(),
        no_unwind
    {
        self.alive = true;
        self.streaming = true;
    }

    /// Cut the stream off from the backend.
    pub fn disconnect(&mut self)
        ensures
            *final(self) == old(self).disconnected(),
        no_unwind
    {
        self.streaming = false;
        self.alive = false;
    }
}

/// The mathematical content of a [`StreamQueue`].
pub struct Queue {
    /// The stream that plays.
    pub playing: Option<Stream>,
    /// The stream that follows it.
    pub next_up: Option<Stream>,
    /// Whether the playing stream is past the end of its decoded data.
    pub draining: bool,
    /// Whether a requested stream has not handed out audio yet.
    pub buffering: bool,
}

impl Queue {
    /// What holds of every queue: a stream waits only behind one that
    /// plays, the waiting stream is corked, and only a playing stream drains.
    pub open spec fn wf(self) -> bool {
        &&& self.next_up is Some ==> self.playing is Some
        &&& self.next_up matches Some(next) ==> !next.streaming
        &&& self.draining ==> self.playing is Some
    }

    /// The queue without streams.
    pub open spec fn empty() -> Queue {
        Queue { playing: None, next_up: None, draining: false, buffering: false }
    }

    /// The queue after `sm` was added: it plays when nothing did, and waits
    /// otherwise, in place of any stream that waited before.
    pub open spec fn add(self, sm: Stream) -> Queue {
        if self.playing is None {
            Queue { playing: Some(sm), ..self }
        } else {
            Queue { next_up: Some(sm), ..self }
        }
    }

    /// The queue after the playing stream left and the waiting one took its place.
    pub open spec fn shift(self) -> Queue {
        Queue { playing: self.next_up, next_up: None, draining: false, ..self }
    }

    /// The queue with its playing stream corked.
    pub open spec fn cork(self) -> Queue {
        match self.playing {
            Some(stream) => Queue { playing: Some(stream.paused()), ..self },
            None => self,
        }
    }

    /// The queue with its playing stream uncorked.
    pub open spec fn uncork(self) -> Queue {
        match self.playing {
            Some(stream) => Queue { playing: Some(stream.unpaused()), ..self },
            None => self,
        }
    }

    /// The queue with its playing stream marked as draining.
    pub open spec fn drain(self) -> Queue {
        if self.playing is Some {
            Queue { draining: true, ..self }
        } else {
            self
        }
    }

    /// The queue after every stream left it.
    pub open spec fn stop(self) -> Queue {
        Queue { playing: None, next_up: None, draining: false, ..self }
    }

    /// The streams that leave on a stop, each cut off: the one that played
    /// and the one that waited.
    pub open spec fn stopped(self) -> (Option<Stream>, Option<Stream>) {
        (
            match self.playing {
                Some(stream) => Some(stream.disconnected()),
                None => None,
            },
            match self.next_up {
                Some(stream) => Some(stream.disconnected()),
                None => None,
            },
        )
    }
}

/// Every queue operation keeps the queue well formed; in particular a
/// stream waits only while another one plays.
pub proof fn lemma_queue_shape(q: Queue, sm: Stream)
    requires
        q.wf(),
        !sm.streaming,
    ensures
        Queue::empty().wf(),
        q.add(sm).wf(),
        q.shift().wf(),
        q.cork().wf(),
        q.uncork().wf(),
        q.drain().wf(),
        q.stop().wf(),
{
}

/// Corking twice is corking once.
pub proof fn lemma_cork_idempotent(q: Queue)
    ensures
        q.cork().cork() == q.cork(),
        (q.cork().playing is Some) == (q.playing is Some),
{
}

/// Uncorking twice is uncorking once, and uncorking a queue whose playing
/// stream is connected and uncorked changes nothing.
pub proof fn lemma_uncork_idempotent(q: Queue)
    ensures
        q.uncork().uncork() == q.uncork(),
        (q.uncork().playing is Some) == (q.playing is Some),
        q.playing matches Some(stream) && stream.streaming && stream.alive ==> q.uncork() == q,
{
}

/// The playback queue of a sink.
pub struct StreamQueue {
    playing: Option<Stream>,
    next_up: Option<Stream>,
    draining: bool,
    buffering: bool,
}

impl View for StreamQueue {
    type V = Queue;

    closed spec fn view(&self) -> Queue {
        Queue {
            playing: self.playing,
            next_up: self.next_up,
            draining: self.draining,
            buffering: self.buffering,
        }
    }
}

impl StreamQueue {
    #[verifier::type_invariant]
    spec fn inv(self) -> bool {
        self@.wf()
    }

    /// An empty queue.
    pub fn new() -> (queue: StreamQueue)
        ensures
            queue@ == Queue::empty(),
    {
        StreamQueue { playing: None, next_up: None, draining: false, buffering: false }
    }

    /// Add a corked stream. It plays when nothing did; otherwise it waits,
    /// and the stream that waited before it is handed back, cut off.
    ///
    /// Returns whether the stream became the playing one.
    pub fn add(&mut self, sm: Stream) -> (added: (bool, Option<Stream>))
        requires
            !sm.streaming,
        ensures
            final(self)@ == old(self)@.add(sm),
            final(self)@.wf(),
            added.0 == (old(self)@.playing is None),
            added.1 == (if old(self)@.playing is Some {
                match old(self)@.next_up {
                    Some(before) => Some(before.disconnected()),
                    None => None,
                }
            } else {
                None
            }),
        no_unwind
    {
        proof {
            use_type_invariant(&*self);
        }
        match self.playing {
            None => {
                self.playing = Some(sm);
                (true, None)
            },
            Some(_) => {
                let displaced = match self.next_up {
                    Some(mut before) => {
                        before.disconnect();
                        Some(before)
                    },
                    None => None,
                };
                self.next_up = Some(sm);
                (false, displaced)
            },
        }
    }

    /// Take the playing stream out and let the waiting one take its place.
    /// The stream that left is handed back, cut off.
    pub fn shift(&mut self) -> (left: Option<Stream>)
        ensures
            final(self)@ == old(self)@.shift(),
            final(self)@.wf(),
            left == (match old(self)@.playing {
                Some(stream) => Some(stream.disconnected()),
                None => None,
            }),
        no_unwind
    {
        proof {
            use_type_invariant(&*self);
        }
        let left = match self.playing {
            Some(mut stream) => {
                stream.disconnect();
                Some(stream)
            },
            None => None,
        };
        self.draining = false;
        self.playing = self.next_up;
        self.next_up = None;
        left
    }

    /// Cork the playing stream. Returns whether there was one.
    pub fn cork(&mut self) -> (found: bool)
        ensures
            final(self)@ == old(self)@.cork(),
            final(self)@.wf(),
            found == (old(self)@.playing is Some),
        no_unwind
    {
        proof {
            use_type_invariant(&*self);
        }
        match self.playing {
            Some(mut stream) => {
                stream.pause();
                self.playing = Some(stream);
                true
            },
            None => false,
        }
    }

    /// Uncork the playing stream. Returns whether there was one.
    pub fn uncork(&mut self) -> (found: bool)
        ensures
            final(self)@ == old(self)@.uncork(),
            final(self)@.wf(),
            found == (old(self)@.playing is Some),
        no_unwind
    {
        proof {
            use_type_invariant(&*self);
        }
        match self.playing {
            Some(mut stream) => {
                stream.unpause();
                self.playing = Some(stream);
                true
            },
            None => false,
        }
    }

    /// Mark the playing stream as draining. Returns whether a stream plays
    /// that was not draining yet: only then is there anything to arm.
    pub fn drain(&mut self) -> (armed: bool)
        ensures
            final(self)@ == old(self)@.drain(),
            final(self)@.wf(),
            armed == (old(self)@.playing is Some && !old(self)@.draining),
        no_unwind
    {
        proof {
            use_type_invariant(&*self);
        }
        match self.playing {
            Some(_) => if self.draining {
                false
            } else {
                self.draining = true;
                true
            },
            None => false,
        }
    }

    /// Whether a stream plays whose backend buffer a flush has to discard.
    pub fn flush(&self) -> (found: bool)
        ensures
            found == (self@.playing is Some),
    {
        self.playing.is_some()
    }

    /// Empty the queue. The streams that left are handed back, each cut
    /// off: the one that played and the one that waited.
    pub fn stop(&mut self) -> (left: (Option<Stream>, Option<Stream>))
        ensures
            final(self)@ == old(self)@.stop(),
            final(self)@.wf(),
            left == old(self)@.stopped(),
        no_unwind
    {
        proof {
            use_type_invariant(&*self);
        }
        let played = match self.playing {
            Some(mut stream) => {
                stream.disconnect();
                Some(stream)
            },
            None => None,
        };
        let waited = match self.next_up {
            Some(mut stream) => {
                stream.disconnect();
                Some(stream)
            },
            None => None,
        };
        self.next_up = None;
        self.draining = false;
        self.playing = None;
        (played, waited)
    }

    /// Whether the playing stream is past the end of its decoded data.
    pub fn is_draining(&self) -> (draining: bool)
        ensures
            draining == self@.draining,
    {
        self.draining
    }

    /// Whether a requested stream has not handed out audio yet.
    pub fn is_buffering(&self) -> (buffering: bool)
        ensures
            buffering == self@.buffering,
    {
        self.buffering
    }

    pub fn set_buffering(&mut self, buffering: bool)
        ensures
            final(self)@ == (Queue { buffering, ..old(self)@ }),
            final(self)@.wf(),
        no_unwind
    {
        proof {
            use_type_invariant(&*self);
        }
        self.buffering = buffering;
    }

    /// The stream that plays.
    pub fn playing(&self) -> (stream: Option<Stream>)
        ensures
            stream == self@.playing,
    {
        self.playing
    }

    /// The stream that waits.
    pub fn next_up(&self) -> (stream: Option<Stream>)
        ensures
            stream == self@.next_up,
            stream is Some ==> self@.playing is Some,
    {
        proof {
            use_type_invariant(self);
        }
        self.next_up
    }
}

} // verus!
