//! The control core: what the player does about each frame from the server
//! and about each event from its own pipeline.

use vstd::prelude::*;
use vstd::utf8::encode_utf8;

use crate::audio_out::{AudioOutput, Sink};
use crate::decode::{Decoder, Format, PcmChannels, PcmSampleRate};
use crate::headers::{count_crlf, spec_count_crlf};
use crate::status::{StatusCode, StatusData};
use crate::stream::Stream;

verus! {

/// When the server wants a stream to start playing.
#[derive(Clone, Copy, Debug, PartialEq, Eq, Structural)]
pub enum AutoStart {
    /// The stream waits for an explicit resume.
    Off,
    /// The stream starts as soon as it is established.
    Auto,
    Direct,
    AutoDirect,
}

/// Sample size hint sent by the server.
#[derive(Clone, Copy, Debug, PartialEq, Eq, Structural)]
pub enum PcmSampleSize {
    Eight,
    Sixteen,
    Twenty,
    ThirtyTwo,
    SelfDescribing,
}

/// What travels with a decoder from the stream request to the sink.
#[derive(Clone, Copy, Debug, PartialEq, Eq, Structural)]
pub struct StreamParams {
    /// The handle of the stream, by which the embedding program finds the
    /// codec and the backend stream that belong to it.
    pub id: u64,
    pub autostart: AutoStart,
    /// Audio to buffer before the stream may start, in microseconds.
    pub output_threshold: u64,
}

/// An event from the player's own pipeline.
#[derive(Clone, Copy, Debug, PartialEq, Eq, Structural)]
pub enum PlayerMsg {
    EndOfDecode,
    Drained,
    Pause,
    Unpause,
    Connected,
    BufferThreshold,
    NotSupported,
    StreamEstablished,
    TrackStarted,
    Decoder(Decoder, StreamParams),
}

/// The gain that stands for unity, in the 16.16 fixed-point form of the wire.
pub const GAIN_UNIT: u32 = 0x1_0000;

/// One second, in microseconds.
pub const SECOND: u64 = 1_000_000;

/// A frame from the server. Durations are in microseconds, addresses are
/// IPv4 addresses as 32-bit numbers, gains are 16.16 fixed-point numbers.
#[derive(Clone, Debug, PartialEq, Eq)]
pub enum ServerMessage {
    Serv { ip_address: u32, sync_group_id: Option<String> },
    Status(u64),
    Stream {
        autostart: AutoStart,
        format: Format,
        pcmsamplesize: PcmSampleSize,
        pcmsamplerate: PcmSampleRate,
        pcmchannels: PcmChannels,
        threshold: u32,
        output_threshold: u64,
        server_port: u16,
        server_ip: u32,
        http_headers: Option<String>,
    },
    Gain(u32, u32),
    Enable(bool, bool),
    Flush,
    Stop,
    Pause(u64),
    Unpause(u64),
    Queryname,
    Setname(String),
    DisableDac,
    Skip(u64),
    Unrecognised(String),
    Error,
}

/// A frame for the server.
#[derive(Clone, Debug, PartialEq, Eq)]
pub enum ClientMessage {
    Stat { event_code: StatusCode, stat_data: StatusData },
    Bye(u8),
    Name(String),
}

/// A stream that the server asked for and the player accepted.
#[derive(Clone, Debug, PartialEq, Eq)]
pub struct StreamRequest {
    /// The handle given to the stream.
    pub id: u64,
    /// The address to fetch from; zero stands for `default_ip`.
    pub server_ip: u32,
    /// The address of the server that the player is connected to.
    pub default_ip: u32,
    pub server_port: u16,
    pub http_headers: String,
    /// Input to buffer before the stream is probed, in KiB.
    pub threshold: u32,
    pub format: Format,
    pub pcmsamplesize: PcmSampleSize,
    pub pcmsamplerate: PcmSampleRate,
    pub pcmchannels: PcmChannels,
    pub autostart: AutoStart,
    /// Audio to buffer before the stream may start, in microseconds.
    pub output_threshold: u64,
}

/// Something for the embedding program to carry out.
#[derive(Clone, Debug, PartialEq, Eq)]
pub enum Action {
    /// Send a frame to the server.
    Send(ClientMessage),
    /// Play with these gains from now on. Both are at most [`GAIN_UNIT`];
    /// the factor applied to the samples is the square root of the gain.
    SetVolume { left: u32, right: u32 },
    /// Hand `msg` to the control core after `delay` microseconds.
    Schedule { delay: u64, msg: PlayerMsg },
    /// Fetch the stream and set up a decoder for it, off the control loop.
    OpenStream(StreamRequest),
    /// Show what the stream `0` is about to play.
    Announce(u64),
    /// Buffer the pre-roll of the decoder and create its backend stream.
    StartStream(Decoder, StreamParams),
    /// Let go of the decoder of stream `0`: nothing will play it.
    Discard(u64),
    /// Open the audio backend.
    ConnectOutput,
    /// Close the audio backend.
    CloseOutput,
    /// Cork the backend stream `0`.
    Cork(u64),
    /// Uncork the backend stream `0`.
    Uncork(u64),
    /// Disconnect the backend stream `0` and let go of it.
    Disconnect(u64),
}

/// The mathematical content of a [`Player`].
pub struct PlayerState {
    pub output: Option<Sink>,
    pub server_default_ip: u32,
    pub name: String,
    pub status: StatusData,
    pub skip: u64,
    pub next_stream: u64,
}

/// The status frame with code `code` and the counters `status`.
pub open spec fn stat(code: StatusCode, status: StatusData) -> Action {
    Action::Send(ClientMessage::Stat { event_code: code, stat_data: status })
}

/// The gain `gain`, held to at most unity.
pub open spec fn spec_clamp_gain(gain: u32) -> u32 {
    if gain > GAIN_UNIT {
        GAIN_UNIT
    } else {
        gain
    }
}

/// The actions that release the streams that left a sink.
pub open spec fn spec_release(left: (Option<Stream>, Option<Stream>)) -> Seq<Action> {
    (match left.0 {
        Some(stream) => seq![Action::Disconnect(stream.id)],
        None => Seq::<Action>::empty(),
    }) + (match left.1 {
        Some(stream) => seq![Action::Disconnect(stream.id)],
        None => Seq::<Action>::empty(),
    })
}

/// Whether the server sent headers with at least one line end in them:
/// only then is a stream fetched.
pub open spec fn spec_accepts(http_headers: Option<String>) -> bool {
    http_headers matches Some(h) && spec_count_crlf(encode_utf8(h@)) > 0
}

/// `delay` less `spent`, and zero where that would be negative.
pub open spec fn spec_remaining(delay: u64, spent: u64) -> u64 {
    if delay > spent {
        (delay - spent) as u64
    } else {
        0
    }
}

impl PlayerState {
    /// What holds of every player: its sink, if it has one, is well formed.
    pub open spec fn wf(self) -> bool {
        self.output matches Some(out) ==> out.wf()
    }

    /// The playback position: zero without a sink.
    pub open spec fn dur(self) -> u64 {
        match self.output {
            Some(out) => out.dur(),
            None => 0,
        }
    }

    /// The stream that plays.
    pub open spec fn playing(self) -> Option<Stream> {
        match self.output {
            Some(out) => out.queue.playing,
            None => None,
        }
    }

    /// The streams that leave when the sink is stopped, each cut off.
    pub open spec fn stopped(self) -> (Option<Stream>, Option<Stream>) {
        match self.output {
            Some(out) => out.queue.stopped(),
            None => (None, None),
        }
    }

    /// The player with its sink stopped and its counters flushed, and the
    /// actions that release the streams and report the flush.
    pub open spec fn on_stop(self) -> (PlayerState, Seq<Action>) {
        let next = PlayerState {
            output: match self.output {
                Some(out) => Some(out.stop()),
                None => None,
            },
            status: self.status.flushed(),
            ..self
        };
        (next, spec_release(self.stopped()) + seq![stat(StatusCode::Flushed, next.status)])
    }

    /// A pause: the playing stream is corked and the pause reported; a
    /// pause with an interval also schedules the resume. Without a playing
    /// stream nothing happens.
    pub open spec fn on_pause(self, interval: u64) -> (PlayerState, Seq<Action>) {
        match self.output {
            Some(out) => match out.queue.playing {
                Some(stream) => (
                    PlayerState { output: Some(out.pause()), ..self },
                    seq![Action::Cork(stream.id), stat(StatusCode::Pause, self.status)] + (
                    if interval > 0 {
                        seq![Action::Schedule { delay: interval, msg: PlayerMsg::Unpause }]
                    } else {
                        Seq::<Action>::empty()
                    }),
                ),
                None => (self, Seq::<Action>::empty()),
            },
            None => (self, Seq::<Action>::empty()),
        }
    }

    /// A resume right now: the playing stream is uncorked and the resume
    /// reported. Without a playing stream nothing happens.
    pub open spec fn on_resume(self) -> (PlayerState, Seq<Action>) {
        match self.output {
            Some(out) => match out.queue.playing {
                Some(stream) => (
                    PlayerState { output: Some(out.unpause()), ..self },
                    seq![Action::Uncork(stream.id), stat(StatusCode::Resume, self.status)],
                ),
                None => (self, Seq::<Action>::empty()),
            },
            None => (self, Seq::<Action>::empty()),
        }
    }

    /// A status query: the position and the server's timestamp go into the
    /// counters, and the counters go out in a timer frame.
    pub open spec fn on_status(self, timestamp: u64) -> (PlayerState, Seq<Action>) {
        let status = StatusData { timestamp, ..self.status.with_elapsed(self.dur()) };
        (PlayerState { status, ..self }, seq![stat(StatusCode::Timer, status)])
    }

    /// The loss of the sink: its streams are released and the backend is
    /// opened again or closed.
    pub open spec fn on_enable(self, connect: bool) -> (PlayerState, Seq<Action>) {
        (
            PlayerState { output: None, ..self },
            spec_release(self.stopped()) + seq![
                if connect {
                    Action::ConnectOutput
                } else {
                    Action::CloseOutput
                },
            ],
        )
    }

    /// The state and the actions that follow a frame from the server, at
    /// `uptime` microseconds after the player started.
    pub open spec fn slim_step(self, msg: ServerMessage, uptime: u64) -> (PlayerState, Seq<Action>) {
        match msg {
            ServerMessage::Serv { ip_address, sync_group_id } => (
                PlayerState { server_default_ip: ip_address, ..self },
                Seq::<Action>::empty(),
            ),
            ServerMessage::Queryname => (
                self,
                seq![Action::Send(ClientMessage::Name(self.name))],
            ),
            ServerMessage::Setname(name) => (PlayerState { name, ..self }, Seq::<Action>::empty()),
            ServerMessage::Gain(left, right) => (
                self,
                seq![
                    Action::SetVolume {
                        left: spec_clamp_gain(left),
                        right: spec_clamp_gain(right),
                    },
                ],
            ),
            ServerMessage::Status(timestamp) => self.on_status(timestamp),
            ServerMessage::Stop => self.on_stop(),
            ServerMessage::Flush => self.on_stop(),
            ServerMessage::Pause(interval) => self.on_pause(interval),
            ServerMessage::Unpause(interval) => if interval == 0 {
                self.on_resume()
            } else {
                (
                    self,
                    seq![
                        Action::Schedule {
                            delay: spec_remaining(interval, uptime),
                            msg: PlayerMsg::Unpause,
                        },
                    ],
                )
            },
            ServerMessage::Skip(interval) => (
                PlayerState { skip: interval, ..self },
                Seq::<Action>::empty(),
            ),
            ServerMessage::Stream {
                autostart,
                format,
                pcmsamplesize,
                pcmsamplerate,
                pcmchannels,
                threshold,
                output_threshold,
                server_port,
                server_ip,
                http_headers,
            } => if spec_accepts(http_headers) {
                let headers = http_headers->Some_0;
                (
                    PlayerState {
                        output: match self.output {
                            Some(out) => Some(out.requested()),
                            None => None,
                        },
                        status: self.status.with_crlf(
                            (spec_count_crlf(encode_utf8(headers@)) % 256) as u8,
                        ),
                        next_stream: if self.next_stream == u64::MAX {
                            0
                        } else {
                            (self.next_stream + 1) as u64
                        },
                        ..self
                    },
                    seq![
                        Action::OpenStream(
                            StreamRequest {
                                id: self.next_stream,
                                server_ip,
                                default_ip: self.server_default_ip,
                                server_port,
                                http_headers: headers,
                                threshold,
                                format,
                                pcmsamplesize,
                                pcmsamplerate,
                                pcmchannels,
                                autostart,
                                output_threshold,
                            },
                        ),
                    ],
                )
            } else {
                (self, Seq::<Action>::empty())
            },
            ServerMessage::Enable(spdif, dac) => self.on_enable(spdif && dac),
            ServerMessage::DisableDac => self.on_enable(false),
            ServerMessage::Unrecognised(_) => (self, Seq::<Action>::empty()),
            ServerMessage::Error => (self, Seq::<Action>::empty()),
        }
    }

    /// The end of a track: the stream that played leaves, the one that
    /// waited takes over and is uncorked, and the position starts over.
    pub open spec fn on_drained(self) -> (PlayerState, Seq<Action>) {
        match self.output {
            Some(out) => (
                PlayerState {
                    output: Some(out.shift().unpause()),
                    status: self.status.with_elapsed(0),
                    ..self
                },
                (match out.queue.playing {
                    Some(stream) => seq![Action::Disconnect(stream.id)],
                    None => Seq::<Action>::empty(),
                }) + (match out.queue.next_up {
                    Some(stream) => seq![Action::Uncork(stream.id)],
                    None => Seq::<Action>::empty(),
                }),
            ),
            None => (
                PlayerState { status: self.status.with_elapsed(0), ..self },
                Seq::<Action>::empty(),
            ),
        }
    }

    /// The state and the actions that follow an event from the pipeline.
    /// With `quiet` set, no track is announced.
    pub open spec fn stream_step(self, msg: PlayerMsg, quiet: bool) -> (PlayerState, Seq<Action>) {
        match msg {
            PlayerMsg::EndOfDecode => (
                PlayerState {
                    output: match self.output {
                        Some(out) => Some(out.drain()),
                        None => None,
                    },
                    ..self
                },
                seq![stat(StatusCode::DecoderReady, self.status)],
            ),
            PlayerMsg::Drained => self.on_drained(),
            PlayerMsg::Pause => match self.output {
                Some(out) => match out.queue.playing {
                    Some(stream) => (
                        PlayerState { output: Some(out.pause()), ..self },
                        seq![Action::Cork(stream.id)],
                    ),
                    None => (self, Seq::<Action>::empty()),
                },
                None => (self, Seq::<Action>::empty()),
            },
            PlayerMsg::Unpause => self.on_resume(),
            PlayerMsg::Connected => (self, seq![stat(StatusCode::Connect, self.status)]),
            PlayerMsg::BufferThreshold => (
                self,
                seq![stat(StatusCode::BufferThreshold, self.status)],
            ),
            PlayerMsg::NotSupported => (self, seq![stat(StatusCode::NotSupported, self.status)]),
            PlayerMsg::StreamEstablished => (
                self,
                seq![stat(StatusCode::StreamEstablished, self.status)],
            ),
            PlayerMsg::TrackStarted => {
                let status = self.status.with_elapsed(0);
                (
                    PlayerState {
                        output: match self.output {
                            Some(out) => Some(out.track_started()),
                            None => None,
                        },
                        status,
                        ..self
                    },
                    seq![stat(StatusCode::TrackStarted, status)],
                )
            },
            PlayerMsg::Decoder(decoder, params) => (
                self,
                (if quiet {
                    Seq::<Action>::empty()
                } else {
                    seq![Action::Announce(params.id)]
                }) + seq![
                    if self.output is Some {
                        Action::StartStream(decoder, params)
                    } else {
                        Action::Discard(params.id)
                    },
                ],
            ),
        }
    }

    /// The heartbeat: the position goes into the counters, and the
    /// counters go out in a timer frame.
    pub open spec fn on_tick(self) -> (PlayerState, Seq<Action>) {
        let status = self.status.with_elapsed(self.dur());
        (PlayerState { status, ..self }, seq![stat(StatusCode::Timer, status)])
    }

    /// The loss of the server: the player says goodbye and stops its sink.
    pub open spec fn on_server_lost(self) -> (PlayerState, Seq<Action>) {
        (
            PlayerState {
                output: match self.output {
                    Some(out) => Some(out.stop()),
                    None => None,
                },
                ..self
            },
            seq![Action::Send(ClientMessage::Bye(1))] + spec_release(self.stopped()),
        )
    }
}

/// Whatever the server sends and whatever the pipeline reports, the sink
/// of the player stays well formed: a stream waits only while another one
/// plays.
pub proof fn lemma_player_shape(s: PlayerState, frame: ServerMessage, event: PlayerMsg, uptime:
    u64, quiet: bool)
    requires
        s.wf(),
    ensures
        s.slim_step(frame, uptime).0.wf(),
        s.stream_step(event, quiet).0.wf(),
        s.on_tick().0.wf(),
        s.on_server_lost().0.wf(),
{
}

/// The playback position never goes back, except where it starts over. A
/// frame from the server leaves it where it is unless the frame stops or
/// flushes the sink or takes the sink away, and an event from the pipeline
/// leaves it where it is unless a track starts or has drained. A stop, a
/// flush and the start of a track put it to zero.
pub proof fn lemma_position_monotonic(s: PlayerState, frame: ServerMessage, event: PlayerMsg,
    uptime: u64, quiet: bool)
    requires
        s.wf(),
    ensures
        !(frame is Stop || frame is Flush || frame is Enable || frame is DisableDac) ==> s.slim_step(
            frame,
            uptime,
        ).0.dur() == s.dur(),
        frame is Stop || frame is Flush ==> s.slim_step(frame, uptime).0.dur() == 0,
        !(event is TrackStarted || event is Drained) ==> s.stream_step(event, quiet).0.dur()
            == s.dur(),
        event is TrackStarted ==> s.stream_step(event, quiet).0.dur() == 0,
        s.on_tick().0.dur() == s.dur(),
{
}

/// A skip replaces the skip that is pending: two skips in a row leave the
/// player as the second one alone does.
pub proof fn lemma_skip_replaces(s: PlayerState, first: u64, second: u64, uptime: u64)
    ensures
        s.slim_step(ServerMessage::Skip(first), uptime).0.slim_step(
            ServerMessage::Skip(second),
            uptime,
        ) == s.slim_step(ServerMessage::Skip(second), uptime),
        s.slim_step(ServerMessage::Skip(second), uptime).0.skip == second,
{
}

/// The control context of the player.
pub struct Player {
    /// The sink, while the server has the output enabled and the audio
    /// backend could be opened.
    pub output: Option<AudioOutput>,
    /// The address of the server that the player is connected to.
    pub server_default_ip: u32,
    /// The name that the player goes by.
    pub name: String,
    pub status: StatusData,
    /// The skip that the next fill of the backend takes, in microseconds.
    pub skip: u64,
    /// The handle that the next stream gets.
    pub next_stream: u64,
}

impl View for Player {
    type V = PlayerState;

    open spec fn view(&self) -> PlayerState {
        PlayerState {
            output: match self.output {
                Some(out) => Some(out@),
                None => None,
            },
            server_default_ip: self.server_default_ip,
            name: self.name,
            status: self.status,
            skip: self.skip,
            next_stream: self.next_stream,
        }
    }
}

/// Hold a gain to at most unity.
pub fn clamp_gain(gain: u32) -> (clamped: u32)
    ensures
        clamped == spec_clamp_gain(gain),
        clamped <= GAIN_UNIT,
        gain <= GAIN_UNIT ==> clamped == gain,
{
    if gain > GAIN_UNIT {
        GAIN_UNIT
    } else {
        gain
    }
}

/// Append the actions that release the streams that left a sink.
fn push_release(actions: &mut Vec<Action>, left: (Option<Stream>, Option<Stream>))
    ensures
        final(actions)@ == old(actions)@ + spec_release(left),
{
    match left.0 {
        Some(stream) => {
            actions.push(Action::Disconnect(stream.id));
        },
        None => {},
    }
    match left.1 {
        Some(stream) => {
            actions.push(Action::Disconnect(stream.id));
        },
        None => {},
    }
    assert(actions@ =~= old(actions)@ + spec_release(left));
}

impl Player {
    /// A player without a sink, connected to the server at
    /// `server_default_ip`.
    pub fn new(name: String, server_default_ip: u32) -> (player: Player)
        ensures
            player@ == (PlayerState {
                output: None,
                server_default_ip,
                name,
                status: StatusData::spec_new(),
                skip: 0,
                next_stream: 0,
            }),
    {
        Player {
            output: None,
            server_default_ip,
            name,
            status: StatusData::new(),
            skip: 0,
            next_stream: 0,
        }
    }

    /// Playback position in microseconds; zero without a sink.
    pub fn get_dur(&self) -> (micros: u64)
        ensures
            micros == self@.dur(),
    {
        match &self.output {
            Some(out) => out.get_dur(),
            None => 0,
        }
    }

    /// Stop the sink. Returns the streams to release.
    fn stop_output(&mut self) -> (left: (Option<Stream>, Option<Stream>))
        ensures
            left == old(self)@.stopped(),
            final(self)@ == (PlayerState {
                output: match old(self)@.output {
                    Some(out) => Some(out.stop()),
                    None => None,
                },
                ..old(self)@
            }),
    {
        let taken = self.output.take();
        match taken {
            Some(mut out) => {
                let left = out.stop();
                self.output = Some(out);
                left
            },
            None => (None, None),
        }
    }

    /// Uncork the playing stream and report the resume.
    fn resume(&mut self) -> (actions: Vec<Action>)
        ensures
            (final(self)@, actions@) == old(self)@.on_resume(),
    {
        let mut actions: Vec<Action> = Vec::new();
        let taken = self.output.take();
        match taken {
            Some(mut out) => {
                match out.playing() {
                    Some(stream) => {
                        out.unpause();
                        actions.push(Action::Uncork(stream.id));
                        actions.push(
                            Action::Send(
                                ClientMessage::Stat {
                                    event_code: StatusCode::Resume,
                                    stat_data: self.status,
                                },
                            ),
                        );
                    },
                    None => {},
                }
                self.output = Some(out);
            },
            None => {},
        }
        assert(actions@ =~= old(self)@.on_resume().1);
        actions
    }

    /// Take the pending skip: it is handed out once, and zero is left.
    pub fn take_skip(&mut self) -> (skip: u64)
        ensures
            skip == old(self)@.skip,
            final(self)@ == (PlayerState { skip: 0, ..old(self)@ }),
    {
        let skip = self.skip;
        self.skip = 0;
        skip
    }

    /// Take in the outcome of opening the audio backend.
    pub fn output_connected(&mut self, backend_ready: bool)
        ensures
            final(self)@ == (PlayerState {
                output: if backend_ready {
                    Some(Sink::empty())
                } else {
                    None
                },
                ..old(self)@
            }),
    {
        self.output = AudioOutput::try_new(backend_ready);
    }

    /// Take in what a fill of the backend handed over: `micros`
    /// microseconds of audio, out of a buffer of `buffer_size` bytes of
    /// which `fullness` are left.
    pub fn report_fill(&mut self, micros: u64, buffer_size: u32, fullness: u32)
        ensures
            final(self)@ == (PlayerState {
                output: match old(self)@.output {
                    Some(out) => Some(out.advance(micros)),
                    None => None,
                },
                status: StatusData {
                    output_buffer_size: buffer_size,
                    output_buffer_fullness: fullness,
                    ..old(self)@.status.with_elapsed(final(self)@.dur())
                },
                ..old(self)@
            }),
            final(self)@.dur() >= old(self)@.dur(),
    {
        let taken = self.output.take();
        match taken {
            Some(mut out) => {
                out.advance(micros);
                self.output = Some(out);
            },
            None => {},
        }
        let dur = self.get_dur();
        self.status.set_elapsed(dur);
        self.status.set_output_buffer_size(buffer_size);
        self.status.set_output_buffer_fullness(fullness);
    }

    /// The heartbeat of the control loop: report the playback position.
    pub fn tick(&mut self) -> (actions: Vec<Action>)
        ensures
            (final(self)@, actions@) == old(self)@.on_tick(),
    {
        let dur = self.get_dur();
        self.status.set_elapsed(dur);
        let mut actions: Vec<Action> = Vec::new();
        actions.push(
            Action::Send(
                ClientMessage::Stat { event_code: StatusCode::Timer, stat_data: self.status },
            ),
        );
        assert(actions@ =~= old(self)@.on_tick().1);
        actions
    }

    /// How long the control loop waits for a frame or an event before it
    /// ticks: one second with a sink, five without.
    pub fn tick_interval(&self) -> (micros: u64)
        ensures
            self@.output is Some ==> micros == SECOND,
            self@.output is None ==> micros == 5 * SECOND,
    {
        match &self.output {
            Some(_) => SECOND,
            None => 5 * SECOND,
        }
    }

    /// The connection to the server is lost: say goodbye and stop the sink.
    pub fn server_lost(&mut self) -> (actions: Vec<Action>)
        ensures
            (final(self)@, actions@) == old(self)@.on_server_lost(),
    {
        let mut actions: Vec<Action> = Vec::new();
        actions.push(Action::Send(ClientMessage::Bye(1)));
        let left = self.stop_output();
        push_release(&mut actions, left);
        assert(actions@ =~= old(self)@.on_server_lost().1);
        actions
    }
}

/// Act on a frame from the server, at `uptime` microseconds after the
/// player started.
pub fn process_slim_msg(player: &mut Player, msg: ServerMessage, uptime: u64) -> (actions: Vec<
    Action,
>)
    ensures
        (final(player)@, actions@) == old(player)@.slim_step(msg, uptime),
{
    let mut actions: Vec<Action> = Vec::new();
    match msg {
        ServerMessage::Serv { ip_address, sync_group_id } => {
            player.server_default_ip = ip_address;
        },
        ServerMessage::Queryname => {
            actions.push(Action::Send(ClientMessage::Name(player.name.clone())));
        },
        ServerMessage::Setname(name) => {
            player.name = name;
        },
        ServerMessage::Gain(left, right) => {
            actions.push(
                Action::SetVolume { left: clamp_gain(left), right: clamp_gain(right) },
            );
        },
        ServerMessage::Status(timestamp) => {
            let dur = player.get_dur();
            player.status.set_elapsed(dur);
            player.status.set_timestamp(timestamp);
            actions.push(
                Action::Send(
                    ClientMessage::Stat {
                        event_code: StatusCode::Timer,
                        stat_data: player.status,
                    },
                ),
            );
        },
        ServerMessage::Stop | ServerMessage::Flush => {
            let left = player.stop_output();
            player.status.flush();
            push_release(&mut actions, left);
            actions.push(
                Action::Send(
                    ClientMessage::Stat {
                        event_code: StatusCode::Flushed,
                        stat_data: player.status,
                    },
                ),
            );
        },
        ServerMessage::Pause(interval) => {
            let taken = player.output.take();
            match taken {
                Some(mut out) => {
                    match out.playing() {
                        Some(stream) => {
                            out.pause();
                            actions.push(Action::Cork(stream.id));
                            actions.push(
                                Action::Send(
                                    ClientMessage::Stat {
                                        event_code: StatusCode::Pause,
                                        stat_data: player.status,
                                    },
                                ),
                            );
                            if interval > 0 {
                                actions.push(
                                    Action::Schedule { delay: interval, msg: PlayerMsg::Unpause },
                                );
                            }
                        },
                        None => {},
                    }
                    player.output = Some(out);
                },
                None => {},
            }
        },
        ServerMessage::Unpause(interval) => {
            if interval == 0 {
                actions = player.resume();
            } else {
                actions.push(
                    Action::Schedule {
                        delay: interval.saturating_sub(uptime),
                        msg: PlayerMsg::Unpause,
                    },
                );
            }
        },
        ServerMessage::Skip(interval) => {
            player.skip = interval;
        },
        ServerMessage::Stream {
            autostart,
            format,
            pcmsamplesize,
            pcmsamplerate,
            pcmchannels,
            threshold,
            output_threshold,
            server_port,
            server_ip,
            http_headers,
        } => {
            match http_headers {
                Some(headers) => {
                    let num_crlf = count_crlf(headers.as_str().as_bytes());
                    if num_crlf > 0 {
                        player.status.add_crlf((num_crlf % 256) as u8);
                        let id = player.next_stream;
                        player.next_stream = if id == u64::MAX {
                            0
                        } else {
                            id + 1
                        };
                        let taken = player.output.take();
                        match taken {
                            Some(mut out) => {
                                out.requested();
                                player.output = Some(out);
                            },
                            None => {},
                        }
                        actions.push(
                            Action::OpenStream(
                                StreamRequest {
                                    id,
                                    server_ip,
                                    default_ip: player.server_default_ip,
                                    server_port,
                                    http_headers: headers,
                                    threshold,
                                    format,
                                    pcmsamplesize,
                                    pcmsamplerate,
                                    pcmchannels,
                                    autostart,
                                    output_threshold,
                                },
                            ),
                        );
                    }
                },
                None => {},
            }
        },
        ServerMessage::Enable(spdif, dac) => {
            let left = player.stop_output();
            player.output = None;
            push_release(&mut actions, left);
            if spdif && dac {
                actions.push(Action::ConnectOutput);
            } else {
                actions.push(Action::CloseOutput);
            }
        },
        ServerMessage::DisableDac => {
            let left = player.stop_output();
            player.output = None;
            push_release(&mut actions, left);
            actions.push(Action::CloseOutput);
        },
        ServerMessage::Unrecognised(_) => {},
        ServerMessage::Error => {},
    }
    assert(actions@ =~= old(player)@.slim_step(msg, uptime).1);
    actions
}

/// Act on an event from the pipeline. With `quiet` set, no track is
/// announced.
pub fn process_stream_msg(player: &mut Player, msg: PlayerMsg, quiet: bool) -> (actions: Vec<
    Action,
>)
    ensures
        (final(player)@, actions@) == old(player)@.stream_step(msg, quiet),
{
    let mut actions: Vec<Action> = Vec::new();
    match msg {
        PlayerMsg::EndOfDecode => {
            let taken = player.output.take();
            match taken {
                Some(mut out) => {
                    out.drain();
                    player.output = Some(out);
                },
                None => {},
            }
            actions.push(
                Action::Send(
                    ClientMessage::Stat {
                        event_code: StatusCode::DecoderReady,
                        stat_data: player.status,
                    },
                ),
            );
        },
        PlayerMsg::Drained => {
            let taken = player.output.take();
            match taken {
                Some(mut out) => {
                    let next = out.next_up();
                    match out.shift() {
                        Some(stream) => {
                            actions.push(Action::Disconnect(stream.id));
                        },
                        None => {},
                    }
                    out.unpause();
                    match next {
                        Some(stream) => {
                            actions.push(Action::Uncork(stream.id));
                        },
                        None => {},
                    }
                    player.output = Some(out);
                },
                None => {},
            }
            player.status.set_elapsed(0);
        },
        PlayerMsg::Pause => {
            let taken = player.output.take();
            match taken {
                Some(mut out) => {
                    match out.playing() {
                        Some(stream) => {
                            out.pause();
                            actions.push(Action::Cork(stream.id));
                        },
                        None => {},
                    }
                    player.output = Some(out);
                },
                None => {},
            }
        },
        PlayerMsg::Unpause => {
            actions = player.resume();
        },
        PlayerMsg::Connected => {
            actions.push(
                Action::Send(
                    ClientMessage::Stat {
                        event_code: StatusCode::Connect,
                        stat_data: player.status,
                    },
                ),
            );
        },
        PlayerMsg::BufferThreshold => {
            actions.push(
                Action::Send(
                    ClientMessage::Stat {
                        event_code: StatusCode::BufferThreshold,
                        stat_data: player.status,
                    },
                ),
            );
        },
        PlayerMsg::NotSupported => {
            actions.push(
                Action::Send(
                    ClientMessage::Stat {
                        event_code: StatusCode::NotSupported,
                        stat_data: player.status,
                    },
                ),
            );
        },
        PlayerMsg::StreamEstablished => {
            actions.push(
                Action::Send(
                    ClientMessage::Stat {
                        event_code: StatusCode::StreamEstablished,
                        stat_data: player.status,
                    },
                ),
            );
        },
        PlayerMsg::TrackStarted => {
            let taken = player.output.take();
            match taken {
                Some(mut out) => {
                    out.track_started();
                    player.output = Some(out);
                },
                None => {},
            }
            player.status.set_elapsed(0);
            actions.push(
                Action::Send(
                    ClientMessage::Stat {
                        event_code: StatusCode::TrackStarted,
                        stat_data: player.status,
                    },
                ),
            );
        },
        PlayerMsg::Decoder(decoder, params) => {
            if !quiet {
                actions.push(Action::Announce(params.id));
            }
            match &player.output {
                Some(_) => {
                    actions.push(Action::StartStream(decoder, params));
                },
                None => {
                    actions.push(Action::Discard(params.id));
                },
            }
        },
    }
    assert(actions@ =~= old(player)@.stream_step(msg, quiet).1);
    actions
}

} // verus!
