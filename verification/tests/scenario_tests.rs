use vibe::callback::{FillState, Next, PreRoll};
use vibe::decode::{
    mime_hint, Decoder, DecoderError, Format, PcmChannels, PcmSampleRate, Probe, SetupError,
    TrackParams,
};
use vibe::headers::{request_bytes, HeaderScan};
use vibe::message::{
    process_slim_msg, process_stream_msg, Action, AutoStart, ClientMessage, PcmSampleSize, Player,
    PlayerMsg, ServerMessage, StreamParams,
};
use vibe::proto::{capabilities, Server, Then};
use vibe::status::StatusCode;
use vibe::stream::Stream;

fn stream_frame(format: Format) -> ServerMessage {
    ServerMessage::Stream {
        autostart: AutoStart::Auto,
        format,
        pcmsamplesize: PcmSampleSize::SelfDescribing,
        pcmsamplerate: PcmSampleRate::SelfDescribing,
        pcmchannels: PcmChannels::SelfDescribing,
        threshold: 255,
        output_threshold: 200_000,
        server_port: 9000,
        server_ip: 0,
        http_headers: Some("GET /stream HTTP/1.0\r\n\r\n".to_string()),
    }
}

fn flac_track() -> Probe {
    Probe::Track {
        params: TrackParams {
            sample_rate: Some(44100),
            channel_layout: Some(vibe::decode::Layout::Stereo),
            channel_count: Some(2),
        },
        codec_found: true,
    }
}

fn codes(actions: &[Action]) -> Vec<StatusCode> {
    actions
        .iter()
        .filter_map(|a| match a {
            Action::Send(ClientMessage::Stat { event_code, .. }) => Some(*event_code),
            _ => None,
        })
        .collect()
}

/// Runs one pull of the backend on a decoder that has `left` bytes to give.
fn pull_once(p: &mut Player, f: &mut FillState, left: &mut usize, limit: usize, sent: &mut Vec<StatusCode>) {
    let skip = p.take_skip();
    let begun = f.begin(skip, limit);
    for event in begun.msg {
        sent.extend(codes(&process_stream_msg(p, event, true)));
    }
    let mut next = begun.next;
    while next == Next::Pull {
        let pulled = if *left == 0 {
            Err(DecoderError::EndOfDecode)
        } else {
            let n = (*left).min(4096);
            *left -= n;
            Ok(vec![0u8; n])
        };
        let out = f.pulled(pulled, limit);
        for event in out.msg {
            sent.extend(codes(&process_stream_msg(p, event, true)));
        }
        next = out.next;
    }
    if next == Next::Deliver {
        let d = f.deliver(limit);
        p.report_fill(begun.skipped + d.elapsed, f.target() as u32, f.buffered() as u32);
    }
}

#[test]
fn three_seconds_of_flac_play_through() {
    let mut p = Player::new("Vibe".to_string(), 0x0A00_0001);
    p.output_connected(true);
    let mut sent: Vec<StatusCode> = Vec::new();

    let opened = process_slim_msg(&mut p, stream_frame(Format::Flac), 0);
    let request = match &opened[..] {
        [Action::OpenStream(request)] => request.clone(),
        _ => panic!("the stream was not opened"),
    };
    assert_eq!(request_bytes(request.http_headers.as_bytes()), b"GET /stream HTTP/1.0\r\n\r\n".to_vec());
    assert_eq!(mime_hint(request.format), "audio/flac");
    sent.extend(codes(&process_stream_msg(&mut p, PlayerMsg::Connected, true)));
    sent.extend(codes(&process_stream_msg(&mut p, PlayerMsg::BufferThreshold, true)));
    let (state, used) = HeaderScan::LineStart.feed(b"HTTP/1.0 200 OK\r\n\r\nfLaC");
    assert_eq!((state, used), (HeaderScan::Done, 19));

    let decoder = Decoder::try_new(flac_track(), request.pcmsamplerate, request.pcmchannels).unwrap();
    let params =
        StreamParams { id: request.id, autostart: request.autostart, output_threshold: request.output_threshold };
    let started = process_stream_msg(&mut p, PlayerMsg::Decoder(decoder, params), true);
    assert_eq!(started, vec![Action::StartStream(decoder, params)]);

    let mut left: usize = 3 * 44100 * 2 * 4;
    let mut f = FillState::new(decoder, params.output_threshold).unwrap();
    while f.preroll_next() == PreRoll::Pull {
        left -= 4096;
        f.preroll(Ok(vec![0u8; 4096]));
    }
    let done = p.output.as_mut().unwrap().enqueue_new_stream(true, params);
    for event in done.msgs {
        sent.extend(codes(&process_stream_msg(&mut p, event, true)));
    }
    assert_eq!(p.output.as_ref().unwrap().playing(), Some(Stream { id: 0, streaming: true, alive: true }));

    let mut last = 0;
    while !f.is_draining() || f.buffered() > 0 {
        pull_once(&mut p, &mut f, &mut left, 35_280, &mut sent);
        let tick = p.tick();
        assert_eq!(codes(&tick), vec![StatusCode::Timer]);
        assert!(p.status.elapsed_milliseconds >= last);
        last = p.status.elapsed_milliseconds;
    }
    assert_eq!(last, 3000);
    assert_eq!(
        sent,
        vec![
            StatusCode::Connect,
            StatusCode::BufferThreshold,
            StatusCode::StreamEstablished,
            StatusCode::TrackStarted,
            StatusCode::DecoderReady
        ]
    );
    assert!(p.output.as_ref().unwrap().playing().is_some());
}

#[test]
fn second_track_follows_without_a_gap() {
    let mut p = Player::new("Vibe".to_string(), 0x0A00_0001);
    p.output_connected(true);
    let a = StreamParams { id: 0, autostart: AutoStart::Auto, output_threshold: 0 };
    let b = StreamParams { id: 1, autostart: AutoStart::Auto, output_threshold: 0 };
    let decoder = Decoder::try_new(flac_track(), PcmSampleRate::SelfDescribing, PcmChannels::SelfDescribing).unwrap();
    p.output.as_mut().unwrap().enqueue_new_stream(true, a);
    process_stream_msg(&mut p, PlayerMsg::TrackStarted, true);
    p.report_fill(2_000_000, 0, 0);

    process_slim_msg(&mut p, stream_frame(Format::Flac), 0);
    process_stream_msg(&mut p, PlayerMsg::Decoder(decoder, b), true);
    p.output.as_mut().unwrap().enqueue_new_stream(true, b);
    let out = p.output.as_ref().unwrap();
    assert_eq!(out.playing(), Some(Stream { id: 0, streaming: true, alive: true }));
    assert_eq!(out.next_up(), Some(Stream { id: 1, streaming: false, alive: true }));
    assert_eq!(p.get_dur(), 2_000_000);

    assert_eq!(codes(&process_stream_msg(&mut p, PlayerMsg::EndOfDecode, true)), vec![StatusCode::DecoderReady]);
    assert_eq!(
        process_stream_msg(&mut p, PlayerMsg::Drained, true),
        vec![Action::Disconnect(0), Action::Uncork(1)]
    );
    assert_eq!(p.output.as_ref().unwrap().playing(), Some(Stream { id: 1, streaming: true, alive: true }));

    let mut fb = FillState::new(decoder, 0).unwrap();
    fb.preroll(Ok(vec![0u8; 8192]));
    let begun = fb.begin(p.take_skip(), 4096);
    assert_eq!(begun.msg, Some(PlayerMsg::TrackStarted));
    let reply = process_stream_msg(&mut p, PlayerMsg::TrackStarted, true);
    assert_eq!(codes(&reply), vec![StatusCode::TrackStarted]);
    assert_eq!(p.status.elapsed_milliseconds, 0);
    assert_eq!(p.get_dur(), 0);
}

#[test]
fn pause_for_three_seconds_then_resume() {
    let mut p = Player::new("Vibe".to_string(), 0x0A00_0001);
    p.output_connected(true);
    p.output.as_mut().unwrap().enqueue_new_stream(
        true,
        StreamParams { id: 0, autostart: AutoStart::Auto, output_threshold: 0 },
    );
    p.report_fill(1_250_000, 0, 0);
    let paused = process_slim_msg(&mut p, ServerMessage::Pause(3_000_000), 10_000_000);
    assert_eq!(codes(&paused), vec![StatusCode::Pause]);
    assert!(paused.contains(&Action::Cork(0)));
    let timer = paused
        .iter()
        .find_map(|a| match a {
            Action::Schedule { delay, msg } => Some((*delay, *msg)),
            _ => None,
        })
        .unwrap();
    assert_eq!(timer, (3_000_000, PlayerMsg::Unpause));
    assert_eq!(p.output.as_ref().unwrap().playing(), Some(Stream { id: 0, streaming: false, alive: true }));

    let resumed = process_stream_msg(&mut p, timer.1, true);
    assert_eq!(codes(&resumed), vec![StatusCode::Resume]);
    assert!(resumed.contains(&Action::Uncork(0)));
    assert_eq!(p.output.as_ref().unwrap().playing(), Some(Stream { id: 0, streaming: true, alive: true }));
    assert_eq!(p.get_dur(), 1_250_000);
}

#[test]
fn skip_of_half_a_second_while_streaming() {
    let mut p = Player::new("Vibe".to_string(), 0x0A00_0001);
    p.output_connected(true);
    let params = StreamParams { id: 0, autostart: AutoStart::Auto, output_threshold: 0 };
    let decoder = Decoder::try_new(flac_track(), PcmSampleRate::SelfDescribing, PcmChannels::SelfDescribing).unwrap();
    p.output.as_mut().unwrap().enqueue_new_stream(true, params);
    let mut f = FillState::new(decoder, 0).unwrap();
    f.preroll(Ok((0..100_000u32).map(|i| (i % 256) as u8).collect()));
    f.begin(0, 0);

    process_slim_msg(&mut p, ServerMessage::Skip(500_000), 0);
    let before = p.get_dur();
    let begun = f.begin(p.take_skip(), 1024);
    assert_eq!(f.buffered(), 0);
    assert!(begun.skipped <= 500_000);
    assert_eq!(begun.skipped, 283_446);
    p.report_fill(begun.skipped, 0, 0);
    assert_eq!(p.get_dur(), before + 283_446);
    assert_eq!(p.skip, 0);
    assert_eq!(p.take_skip(), 0);
}

#[test]
fn unrecognized_container_is_not_supported() {
    let mut p = Player::new("Vibe".to_string(), 0x0A00_0001);
    p.output_connected(true);
    let mut sent: Vec<StatusCode> = Vec::new();
    let opened = process_slim_msg(&mut p, stream_frame(Format::Aac), 0);
    assert!(matches!(&opened[..], [Action::OpenStream(_)]));
    assert_eq!(mime_hint(Format::Aac), "audio/aac");
    sent.extend(codes(&process_stream_msg(&mut p, PlayerMsg::Connected, true)));
    let made = Decoder::try_new(Probe::Unrecognized, PcmSampleRate::SelfDescribing, PcmChannels::SelfDescribing);
    assert_eq!(made, Err(SetupError::UnrecognizedContainer));
    sent.extend(codes(&process_stream_msg(&mut p, PlayerMsg::NotSupported, true)));
    assert_eq!(sent, vec![StatusCode::Connect, StatusCode::NotSupported]);
    let out = p.output.as_ref().unwrap();
    assert_eq!(out.playing(), None);
    assert_eq!(out.next_up(), None);
}

#[test]
fn redirect_to_another_server() {
    let mut server = Server::first(Some((0x0A00_0001, 3483)), None).unwrap();
    let mut p = Player::new("Vibe".to_string(), 0);
    process_slim_msg(&mut p, server.greeting(), 0);
    assert_eq!(p.server_default_ip, 0x0A00_0001);

    let out = server.receive(vec![ServerMessage::Serv {
        ip_address: 0x0A00_0005,
        sync_group_id: Some("group7".to_string()),
    }]);
    assert_eq!(out.after, Then::Reconnect);
    for frame in out.forward {
        process_slim_msg(&mut p, frame.unwrap(), 0);
    }
    assert_eq!(p.server_default_ip, 0x0A00_0005);
    assert_eq!((server.ip, server.port), (0x0A00_0005, 3483));

    let caps = capabilities("0.3.1".to_string(), server.sync_group_id.clone());
    assert!(caps.to_string().contains("SyncgroupID=group7"));
    assert_eq!(server.greeting(), ServerMessage::Serv { ip_address: 0x0A00_0005, sync_group_id: None });
}
