use vibe::audio_out::{gate, get_output_device_names, AudioOutput, Gate, LinkState};
use vibe::message::{AutoStart, PlayerMsg, StreamParams};
use vibe::stream::{Stream, StreamQueue};

fn corked(id: u64) -> Stream {
    Stream { id, streaming: false, alive: true }
}

fn params(id: u64, autostart: AutoStart) -> StreamParams {
    StreamParams { id, autostart, output_threshold: 200_000 }
}

#[test]
fn stream_lifecycle() {
    let mut s = Stream::new(7);
    assert_eq!(s, corked(7));
    s.play();
    assert_eq!(s, Stream { id: 7, streaming: true, alive: true });
    s.pause();
    assert_eq!(s, corked(7));
    s.disconnect();
    assert_eq!(s, Stream { id: 7, streaming: false, alive: false });
    s.unpause();
    assert_eq!(s, Stream { id: 7, streaming: true, alive: true });
}

#[test]
fn first_stream_plays_second_waits() {
    let mut q = StreamQueue::new();
    assert_eq!(q.playing(), None);
    assert_eq!(q.next_up(), None);
    assert_eq!(q.add(Stream::new(1)), (true, None));
    assert_eq!(q.add(Stream::new(2)), (false, None));
    assert_eq!(q.playing(), Some(corked(1)));
    assert_eq!(q.next_up(), Some(corked(2)));
}

#[test]
fn third_stream_displaces_the_waiting_one() {
    let mut q = StreamQueue::new();
    q.add(Stream::new(1));
    q.add(Stream::new(2));
    assert_eq!(q.add(Stream::new(3)), (false, Some(Stream { id: 2, streaming: false, alive: false })));
    assert_eq!(q.playing(), Some(corked(1)));
    assert_eq!(q.next_up(), Some(corked(3)));
}

#[test]
fn shift_promotes_the_waiting_stream() {
    let mut q = StreamQueue::new();
    q.add(Stream::new(1));
    q.add(Stream::new(2));
    q.uncork();
    q.drain();
    assert_eq!(q.shift(), Some(Stream { id: 1, streaming: false, alive: false }));
    assert_eq!(q.playing(), Some(corked(2)));
    assert_eq!(q.next_up(), None);
    assert!(!q.is_draining());
    assert_eq!(q.shift(), Some(Stream { id: 2, streaming: false, alive: false }));
    assert_eq!(q.playing(), None);
    assert_eq!(q.shift(), None);
}

#[test]
fn cork_and_uncork_report_a_playing_stream() {
    let mut q = StreamQueue::new();
    assert!(!q.cork());
    assert!(!q.uncork());
    q.add(Stream::new(1));
    assert!(q.uncork());
    assert_eq!(q.playing(), Some(Stream { id: 1, streaming: true, alive: true }));
    assert!(q.uncork());
    assert_eq!(q.playing(), Some(Stream { id: 1, streaming: true, alive: true }));
    assert!(q.cork());
    assert_eq!(q.playing(), Some(corked(1)));
    assert!(q.cork());
    assert_eq!(q.playing(), Some(corked(1)));
}

#[test]
fn drain_arms_once() {
    let mut q = StreamQueue::new();
    assert!(!q.drain());
    assert!(!q.is_draining());
    q.add(Stream::new(1));
    assert!(q.drain());
    assert!(q.is_draining());
    assert!(!q.drain());
    assert!(q.is_draining());
}

#[test]
fn queue_stop_hands_back_both_streams() {
    let mut q = StreamQueue::new();
    assert!(!q.flush());
    q.add(Stream::new(1));
    q.add(Stream::new(2));
    q.uncork();
    q.drain();
    assert!(q.flush());
    assert_eq!(
        q.stop(),
        (
            Some(Stream { id: 1, streaming: false, alive: false }),
            Some(Stream { id: 2, streaming: false, alive: false })
        )
    );
    assert_eq!(q.playing(), None);
    assert_eq!(q.next_up(), None);
    assert!(!q.is_draining());
    assert_eq!(q.stop(), (None, None));
}

#[test]
fn buffering_flag() {
    let mut q = StreamQueue::new();
    assert!(!q.is_buffering());
    q.set_buffering(true);
    assert!(q.is_buffering());
    q.set_buffering(false);
    assert!(!q.is_buffering());
}

#[test]
fn waiting_implies_playing_through_every_operation() {
    let mut q = StreamQueue::new();
    let mut id = 0;
    for step in 0..64u32 {
        match step % 7 {
            0 | 3 => {
                id += 1;
                q.add(Stream::new(id));
            }
            1 => {
                q.uncork();
            }
            2 => {
                q.shift();
            }
            4 => {
                q.cork();
            }
            5 => {
                q.drain();
            }
            _ => {
                if step % 2 == 0 {
                    q.stop();
                }
            }
        }
        assert!(q.next_up().is_none() || q.playing().is_some());
        assert!(q.next_up().map_or(true, |s| !s.streaming));
        assert!(!q.is_draining() || q.playing().is_some());
    }
}

#[test]
fn no_sink_without_a_backend() {
    assert!(AudioOutput::try_new(false).is_none());
    let out = AudioOutput::try_new(true).unwrap();
    assert_eq!(out.playing(), None);
    assert_eq!(out.next_up(), None);
    assert_eq!(out.get_dur(), 0);
    assert!(!out.is_buffering());
    assert!(!out.is_draining());
}

#[test]
fn autostart_uncorks_the_first_stream_only() {
    let mut out = AudioOutput::try_new(true).unwrap();
    let done = out.enqueue_new_stream(true, params(1, AutoStart::Auto));
    assert_eq!(done.msgs, vec![PlayerMsg::StreamEstablished]);
    assert_eq!(done.displaced, None);
    assert!(done.started);
    assert_eq!(out.playing(), Some(Stream { id: 1, streaming: true, alive: true }));
    let done = out.enqueue_new_stream(true, params(2, AutoStart::Auto));
    assert_eq!(done.msgs, vec![PlayerMsg::StreamEstablished]);
    assert!(!done.started);
    assert_eq!(out.playing(), Some(Stream { id: 1, streaming: true, alive: true }));
    assert_eq!(out.next_up(), Some(corked(2)));
}

#[test]
fn without_autostart_the_stream_stays_corked() {
    for autostart in [AutoStart::Off, AutoStart::Direct, AutoStart::AutoDirect] {
        let mut out = AudioOutput::try_new(true).unwrap();
        let done = out.enqueue_new_stream(true, params(1, autostart));
        assert!(!done.started);
        assert_eq!(out.playing(), Some(corked(1)));
    }
}

#[test]
fn failed_backend_stream_is_unsupported() {
    let mut out = AudioOutput::try_new(true).unwrap();
    let done = out.enqueue_new_stream(false, params(1, AutoStart::Auto));
    assert_eq!(done.msgs, vec![PlayerMsg::NotSupported]);
    assert_eq!(done.displaced, None);
    assert!(!done.started);
    assert_eq!(out.playing(), None);
    assert_eq!(out.next_up(), None);
}

#[test]
fn enqueue_reports_the_displaced_stream() {
    let mut out = AudioOutput::try_new(true).unwrap();
    assert_eq!(out.enqueue(Stream::new(1), AutoStart::Off), None);
    assert_eq!(out.enqueue(Stream::new(2), AutoStart::Off), None);
    assert_eq!(
        out.enqueue(Stream::new(3), AutoStart::Auto),
        Some(Stream { id: 2, streaming: false, alive: false })
    );
    assert_eq!(out.playing(), Some(corked(1)));
    assert_eq!(out.next_up(), Some(corked(3)));
}

#[test]
fn pause_twice_is_pause_once() {
    let mut once = AudioOutput::try_new(true).unwrap();
    let mut twice = AudioOutput::try_new(true).unwrap();
    once.enqueue_new_stream(true, params(1, AutoStart::Auto));
    twice.enqueue_new_stream(true, params(1, AutoStart::Auto));
    assert!(once.pause());
    assert!(twice.pause());
    assert!(twice.pause());
    assert_eq!(once.playing(), twice.playing());
    assert_eq!(once.next_up(), twice.next_up());
    assert_eq!(once.get_dur(), twice.get_dur());
    let mut empty = AudioOutput::try_new(true).unwrap();
    assert!(!empty.pause());
    assert!(!empty.pause());
}

#[test]
fn unpause_of_a_playing_sink_changes_nothing() {
    let mut out = AudioOutput::try_new(true).unwrap();
    out.enqueue_new_stream(true, params(1, AutoStart::Auto));
    out.advance(5_000);
    let before = (out.playing(), out.next_up(), out.get_dur(), out.is_draining(), out.is_buffering());
    assert!(out.unpause());
    let after = (out.playing(), out.next_up(), out.get_dur(), out.is_draining(), out.is_buffering());
    assert_eq!(before, after);
    assert!(out.play());
    let mut empty = AudioOutput::try_new(true).unwrap();
    assert!(!empty.unpause());
    assert!(!empty.play());
}

#[test]
fn clock_moves_forward_and_starts_over() {
    let mut out = AudioOutput::try_new(true).unwrap();
    out.advance(1_000);
    assert_eq!(out.get_dur(), 0);
    out.enqueue_new_stream(true, params(1, AutoStart::Auto));
    out.advance(1_000);
    out.advance(0);
    out.advance(2_500);
    assert_eq!(out.get_dur(), 3_500);
    out.pause();
    assert_eq!(out.get_dur(), 3_500);
    out.unpause();
    assert_eq!(out.get_dur(), 3_500);
    out.drain();
    assert_eq!(out.get_dur(), 3_500);
    out.track_started();
    assert_eq!(out.get_dur(), 0);
    out.advance(10);
    out.stop();
    assert_eq!(out.get_dur(), 0);
    out.enqueue_new_stream(true, params(2, AutoStart::Auto));
    out.advance(10);
    out.flush();
    assert_eq!(out.get_dur(), 0);
}

#[test]
fn clock_stops_at_its_largest_value() {
    let mut out = AudioOutput::try_new(true).unwrap();
    out.enqueue_new_stream(true, params(1, AutoStart::Auto));
    out.advance(u64::MAX - 1);
    out.advance(5);
    assert_eq!(out.get_dur(), u64::MAX);
}

#[test]
fn sink_stop_releases_both_streams() {
    let mut out = AudioOutput::try_new(true).unwrap();
    out.enqueue_new_stream(true, params(1, AutoStart::Auto));
    out.enqueue_new_stream(true, params(2, AutoStart::Auto));
    assert_eq!(
        out.stop(),
        (
            Some(Stream { id: 1, streaming: false, alive: false }),
            Some(Stream { id: 2, streaming: false, alive: false })
        )
    );
    assert_eq!(out.playing(), None);
    assert_eq!(out.next_up(), None);
    assert_eq!(out.flush(), (None, None));
}

#[test]
fn sink_shift_resets_the_clock() {
    let mut out = AudioOutput::try_new(true).unwrap();
    out.enqueue_new_stream(true, params(1, AutoStart::Auto));
    out.enqueue_new_stream(true, params(2, AutoStart::Auto));
    out.advance(9);
    assert!(out.drain());
    assert!(out.is_draining());
    assert_eq!(out.shift(), Some(Stream { id: 1, streaming: false, alive: false }));
    assert_eq!(out.get_dur(), 0);
    assert!(!out.is_draining());
    assert_eq!(out.playing(), Some(corked(2)));
}

#[test]
fn buffering_from_request_to_first_audio() {
    let mut out = AudioOutput::try_new(true).unwrap();
    out.requested();
    assert!(out.is_buffering());
    out.track_started();
    assert!(!out.is_buffering());
}

#[test]
fn devices_without_a_backend() {
    assert_eq!(get_output_device_names(), vec!["dummy_out1".to_string(), "dummy_out2".to_string()]);
}

#[test]
fn waiting_for_the_backend() {
    assert_eq!(gate(LinkState::Pending), Gate::Wait);
    assert_eq!(gate(LinkState::Ready), Gate::Proceed);
    assert_eq!(gate(LinkState::Failed), Gate::GiveUp);
    assert_eq!(gate(LinkState::Terminated), Gate::GiveUp);
}
