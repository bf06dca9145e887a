use ffmtrans::control::{ThreadChannel, ThreadMsg};
use ffmtrans::envelope::{Medium, PacketEnvelope, StreamDescriptor};
use ffmtrans::session::{
    InitError, PipelineSession, RouteOutcome, SessionEvent, SessionMode, SessionState, StageError,
    is_fatal,
};
use ffmtrans::time::{Rate, TimeBase};

fn tb(num: u32, den: u32) -> TimeBase {
    TimeBase::new(num, den)
}

fn two_stream_table() -> Vec<StreamDescriptor> {
    vec![
        StreamDescriptor {
            index: 0,
            medium: Medium::Video,
            time_base: tb(1, 30),
            nominal_rate: Rate::new(30, 1),
        },
        StreamDescriptor {
            index: 1,
            medium: Medium::Audio,
            time_base: tb(1, 48000),
            nominal_rate: Rate::new(30, 1),
        },
    ]
}

fn pkt(stream_index: usize, ts: i64, duration: i64) -> PacketEnvelope {
    PacketEnvelope {
        stream_index,
        pts: Some(ts),
        dts: Some(ts),
        duration,
        position: Some(1),
        payload: 0,
    }
}

#[test]
fn remux_scenario_two_streams() {
    // Ten video packets and twenty audio packets with strictly increasing
    // timestamps: every one is written, per-stream dts strictly increase, and
    // the trailer is written exactly once after the input ends.
    let mut s = PipelineSession::new(two_stream_table(), SessionMode::Remux).unwrap();
    assert_eq!(s.state, SessionState::Running);
    let mut video_dts: Vec<i64> = Vec::new();
    let mut audio_dts: Vec<i64> = Vec::new();
    for i in 0..20i64 {
        if i < 10 {
            match s.handle_packet(pkt(0, i, 1)) {
                RouteOutcome::Write(out) => video_dts.push(out.dts.unwrap()),
                other => panic!("video packet {i} not written: {other:?}"),
            }
        }
        match s.handle_packet(pkt(1, i * 1600, 1600)) {
            RouteOutcome::Write(out) => audio_dts.push(out.dts.unwrap()),
            other => panic!("audio packet {i} not written: {other:?}"),
        }
    }
    assert_eq!(video_dts.len(), 10);
    assert_eq!(audio_dts.len(), 20);
    for w in video_dts.windows(2) {
        assert!(w[0] < w[1]);
    }
    for w in audio_dts.windows(2) {
        assert!(w[0] < w[1]);
    }
    // Input exhausted: drain, then the trailer exactly once.
    assert!(!s.trailer_written);
    s.apply_event(SessionEvent::InputEnded);
    assert_eq!(s.state, SessionState::Draining);
    let write_trailer = s.finish_drain();
    assert!(write_trailer);
    assert_eq!(s.state, SessionState::Terminated);
    assert!(s.trailer_written);
}

#[test]
fn transform_scenario_anchors_to_audio() {
    // After the audio path records 2.5 s, the next video packet the transform
    // path emits carries the audio instant, not the encoder's own timestamp.
    let mut s = PipelineSession::new(two_stream_table(), SessionMode::Transform).unwrap();
    // Audio at 2.5 s: 120000 ticks of 1/48000 s.
    match s.handle_packet(pkt(1, 120000, 1600)) {
        RouteOutcome::Write(out) => assert_eq!(out.dts, Some(120000)),
        other => panic!("audio not written: {other:?}"),
    }
    // The encoder hands back a packet it believes sits at 900 of its ticks.
    let out = s.emit_transformed(pkt(7, 900, 1)).unwrap();
    // 2.5 s in the video output base of 1/30 s: 75 ticks.
    assert_eq!(out.pts, Some(75));
    assert_eq!(out.dts, Some(75));
    assert_eq!(out.stream_index, 0);
}

#[test]
fn transform_scenario_synthesizes_missing_timestamps() {
    // A packet with neither pts nor dts at frame index 3 and 30 fps gets
    // 0.1 s: 3 ticks of the 1/30 s working base.
    let table = vec![
        StreamDescriptor {
            index: 0,
            medium: Medium::Video,
            time_base: tb(1, 90000),
            nominal_rate: Rate::new(30, 1),
        },
    ];
    let mut s = PipelineSession::new(table, SessionMode::Transform).unwrap();
    // Three packets with timestamps advance the frame counter to 3.
    for i in 0..3i64 {
        match s.handle_packet(pkt(0, i * 3000, 3000)) {
            RouteOutcome::Transform(_) => {},
            other => panic!("video packet {i} not routed to transform: {other:?}"),
        }
    }
    let missing = PacketEnvelope {
        stream_index: 0,
        pts: None,
        dts: None,
        duration: 0,
        position: None,
        payload: 3,
    };
    match s.handle_packet(missing) {
        RouteOutcome::Transform(out) => {
            assert_eq!(out.pts, Some(3));
            assert_eq!(out.dts, Some(3));
        },
        other => panic!("missing-ts packet not routed to transform: {other:?}"),
    }
}

#[test]
fn unknown_stream_indices_are_dropped() {
    let mut s = PipelineSession::new(two_stream_table(), SessionMode::Remux).unwrap();
    match s.handle_packet(pkt(5, 0, 1)) {
        RouteOutcome::Discarded => {},
        other => panic!("unknown index not dropped: {other:?}"),
    }
    assert_eq!(s.state, SessionState::Running);
}

#[test]
fn stop_request_drains_and_terminates() {
    // A stop sent on the channel is observed at the next loop top; after that
    // the session only drains and terminates.
    let ch = ThreadChannel::new();
    let mut s = PipelineSession::new(two_stream_table(), SessionMode::Remux).unwrap();
    assert!(!s.poll_cancellation(&ch.rx));
    assert_eq!(s.state, SessionState::Running);
    assert!(ch.request_stop());
    assert!(s.poll_cancellation(&ch.rx));
    assert_eq!(s.state, SessionState::Draining);
    // A second stop to an already-stopping session is a no-op for the state.
    assert!(ch.request_stop());
    assert_eq!(s.state, SessionState::Draining);
    assert!(s.finish_drain());
    assert_eq!(s.state, SessionState::Terminated);
}

#[test]
fn construction_rejects_bad_tables() {
    // A zero time-base denominator is a contract violation by the source.
    let bad = vec![
        StreamDescriptor {
            index: 0,
            medium: Medium::Video,
            time_base: TimeBase { num: 1, den: 0 },
            nominal_rate: Rate::new(30, 1),
        },
    ];
    match PipelineSession::new(bad, SessionMode::Remux) {
        Err(e) => assert_eq!(e, InitError::BadDescriptor),
        Ok(_) => panic!("bad table accepted"),
    }
    // An index that does not match its position.
    let shifted = vec![
        StreamDescriptor {
            index: 1,
            medium: Medium::Video,
            time_base: tb(1, 30),
            nominal_rate: Rate::new(30, 1),
        },
    ];
    match PipelineSession::new(shifted, SessionMode::Remux) {
        Err(e) => assert_eq!(e, InitError::BadDescriptor),
        Ok(_) => panic!("shifted table accepted"),
    }
    // No video stream to drive the session.
    let audio_only = vec![
        StreamDescriptor {
            index: 0,
            medium: Medium::Audio,
            time_base: tb(1, 48000),
            nominal_rate: Rate::new(30, 1),
        },
    ];
    match PipelineSession::new(audio_only, SessionMode::Remux) {
        Err(e) => assert_eq!(e, InitError::NoVideoStream),
        Ok(_) => panic!("audio-only table accepted"),
    }
}

#[test]
fn write_failures_are_fatal_and_codec_hiccups_are_not() {
    assert!(is_fatal(StageError::OpenInput));
    assert!(is_fatal(StageError::OpenOutput));
    assert!(is_fatal(StageError::WriteHeader));
    assert!(is_fatal(StageError::WritePacket));
    assert!(is_fatal(StageError::WriteTrailer));
    assert!(!is_fatal(StageError::DecodeSubmit));
    assert!(!is_fatal(StageError::DecodeNoFrame));
    assert!(!is_fatal(StageError::FilterNoFrame));
    assert!(!is_fatal(StageError::EncodeSubmit));
    assert!(!is_fatal(StageError::EncodeNoPacket));
    // And a failed write moves a running session to Draining.
    let mut s = PipelineSession::new(two_stream_table(), SessionMode::Remux).unwrap();
    s.apply_event(SessionEvent::WriteFailed);
    assert_eq!(s.state, SessionState::Draining);
}

#[test]
fn observe_stop_judges_the_message_exactly() {
    let mut s = PipelineSession::new(two_stream_table(), SessionMode::Remux).unwrap();
    // Nothing received: no stop, still running.
    assert!(!s.observe_stop(None));
    assert_eq!(s.state, SessionState::Running);
    // A message that does not ask to quit: no stop.
    assert!(!s.observe_stop(Some(ThreadMsg { quit: false })));
    assert_eq!(s.state, SessionState::Running);
    // A quit message: stop observed, session draining.
    assert!(s.observe_stop(Some(ThreadMsg::stop())));
    assert_eq!(s.state, SessionState::Draining);
}
