use ffmtrans::envelope::{Medium, PacketEnvelope, StreamDescriptor};
use ffmtrans::sync::{normalize, repair_tick, rescale_packet, synthesize, TimestampSync};
use ffmtrans::time::{Rate, TimeBase};

fn pkt(stream_index: usize, pts: Option<i64>, dts: Option<i64>, duration: i64) -> PacketEnvelope {
    PacketEnvelope { stream_index, pts, dts, duration, position: Some(42), payload: 9 }
}

fn tb(num: u32, den: u32) -> TimeBase {
    TimeBase::new(num, den)
}

#[test]
fn synthesize_fills_missing_timestamps() {
    // Frame 3 at 30 fps in a 1/90000 base: pts = dts = 9000 (0.1 s), one
    // frame lasts 3000 ticks.
    let p = pkt(0, None, None, 0);
    let s = synthesize(p, 3, Rate::new(30, 1), tb(1, 90000)).unwrap();
    assert_eq!(s.pts, Some(9000));
    assert_eq!(s.dts, Some(9000));
    assert_eq!(s.duration, 3000);
    assert_eq!(s.payload, 9);
}

#[test]
fn synthesize_keeps_existing_timestamps() {
    let p = pkt(0, Some(5), None, 7);
    let s = synthesize(p, 3, Rate::new(30, 1), tb(1, 90000)).unwrap();
    assert_eq!(s, p);
}

#[test]
fn rescale_packet_converts_every_field() {
    let p = pkt(1, Some(48000), Some(47000), 1024);
    let r = rescale_packet(p, tb(1, 48000), tb(1, 1000)).unwrap();
    assert_eq!(r.pts, Some(1000));
    assert_eq!(r.dts, Some(979)); // 47000/48 = 979.16..., nearest
    assert_eq!(r.duration, 21); // 1024/48 = 21.33..., nearest
    assert_eq!(r.stream_index, 1);
    assert_eq!(r.position, Some(42));
}

#[test]
fn normalize_fills_the_missing_side() {
    let p = normalize(pkt(0, Some(5), None, 0));
    assert_eq!(p.dts, Some(5));
    let p = normalize(pkt(0, None, Some(6), 0));
    assert_eq!(p.pts, Some(6));
}

#[test]
fn repair_pushes_non_increasing_dts_forward() {
    // Strictly greater: kept.
    assert_eq!(repair_tick(200, 10, Some(100)), Some(200));
    // Equal: pushed by the duration.
    assert_eq!(repair_tick(100, 10, Some(100)), Some(110));
    // Behind with zero duration: pushed by the one-tick minimum.
    assert_eq!(repair_tick(50, 0, Some(100)), Some(101));
    // No previous dts: kept.
    assert_eq!(repair_tick(0, 0, None), Some(0));
    // No room left in 64 bits: refused rather than wrapped.
    assert_eq!(repair_tick(i64::MAX, 5, Some(i64::MAX)), None);
}

#[test]
fn emitted_dts_strictly_increase_under_jitter() {
    // One audio stream; the source jitters backward and repeats timestamps.
    let desc = StreamDescriptor {
        index: 0,
        medium: Medium::Audio,
        time_base: tb(1, 1000),
        nominal_rate: Rate::new(30, 1),
    };
    let out_tb = tb(1, 1000);
    let mut sync = TimestampSync::new(1);
    let inputs: [i64; 7] = [0, 10, 10, 5, 30, 29, 31];
    let mut emitted: Vec<i64> = Vec::new();
    for d in inputs {
        let p = pkt(0, Some(d), Some(d), 0);
        let out = sync.process_passthrough(p, desc, out_tb).unwrap();
        emitted.push(out.dts.unwrap());
        assert_eq!(out.position, None);
    }
    for w in emitted.windows(2) {
        assert!(w[0] < w[1], "not strictly increasing: {emitted:?}");
    }
}

#[test]
fn audio_passthrough_records_the_audio_clock() {
    let desc = StreamDescriptor {
        index: 0,
        medium: Medium::Audio,
        time_base: tb(1, 1000),
        nominal_rate: Rate::new(30, 1),
    };
    let mut sync = TimestampSync::new(1);
    let out = sync.process_passthrough(pkt(0, Some(2500), Some(2500), 0), desc, tb(1, 1000));
    assert!(out.is_some());
    // 2500 ticks of 1/1000 s: the clock reads 2.5 s.
    assert_eq!(sync.gap.audio_time.num, 2500);
    assert_eq!(sync.gap.audio_time.den, 1000);
}

#[test]
fn other_passthrough_leaves_the_audio_clock_alone() {
    let desc = StreamDescriptor {
        index: 0,
        medium: Medium::Other,
        time_base: tb(1, 1000),
        nominal_rate: Rate::new(30, 1),
    };
    let mut sync = TimestampSync::new(1);
    let before = sync.gap.audio_time;
    let out = sync.process_passthrough(pkt(0, Some(2500), Some(2500), 0), desc, tb(1, 1000));
    assert!(out.is_some());
    assert_eq!(sync.gap.audio_time, before);
}

#[test]
fn video_emit_anchors_to_the_audio_clock() {
    let audio_desc = StreamDescriptor {
        index: 1,
        medium: Medium::Audio,
        time_base: tb(1, 1000),
        nominal_rate: Rate::new(30, 1),
    };
    let mut sync = TimestampSync::new(2);
    sync.process_passthrough(pkt(1, Some(2500), Some(2500), 0), audio_desc, tb(1, 1000)).unwrap();
    // The encoder believes this packet sits at 900 of its own ticks; anchored
    // emission must place it at the audio clock instead: 2.5 s = 75 ticks of
    // 1/30 s.
    let enc_pkt = pkt(7, Some(900), Some(900), 1);
    let out = sync.process_video_emit(enc_pkt, tb(1, 30), tb(1, 30), 0, true).unwrap();
    assert_eq!(out.pts, Some(75));
    assert_eq!(out.dts, Some(75));
    assert_eq!(out.stream_index, 0);
    assert_eq!(out.position, None);
    // The video clock now records the written instant.
    assert_eq!(sync.gap.video_time.num, 75);
    assert_eq!(sync.gap.video_time.den, 30);
}

#[test]
fn video_emit_without_audio_keeps_encoder_timestamps() {
    let mut sync = TimestampSync::new(1);
    let enc_pkt = pkt(0, Some(7), Some(7), 1);
    let out = sync.process_video_emit(enc_pkt, tb(1, 30), tb(1, 30), 0, false).unwrap();
    assert_eq!(out.pts, Some(7));
    assert_eq!(out.dts, Some(7));
}

#[test]
fn decoded_frames_adopt_the_best_effort_timestamp() {
    let f = ffmtrans::envelope::FrameEnvelope {
        pts: None,
        best_effort_ts: Some(12),
        width: 1280,
        height: 800,
        pix_fmt: 0,
        payload: 4,
    };
    let stamped = f.adopt_best_effort_ts();
    assert_eq!(stamped.pts, Some(12));
    assert_eq!(stamped.payload, 4);
}
