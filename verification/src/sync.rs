//! The Timestamp Synchronizer.
//!
//! Every packet that reaches the output goes through the same repairs, in
//! order: synthesis of missing timestamps from the frame counter and the
//! nominal rate; rescaling from the source time base into the destination
//! one; filling a missing pts or dts from the other; monotonic repair against
//! the last decoding timestamp emitted on the same output stream; and
//! invalidation of the source byte position. The synchronizer also keeps the
//! audio/video time gap: the passthrough path records the instant of the last
//! audio packet it emitted, and the transform path anchors its video packets
//! to that instant to cancel its extra latency.

use crate::envelope::{Medium, PacketEnvelope, StreamDescriptor};
use crate::time::{
    rescale, rescale_spec, time_to_ticks, time_ticks_spec, Rate, Rounding, TimeBase, TimeVal,
};
use vstd::prelude::*;

verus! {

/// Whether an exact tick value is representable as a 64-bit tick count.
pub open spec fn in_i64(v: int) -> bool {
    i64::MIN <= v <= i64::MAX
}

// --- Missing-timestamp synthesis ---

/// Synthesis applies only to packets that carry neither timestamp.
pub open spec fn needs_synthesis(p: PacketEnvelope) -> bool {
    p.pts is None && p.dts is None
}

/// The synthetic pts of frame `k`: `k` frame durations, converted from the
/// nominal rate's own base into the stream's time base.
pub open spec fn synth_pts_spec(k: int, rate: Rate, tb: TimeBase) -> int {
    rescale_spec(k, TimeBase { num: rate.den, den: rate.num }, tb, Rounding::Nearest)
}

/// The nominal duration of one frame, in ticks of `tb`.
pub open spec fn synth_dur_spec(rate: Rate, tb: TimeBase) -> int {
    synth_pts_spec(1, rate, tb)
}

pub open spec fn synthesize_ok(p: PacketEnvelope, k: int, rate: Rate, tb: TimeBase) -> bool {
    needs_synthesis(p) ==> in_i64(synth_pts_spec(k, rate, tb)) && in_i64(synth_dur_spec(rate, tb))
}

/// What synthesis yields: a packet without timestamps gets pts = dts =
/// synthetic pts and the nominal frame duration; any other packet is
/// untouched.
pub open spec fn synthesize_spec(p: PacketEnvelope, k: int, rate: Rate, tb: TimeBase)
    -> PacketEnvelope {
    if needs_synthesis(p) {
        PacketEnvelope {
            pts: Some(synth_pts_spec(k, rate, tb) as i64),
            dts: Some(synth_pts_spec(k, rate, tb) as i64),
            duration: synth_dur_spec(rate, tb) as i64,
            ..p
        }
    } else {
        p
    }
}

/// Fills a packet that lacks both timestamps with a synthetic pts derived
/// from the frame counter and the nominal rate; `None` only when the
/// synthetic value does not fit 64 bits.
pub fn synthesize(p: PacketEnvelope, frame_index: u64, rate: Rate, tb: TimeBase)
    -> (r: Option<PacketEnvelope>)
    requires
        rate.valid(),
        tb.valid(),
        frame_index <= i64::MAX as u64,
    ensures
        r == if synthesize_ok(p, frame_index as int, rate, tb) {
            Some(synthesize_spec(p, frame_index as int, rate, tb))
        } else {
            None::<PacketEnvelope>
        },
{
    if p.pts.is_none() && p.dts.is_none() {
        let fb = rate.frame_base();
        match rescale(frame_index as i64, fb, tb, Rounding::Nearest) {
            Some(pts) => match rescale(1i64, fb, tb, Rounding::Nearest) {
                Some(dur) => Some(
                    PacketEnvelope { pts: Some(pts), dts: Some(pts), duration: dur, ..p },
                ),
                None => None,
            },
            None => None,
        }
    } else {
        Some(p)
    }
}

// --- Rescaling between time bases ---

pub open spec fn rescale_opt_spec(o: Option<i64>, from: TimeBase, to: TimeBase) -> Option<i64> {
    match o {
        Some(t) => Some(rescale_spec(t as int, from, to, Rounding::Nearest) as i64),
        None => None,
    }
}

pub open spec fn rescale_opt_ok(o: Option<i64>, from: TimeBase, to: TimeBase) -> bool {
    match o {
        Some(t) => in_i64(rescale_spec(t as int, from, to, Rounding::Nearest)),
        None => true,
    }
}

pub open spec fn rescale_packet_ok(p: PacketEnvelope, from: TimeBase, to: TimeBase) -> bool {
    rescale_opt_ok(p.pts, from, to) && rescale_opt_ok(p.dts, from, to)
        && in_i64(rescale_spec(p.duration as int, from, to, Rounding::Nearest))
}

/// What rescaling yields: pts, dts and duration converted into `to`-ticks by
/// nearest rounding (so successive timestamps do not collapse), the rest of
/// the envelope untouched.
pub open spec fn rescale_packet_spec(p: PacketEnvelope, from: TimeBase, to: TimeBase)
    -> PacketEnvelope {
    PacketEnvelope {
        pts: rescale_opt_spec(p.pts, from, to),
        dts: rescale_opt_spec(p.dts, from, to),
        duration: rescale_spec(p.duration as int, from, to, Rounding::Nearest) as i64,
        ..p
    }
}

fn rescale_opt(o: Option<i64>, from: TimeBase, to: TimeBase) -> (r: Option<Option<i64>>)
    requires
        from.valid(),
        to.valid(),
    ensures
        r == if rescale_opt_ok(o, from, to) {
            Some(rescale_opt_spec(o, from, to))
        } else {
            None::<Option<i64>>
        },
{
    match o {
        Some(t) => match rescale(t, from, to, Rounding::Nearest) {
            Some(v) => Some(Some(v)),
            None => None,
        },
        None => Some(None),
    }
}

/// Converts a packet's pts, dts and duration from `from`-ticks into
/// `to`-ticks; `None` only when a converted value does not fit 64 bits.
pub fn rescale_packet(p: PacketEnvelope, from: TimeBase, to: TimeBase)
    -> (r: Option<PacketEnvelope>)
    requires
        from.valid(),
        to.valid(),
    ensures
        r == if rescale_packet_ok(p, from, to) {
            Some(rescale_packet_spec(p, from, to))
        } else {
            None::<PacketEnvelope>
        },
{
    let pts = rescale_opt(p.pts, from, to);
    let dts = rescale_opt(p.dts, from, to);
    let dur = rescale(p.duration, from, to, Rounding::Nearest);
    match (pts, dts, dur) {
        (Some(pts), Some(dts), Some(duration)) => Some(
            PacketEnvelope { pts, dts, duration, ..p },
        ),
        _ => None,
    }
}

// --- Filling a missing pts or dts from the other ---

/// A container write needs both timestamps; a packet that carries only one
/// adopts it for the other (a stream without reordering has pts == dts).
pub open spec fn normalize_spec(p: PacketEnvelope) -> PacketEnvelope {
    match (p.pts, p.dts) {
        (Some(_), None) => PacketEnvelope { dts: p.pts, ..p },
        (None, Some(_)) => PacketEnvelope { pts: p.dts, ..p },
        _ => p,
    }
}

pub fn normalize(p: PacketEnvelope) -> (r: PacketEnvelope)
    ensures
        r == normalize_spec(p),
{
    match (p.pts, p.dts) {
        (Some(_), None) => PacketEnvelope { dts: p.pts, ..p },
        (None, Some(_)) => PacketEnvelope { pts: p.dts, ..p },
        _ => p,
    }
}

// --- Monotonic dts repair ---

/// The minimum tick step between successive decoding timestamps: the packet's
/// duration, or one tick when the container records no (or a nonsensical)
/// duration.
pub open spec fn min_step(dur: int) -> int {
    if dur >= 1 {
        dur
    } else {
        1
    }
}

/// The decoding timestamp actually emitted: the packet's own when it is
/// strictly past the last one emitted on the stream, else the last one pushed
/// forward by the minimum step.
pub open spec fn repaired_dts(d: int, dur: int, last: Option<int>) -> int {
    match last {
        Some(l) => if d > l {
            d
        } else {
            l + min_step(dur)
        },
        None => d,
    }
}

/// Repair emits a strictly larger dts than the last one, whatever the input.
pub proof fn lemma_repair_strictly_increases(d: int, dur: int, l: int)
    ensures
        repaired_dts(d, dur, Some(l)) > l,
{
}

pub fn repair_tick(d: i64, dur: i64, last: Option<i64>) -> (r: Option<i64>)
    ensures
        ({
            let v = repaired_dts(d as int, dur as int, option_ts(last));
            r == if in_i64(v) {
                Some(v as i64)
            } else {
                None::<i64>
            }
        }),
{
    match last {
        Some(l) => {
            if d > l {
                Some(d)
            } else {
                let step: i64 = if dur >= 1 {
                    dur
                } else {
                    1
                };
                l.checked_add(step)
            }
        },
        None => Some(d),
    }
}

/// A 64-bit optional timestamp read as a mathematical one.
pub open spec fn option_ts(o: Option<i64>) -> Option<int> {
    match o {
        Some(v) => Some(v as int),
        None => None,
    }
}

// --- Final per-packet pass: repair and position invalidation ---

pub open spec fn finalize_ok(q: PacketEnvelope, last: Option<int>) -> bool {
    match q.dts {
        Some(d) => in_i64(repaired_dts(d as int, q.duration as int, last)),
        None => true,
    }
}

/// The packet as it is written: dts repaired to stay strictly increasing
/// (pts dragged along when the repair rewrites it) and the source byte
/// position invalidated.
pub open spec fn finalize_spec(q: PacketEnvelope, last: Option<int>) -> PacketEnvelope {
    match q.dts {
        Some(d) => {
            let nd = repaired_dts(d as int, q.duration as int, last);
            if nd == d as int {
                PacketEnvelope { position: None, ..q }
            } else {
                PacketEnvelope { pts: Some(nd as i64), dts: Some(nd as i64), position: None, ..q }
            }
        },
        None => PacketEnvelope { position: None, ..q },
    }
}

fn finalize(q: PacketEnvelope, last: Option<i64>) -> (r: Option<PacketEnvelope>)
    ensures
        r == if finalize_ok(q, option_ts(last)) {
            Some(finalize_spec(q, option_ts(last)))
        } else {
            None::<PacketEnvelope>
        },
{
    match q.dts {
        Some(d) => match repair_tick(d, q.duration, last) {
            Some(nd) => if nd == d {
                Some(PacketEnvelope { position: None, ..q })
            } else {
                Some(PacketEnvelope { pts: Some(nd), dts: Some(nd), position: None, ..q })
            },
            None => None,
        },
        None => Some(PacketEnvelope { position: None, ..q }),
    }
}

// --- The audio/video time gap ---

/// The two clocks that bridge the paths: the instant of the last audio packet
/// the passthrough path emitted, and of the last video packet the transform
/// path emitted, both in output time units.
#[derive(Clone, Copy, PartialEq, Eq, Structural, Debug)]
pub struct TimeGapState {
    pub audio_time: TimeVal,
    pub video_time: TimeVal,
}

impl TimeGapState {
    pub open spec fn wf(self) -> bool {
        self.audio_time.wf() && self.video_time.wf()
    }

    pub fn new() -> (r: TimeGapState)
        ensures
            r.audio_time == (TimeVal { num: 0, den: 1 }),
            r.video_time == (TimeVal { num: 0, den: 1 }),
            r.wf(),
    {
        TimeGapState { audio_time: TimeVal::zero(), video_time: TimeVal::zero() }
    }
}

/// The exact instant of `pts` ticks of `tb`.
pub open spec fn instant_of(pts: int, tb: TimeBase) -> TimeVal {
    TimeVal { num: (pts * tb.num) as i128, den: tb.den as i128 }
}

/// The timestamp under an option, once the option is known to be filled.
pub open spec fn ts_or_zero(o: Option<i64>) -> int {
    match o {
        Some(v) => v as int,
        None => 0,
    }
}

// --- The synchronizer ---

/// Per-session synchronizer state: the last emitted dts of each output
/// stream, the transform path's frame counter, and the time gap.
pub struct TimestampSync {
    pub last_dts: Vec<Option<i64>>,
    pub frame_index: u64,
    pub gap: TimeGapState,
}

/// Everything the passthrough path does to a packet's timestamps, composed:
/// synthesis, rescale into the output base, filling the missing timestamp,
/// monotonic repair, position invalidation.
pub open spec fn passthrough_ok(
    p: PacketEnvelope,
    k: int,
    desc: StreamDescriptor,
    out_tb: TimeBase,
    last: Option<int>,
) -> bool {
    let s = synthesize_spec(p, k, desc.nominal_rate, desc.time_base);
    synthesize_ok(p, k, desc.nominal_rate, desc.time_base)
        && rescale_packet_ok(s, desc.time_base, out_tb)
        && finalize_ok(normalize_spec(rescale_packet_spec(s, desc.time_base, out_tb)), last)
}

pub open spec fn passthrough_spec(
    p: PacketEnvelope,
    k: int,
    desc: StreamDescriptor,
    out_tb: TimeBase,
    last: Option<int>,
) -> PacketEnvelope {
    let s = synthesize_spec(p, k, desc.nominal_rate, desc.time_base);
    finalize_spec(normalize_spec(rescale_packet_spec(s, desc.time_base, out_tb)), last)
}

/// Everything the transform path does to an encoded packet before it is
/// written: rescale from the encoder base into the output base, anchor pts
/// and dts to the audio clock (when one exists), reassign the output stream
/// index, monotonic repair, position invalidation.
pub open spec fn video_emit_ok(
    p: PacketEnvelope,
    enc_tb: TimeBase,
    out_tb: TimeBase,
    out_index: usize,
    anchor: Option<TimeVal>,
    last: Option<int>,
) -> bool {
    rescale_packet_ok(p, enc_tb, out_tb)
        && (match anchor {
            Some(at) => in_i64(time_ticks_spec(at, out_tb)),
            None => true,
        })
        && finalize_ok(video_anchored_spec(p, enc_tb, out_tb, out_index, anchor), last)
}

/// The packet after rescale, anchoring and stream reassignment, before the
/// final repair pass.
pub open spec fn video_anchored_spec(
    p: PacketEnvelope,
    enc_tb: TimeBase,
    out_tb: TimeBase,
    out_index: usize,
    anchor: Option<TimeVal>,
) -> PacketEnvelope {
    let rq = rescale_packet_spec(p, enc_tb, out_tb);
    match anchor {
        Some(at) => {
            let t = time_ticks_spec(at, out_tb) as i64;
            PacketEnvelope { pts: Some(t), dts: Some(t), stream_index: out_index, ..rq }
        },
        None => normalize_spec(PacketEnvelope { stream_index: out_index, ..rq }),
    }
}

pub open spec fn video_emit_spec(
    p: PacketEnvelope,
    enc_tb: TimeBase,
    out_tb: TimeBase,
    out_index: usize,
    anchor: Option<TimeVal>,
    last: Option<int>,
) -> PacketEnvelope {
    finalize_spec(video_anchored_spec(p, enc_tb, out_tb, out_index, anchor), last)
}

impl TimestampSync {
    pub open spec fn wf(self) -> bool {
        self.gap.wf()
    }

    /// A fresh synchronizer for a session with `n_streams` output streams:
    /// no dts emitted yet, frame counter at zero, both clocks at zero.
    pub fn new(n_streams: usize) -> (r: TimestampSync)
        ensures
            r.wf(),
            r.frame_index == 0,
            r.gap == (TimeGapState { audio_time: TimeVal { num: 0, den: 1 }, video_time: TimeVal { num: 0, den: 1 } }),
            r.last_dts@.len() == n_streams,
            forall|i: int| 0 <= i < n_streams ==> r.last_dts@[i] is None,
    {
        let mut last_dts: Vec<Option<i64>> = Vec::new();
        let mut i: usize = 0;
        while i < n_streams
            invariant
                i <= n_streams,
                last_dts@.len() == i,
                forall|j: int| 0 <= j < i ==> last_dts@[j] is None,
            decreases n_streams - i,
        {
            last_dts.push(None);
            i = i + 1;
        }
        TimestampSync { last_dts, frame_index: 0, gap: TimeGapState::new() }
    }

    /// Counts a packet routed to the transform path. The counter feeds
    /// synthetic timestamps; the caller keeps it within synthesizable range.
    pub fn note_transform_packet(&mut self)
        requires
            old(self).frame_index < u64::MAX,
        ensures
            *final(self) == (TimestampSync { frame_index: (old(self).frame_index + 1) as u64, ..*old(self) }),
    {
        self.frame_index = self.frame_index + 1;
    }

    /// Runs a passthrough packet through the synchronizer: the returned
    /// envelope is what the output must write. `None` only when a repaired
    /// timestamp cannot be represented in 64 bits; the packet is then skipped
    /// and the synchronizer is unchanged.
    pub fn process_passthrough(
        &mut self,
        p: PacketEnvelope,
        desc: StreamDescriptor,
        out_tb: TimeBase,
    ) -> (r: Option<PacketEnvelope>)
        requires
            old(self).wf(),
            desc.valid(),
            out_tb.valid(),
            p.stream_index < old(self).last_dts@.len(),
            old(self).frame_index <= i64::MAX as u64,
        ensures
            final(self).wf(),
            final(self).last_dts@.len() == old(self).last_dts@.len(),
            ({
                let k = old(self).frame_index as int;
                let last = option_ts(old(self).last_dts@[p.stream_index as int]);
                if passthrough_ok(p, k, desc, out_tb, last) {
                    let out = passthrough_spec(p, k, desc, out_tb, last);
                    r == Some(out) && out.pts is Some && out.dts is Some && out.position is None
                        && final(self).last_dts@ == old(self).last_dts@.update(
                        p.stream_index as int,
                        out.dts,
                    ) && final(self).frame_index == old(self).frame_index && final(self).gap.video_time == old(
                        self,
                    ).gap.video_time && final(self).gap.audio_time == (if desc.medium is Audio {
                        instant_of(ts_or_zero(out.pts), out_tb)
                    } else {
                        old(self).gap.audio_time
                    })
                } else {
                    r is None && *final(self) == *old(self)
                }
            }),
    {
        let idx = p.stream_index;
        let last = self.last_dts[idx];
        match synthesize(p, self.frame_index, desc.nominal_rate, desc.time_base) {
            None => None,
            Some(s) => match rescale_packet(s, desc.time_base, out_tb) {
                None => None,
                Some(rp) => {
                    let q = normalize(rp);
                    match finalize(q, last) {
                        None => None,
                        Some(out) => {
                            self.last_dts.set(idx, out.dts);
                            match desc.medium {
                                Medium::Audio => {
                                    let pv = out.pts.unwrap();
                                    self.gap.audio_time = crate::time::ticks_to_time(pv, out_tb);
                                },
                                _ => {},
                            }
                            Some(out)
                        },
                    }
                },
            },
        }
    }

    /// Runs an encoded video packet through the synchronizer just before it
    /// is written: when `use_anchor` holds (an audio stream exists), its pts
    /// and dts are taken from the audio clock rather than from the encoder,
    /// so the video position tracks the last heard audio position instead of
    /// drifting ahead by the transform latency. Afterward the video clock
    /// records the instant actually written.
    pub fn process_video_emit(
        &mut self,
        p: PacketEnvelope,
        enc_tb: TimeBase,
        out_tb: TimeBase,
        out_index: usize,
        use_anchor: bool,
    ) -> (r: Option<PacketEnvelope>)
        requires
            old(self).wf(),
            enc_tb.valid(),
            out_tb.valid(),
            out_index < old(self).last_dts@.len(),
        ensures
            final(self).wf(),
            final(self).last_dts@.len() == old(self).last_dts@.len(),
            ({
                let anchor = if use_anchor {
                    Some(old(self).gap.audio_time)
                } else {
                    None::<TimeVal>
                };
                let last = option_ts(old(self).last_dts@[out_index as int]);
                if video_emit_ok(p, enc_tb, out_tb, out_index, anchor, last) {
                    let out = video_emit_spec(p, enc_tb, out_tb, out_index, anchor, last);
                    r == Some(out) && out.stream_index == out_index && out.position is None && (
                    use_anchor ==> out.pts is Some && out.dts is Some) && final(self).last_dts@ == old(
                        self,
                    ).last_dts@.update(out_index as int, out.dts) && final(self).frame_index == old(
                        self,
                    ).frame_index && final(self).gap.audio_time == old(self).gap.audio_time
                        && final(self).gap.video_time == (if out.pts is Some {
                        instant_of(ts_or_zero(out.pts), out_tb)
                    } else {
                        old(self).gap.video_time
                    })
                } else {
                    r is None && *final(self) == *old(self)
                }
            }),
    {
        let last = self.last_dts[out_index];
        match rescale_packet(p, enc_tb, out_tb) {
            None => None,
            Some(rq) => {
                let anchored_opt: Option<PacketEnvelope> = if use_anchor {
                    match time_to_ticks(self.gap.audio_time, out_tb) {
                        Some(t) => Some(
                            PacketEnvelope {
                                pts: Some(t),
                                dts: Some(t),
                                stream_index: out_index,
                                ..rq
                            },
                        ),
                        None => None,
                    }
                } else {
                    Some(normalize(PacketEnvelope { stream_index: out_index, ..rq }))
                };
                match anchored_opt {
                    None => None,
                    Some(aq) => match finalize(aq, last) {
                        None => None,
                        Some(out) => {
                            self.last_dts.set(out_index, out.dts);
                            match out.pts {
                                Some(pv) => {
                                    self.gap.video_time = crate::time::ticks_to_time(pv, out_tb);
                                },
                                None => {},
                            }
                            Some(out)
                        },
                    },
                }
            },
        }
    }
}

// --- Laws ---

/// The decoding timestamps the synchronizer emits on one output stream, for a
/// run of packets given as (dts, duration) pairs, starting from the last dts
/// already emitted (if any). Each emitted dts becomes the next packet's
/// reference, exactly as `repair_tick` threads `last_dts`.
pub open spec fn emitted_dts_run(ds: Seq<(int, int)>, last: Option<int>) -> Seq<int>
    decreases ds.len(),
{
    if ds.len() == 0 {
        Seq::empty()
    } else {
        let e = repaired_dts(ds[0].0, ds[0].1, last);
        seq![e] + emitted_dts_run(ds.skip(1), Some(e))
    }
}

pub proof fn lemma_emitted_dts_run_len(ds: Seq<(int, int)>, last: Option<int>)
    ensures
        emitted_dts_run(ds, last).len() == ds.len(),
    decreases ds.len(),
{
    if ds.len() > 0 {
        lemma_emitted_dts_run_len(ds.skip(1), Some(repaired_dts(ds[0].0, ds[0].1, last)));
    }
}

proof fn lemma_emitted_dts_run_gt_last(ds: Seq<(int, int)>, l: int)
    ensures
        forall|k: int|
            0 <= k < emitted_dts_run(ds, Some(l)).len() ==> emitted_dts_run(ds, Some(l))[k] > l,
    decreases ds.len(),
{
    if ds.len() > 0 {
        let e = repaired_dts(ds[0].0, ds[0].1, Some(l));
        lemma_repair_strictly_increases(ds[0].0, ds[0].1, l);
        lemma_emitted_dts_run_gt_last(ds.skip(1), e);
        assert forall|k: int|
            0 <= k < emitted_dts_run(ds, Some(l)).len() implies emitted_dts_run(ds, Some(l))[k]
            > l by {
            if k > 0 {
                assert(emitted_dts_run(ds, Some(l))[k] == emitted_dts_run(ds.skip(1), Some(e))[k - 1]);
            }
        }
    }
}

/// The packet the synchronizer finally emits carries exactly the repaired
/// decoding timestamp, so a run of emissions on one stream is a run of
/// `repaired_dts` steps — the shape `emitted_dts_run` folds.
pub proof fn lemma_finalize_emits_repaired(q: PacketEnvelope, last: Option<int>)
    requires
        q.dts is Some,
        finalize_ok(q, last),
    ensures
        finalize_spec(q, last).dts == Some(
            repaired_dts(ts_or_zero(q.dts), q.duration as int, last) as i64,
        ),
{
}

/// Monotonic dts: for any run of packets through the synchronizer for a
/// single output stream, the emitted decoding timestamps are strictly
/// increasing.
pub proof fn lemma_monotonic_dts(ds: Seq<(int, int)>, last: Option<int>, i: int, j: int)
    requires
        0 <= i < j < emitted_dts_run(ds, last).len(),
    ensures
        emitted_dts_run(ds, last)[i] < emitted_dts_run(ds, last)[j],
    decreases ds.len(),
{
    lemma_emitted_dts_run_len(ds, last);
    let e = repaired_dts(ds[0].0, ds[0].1, last);
    if i == 0 {
        lemma_emitted_dts_run_gt_last(ds.skip(1), e);
        assert(emitted_dts_run(ds, last)[j] == emitted_dts_run(ds.skip(1), Some(e))[j - 1]);
    } else {
        lemma_monotonic_dts(ds.skip(1), Some(e), i - 1, j - 1);
        assert(emitted_dts_run(ds, last)[i] == emitted_dts_run(ds.skip(1), Some(e))[i - 1]);
        assert(emitted_dts_run(ds, last)[j] == emitted_dts_run(ds.skip(1), Some(e))[j - 1]);
    }
}

/// Synthetic timestamp fallback: the pts synthesized for frame `k` at nominal
/// rate `rate` equals `k / rate` seconds within rounding tolerance — half a
/// tick of the stream's time base, stated here exactly by cross-multiplying
/// the two rationals `pts * tb` and `k / rate`.
pub proof fn lemma_synthetic_pts_accuracy(k: int, rate: Rate, tb: TimeBase)
    requires
        rate.valid(),
        tb.valid(),
    ensures
        ({
            let pts = synth_pts_spec(k, rate, tb);
            2 * (pts * (rate.num * tb.num) - k * (rate.den * tb.den)) <= rate.num * tb.num
                && 2 * (k * (rate.den * tb.den) - pts * (rate.num * tb.num)) <= rate.num * tb.num
        }),
{
    crate::time::lemma_rescale_nearest_error(k, TimeBase { num: rate.den, den: rate.num }, tb);
}

} // verus!
