//! The Pipeline Session: the state machine that drives one read/route/drain
//! run.
//!
//! A session is constructed Running (construction is the Initializing phase;
//! a failure there yields no session at all), loops reading, checking the
//! stop signal and routing packets, moves to Draining when stopped, when the
//! input ends or when a write fails, and reaches Terminated after the drain
//! writes the container trailer. The cancellation check sits at the top of
//! the loop: it is cooperative, so once a stop is observed no further packet
//! is routed, and the session terminates after at most the packet in flight
//! plus the drain.
//!
//! Reading from the source, decoding, filtering, encoding and writing to the
//! sink are the host's work; the session owns every decision in between.

use crate::control::ThreadMsg;
use crate::envelope::{Medium, PacketEnvelope, StreamDescriptor};
use crate::setup::{
    find_stream_slots, last_index_of, lemma_last_index_of_exists, plan_output_spec, plan_outputs,
    OutputPlan,
};
use crate::sync::{
    instant_of, option_ts, passthrough_ok, passthrough_spec, rescale_packet, rescale_packet_ok,
    rescale_packet_spec, synthesize, synthesize_ok, synthesize_spec, ts_or_zero, video_emit_ok,
    video_emit_spec, TimeGapState, TimestampSync,
};
use crate::time::{TimeBase, TimeVal};
use vstd::prelude::*;

verus! {

/// What a control request asked of the session: forward everything, or run
/// the video track through the overlay transform.
#[derive(Clone, Copy, PartialEq, Eq, Structural, Debug)]
pub enum SessionMode {
    Remux,
    Transform,
}

/// The session's lifecycle. `Idle` is the absence of a session and
/// Initializing is the constructor itself, so neither needs a variant.
#[derive(Clone, Copy, PartialEq, Eq, Structural, Debug)]
pub enum SessionState {
    Running,
    Draining,
    Terminated,
}

/// The events the running loop reacts to.
#[derive(Clone, Copy, PartialEq, Eq, Structural, Debug)]
pub enum SessionEvent {
    /// The cancellation check found a stop request.
    StopObserved,
    /// A packet was read and routed (successfully or not; packet-level
    /// errors never change the state).
    PacketHandled,
    /// The input is exhausted or a read failed.
    InputEnded,
    /// A write to the output failed: fatal, but the trailer is still owed.
    WriteFailed,
    /// The encoder flush finished and the trailer was written.
    DrainCompleted,
}

/// The transition relation of the lifecycle.
pub open spec fn step_spec(s: SessionState, e: SessionEvent) -> SessionState {
    match s {
        SessionState::Running => match e {
            SessionEvent::StopObserved => SessionState::Draining,
            SessionEvent::PacketHandled => SessionState::Running,
            SessionEvent::InputEnded => SessionState::Draining,
            SessionEvent::WriteFailed => SessionState::Draining,
            SessionEvent::DrainCompleted => SessionState::Running,
        },
        SessionState::Draining => match e {
            SessionEvent::DrainCompleted => SessionState::Terminated,
            _ => SessionState::Draining,
        },
        SessionState::Terminated => SessionState::Terminated,
    }
}

/// The state after a whole run of events.
pub open spec fn run_spec(s: SessionState, evs: Seq<SessionEvent>) -> SessionState
    decreases evs.len(),
{
    if evs.len() == 0 {
        s
    } else {
        run_spec(step_spec(s, evs[0]), evs.skip(1))
    }
}

/// Packets are routed only while the session is Running.
pub open spec fn can_route(s: SessionState) -> bool {
    s is Running
}

proof fn lemma_run_take_succ(s0: SessionState, evs: Seq<SessionEvent>, j: int)
    requires
        0 <= j < evs.len(),
    ensures
        run_spec(s0, evs.take(j + 1)) == step_spec(run_spec(s0, evs.take(j)), evs[j]),
    decreases j,
{
    if j == 0 {
        assert(evs.take(0) =~= Seq::<SessionEvent>::empty());
        assert(evs.take(1).skip(1) =~= Seq::<SessionEvent>::empty());
        assert(evs.take(1).len() == 1);
        assert(evs.take(1)[0] == evs[0]);
        assert(run_spec(s0, evs.take(0)) == s0);
        assert(run_spec(s0, evs.take(1)) == run_spec(
            step_spec(s0, evs[0]),
            Seq::<SessionEvent>::empty(),
        ));
        assert(run_spec(step_spec(s0, evs[0]), Seq::<SessionEvent>::empty()) == step_spec(
            s0,
            evs[0],
        ));
    } else {
        let s1 = step_spec(s0, evs[0]);
        lemma_run_take_succ(s1, evs.skip(1), j - 1);
        assert(evs.take(j + 1).skip(1) =~= evs.skip(1).take(j));
        assert(evs.take(j).skip(1) =~= evs.skip(1).take(j - 1));
        assert(evs.take(j + 1)[0] == evs[0]);
        assert(evs.take(j)[0] == evs[0]);
        assert(evs.skip(1)[j - 1] == evs[j]);
        assert(run_spec(s0, evs.take(j + 1)) == run_spec(s1, evs.skip(1).take(j)));
        assert(run_spec(s0, evs.take(j)) == run_spec(s1, evs.skip(1).take(j - 1)));
    }
}

/// Cooperative cancellation, first half: once a stop request is observed at
/// position `i` of the run, the session is never Running afterward, so no
/// packet read after the stop is observed is routed.
pub proof fn lemma_no_route_after_stop(
    s0: SessionState,
    evs: Seq<SessionEvent>,
    i: int,
    j: int,
)
    requires
        0 <= i < j <= evs.len(),
        evs[i] is StopObserved,
    ensures
        !can_route(run_spec(s0, evs.take(j))),
    decreases j,
{
    if j == i + 1 {
        lemma_run_take_succ(s0, evs, i);
    } else {
        lemma_no_route_after_stop(s0, evs, i, j - 1);
        lemma_run_take_succ(s0, evs, j - 1);
    }
}

/// Cooperative cancellation, second half: after a stop is observed, the next
/// completed drain leaves the session Terminated — the stop is honored within
/// the packet in flight plus the drain, never later.
pub proof fn lemma_stop_then_drain_terminates(
    s0: SessionState,
    evs: Seq<SessionEvent>,
    i: int,
    j: int,
)
    requires
        0 <= i < j < evs.len(),
        evs[i] is StopObserved,
        evs[j] is DrainCompleted,
    ensures
        run_spec(s0, evs.take(j + 1)) is Terminated,
{
    lemma_no_route_after_stop(s0, evs, i, j);
    lemma_run_take_succ(s0, evs, j);
}

// --- Error taxonomy ---

/// Where in the pipeline a collaborator call failed.
#[derive(Clone, Copy, PartialEq, Eq, Structural, Debug)]
pub enum StageError {
    OpenInput,
    OpenOutput,
    WriteHeader,
    /// A write of a routed packet to the output.
    WritePacket,
    WriteTrailer,
    /// The decoder refused the packet.
    DecodeSubmit,
    /// The decoder buffered the packet and yielded no frame this turn.
    DecodeNoFrame,
    /// The overlay stage yielded no frame this turn.
    FilterNoFrame,
    /// The encoder refused the frame.
    EncodeSubmit,
    /// The encoder has no packet pending.
    EncodeNoPacket,
}

/// Fatal errors abort the session (toward Draining, so the trailer is still
/// written); everything else only skips the packet in flight, because a live
/// source cannot be paused to fix one bad packet.
pub open spec fn fatal_spec(e: StageError) -> bool {
    match e {
        StageError::OpenInput => true,
        StageError::OpenOutput => true,
        StageError::WriteHeader => true,
        StageError::WritePacket => true,
        StageError::WriteTrailer => true,
        StageError::DecodeSubmit => false,
        StageError::DecodeNoFrame => false,
        StageError::FilterNoFrame => false,
        StageError::EncodeSubmit => false,
        StageError::EncodeNoPacket => false,
    }
}

/// Classifies a stage failure: `true` means the session must drain and
/// terminate, `false` means skip the packet and keep running.
pub fn is_fatal(e: StageError) -> (r: bool)
    ensures
        r == fatal_spec(e),
{
    match e {
        StageError::OpenInput => true,
        StageError::OpenOutput => true,
        StageError::WriteHeader => true,
        StageError::WritePacket => true,
        StageError::WriteTrailer => true,
        StageError::DecodeSubmit => false,
        StageError::DecodeNoFrame => false,
        StageError::FilterNoFrame => false,
        StageError::EncodeSubmit => false,
        StageError::EncodeNoPacket => false,
    }
}

// --- Routing ---

/// Where a packet goes, by stream index: unknown indices are dropped (with a
/// note, never fatally), the designated video stream feeds the transform path
/// when the session transforms, everything else passes through.
#[derive(Clone, Copy, PartialEq, Eq, Structural, Debug)]
pub enum RouteDecision {
    ToTransform,
    ToPassthrough,
    Discard,
}

pub open spec fn route_of(mode: SessionMode, video_index: int, n_streams: int, idx: int)
    -> RouteDecision {
    if idx >= n_streams {
        RouteDecision::Discard
    } else if mode is Transform && idx == video_index {
        RouteDecision::ToTransform
    } else {
        RouteDecision::ToPassthrough
    }
}

/// What handling one packet produced.
#[derive(Clone, Copy, PartialEq, Eq, Structural, Debug)]
pub enum RouteOutcome {
    /// A passthrough packet, timestamps repaired, ready for the sink.
    Write(PacketEnvelope),
    /// A packet for the decoder, rescaled into the transform path's base.
    Transform(PacketEnvelope),
    /// Unknown stream index; dropped, never fatal.
    Discarded,
    /// A timestamp fell outside the 64-bit range: a packet-level error, the
    /// loop continues.
    Skipped,
}

/// What the transform path does to a packet on entry: synthesis of missing
/// timestamps, then rescale from the stream's base into the decoder's.
pub open spec fn transform_entry_ok(
    p: PacketEnvelope,
    k: int,
    desc: StreamDescriptor,
    work_tb: TimeBase,
) -> bool {
    synthesize_ok(p, k, desc.nominal_rate, desc.time_base) && rescale_packet_ok(
        synthesize_spec(p, k, desc.nominal_rate, desc.time_base),
        desc.time_base,
        work_tb,
    )
}

pub open spec fn transform_entry_spec(
    p: PacketEnvelope,
    k: int,
    desc: StreamDescriptor,
    work_tb: TimeBase,
) -> PacketEnvelope {
    rescale_packet_spec(
        synthesize_spec(p, k, desc.nominal_rate, desc.time_base),
        desc.time_base,
        work_tb,
    )
}

// --- The session ---

/// Why constructing a session failed. Either way no session exists and
/// nothing was opened for it.
#[derive(Clone, Copy, PartialEq, Eq, Structural, Debug)]
pub enum InitError {
    /// A descriptor is malformed: a non-positive time base or rate, or an
    /// index that does not match its position.
    BadDescriptor,
    /// The input offers no video stream to drive the session.
    NoVideoStream,
}

/// The stream table is well-formed: every descriptor valid and numbered by
/// its position.
pub open spec fn table_valid(streams: Seq<StreamDescriptor>) -> bool {
    forall|i: int| 0 <= i < streams.len() ==> (#[trigger] streams[i]).valid() && streams[i].index
        == i
}

pub struct PipelineSession {
    /// The input's stream table, fixed at initialization.
    pub streams: Vec<StreamDescriptor>,
    /// One output stream per input stream, in order.
    pub plans: Vec<OutputPlan>,
    /// The designated video stream (the last video stream of the table).
    pub video_index: usize,
    /// Whether any audio stream exists; without one, video emission falls
    /// back to rescale-only (no anchoring).
    pub has_audio: bool,
    pub mode: SessionMode,
    pub state: SessionState,
    pub sync: TimestampSync,
    /// Set exactly when the drain completes; the trailer is written once.
    pub trailer_written: bool,
}

impl PipelineSession {
    pub open spec fn wf(self) -> bool {
        &&& table_valid(self.streams@)
        &&& self.plans@ == self.streams@.map_values(|d: StreamDescriptor| plan_output_spec(d))
        &&& self.sync.wf()
        &&& self.sync.last_dts@.len() == self.streams@.len()
        &&& self.video_index < self.streams@.len()
        &&& self.streams@[self.video_index as int].medium is Video
        &&& (self.has_audio <==> last_index_of(self.streams@, Medium::Audio) is Some)
        &&& (self.trailer_written <==> self.state is Terminated)
    }

    /// Builds a session over a stream table: checks the table, picks the
    /// video slot, plans the output streams and starts Running. Fails — and
    /// no session exists — when the table is malformed or offers no video
    /// stream.
    pub fn new(streams: Vec<StreamDescriptor>, mode: SessionMode) -> (r: Result<
        PipelineSession,
        InitError,
    >)
        ensures
            ({
                let tv = table_valid(streams@);
                let vid = last_index_of(streams@, Medium::Video);
                match r {
                    Ok(s) => {
                        &&& tv
                        &&& vid is Some
                        &&& s.wf()
                        &&& s.streams == streams
                        &&& s.mode == mode
                        &&& s.state is Running
                        &&& !s.trailer_written
                        &&& Some(s.video_index as int) == vid
                        &&& (s.has_audio <==> last_index_of(streams@, Medium::Audio) is Some)
                        &&& s.sync.frame_index == 0
                        &&& s.sync.gap == (TimeGapState {
                            audio_time: TimeVal { num: 0, den: 1 },
                            video_time: TimeVal { num: 0, den: 1 },
                        })
                        &&& forall|i: int|
                            0 <= i < streams@.len() ==> s.sync.last_dts@[i] is None
                    },
                    Err(e) => match e {
                        InitError::BadDescriptor => !tv,
                        InitError::NoVideoStream => tv && vid is None,
                    },
                }
            }),
    {
        let n = streams.len();
        let mut i: usize = 0;
        while i < n
            invariant
                i <= n,
                n == streams@.len(),
                forall|j: int| 0 <= j < i ==> (#[trigger] streams@[j]).valid() && streams@[j].index
                    == j,
            decreases n - i,
        {
            let d = streams[i];
            if !(d.time_base.num >= 1 && d.time_base.den >= 1 && d.nominal_rate.num >= 1
                && d.nominal_rate.den >= 1 && d.index == i) {
                return Err(InitError::BadDescriptor);
            }
            i = i + 1;
        }
        let (video, audio) = find_stream_slots(&streams);
        proof {
            lemma_last_index_of_exists(streams@, Medium::Video);
            lemma_last_index_of_exists(streams@, Medium::Audio);
        }
        match video {
            None => Err(InitError::NoVideoStream),
            Some(video_index) => {
                let plans = plan_outputs(&streams);
                let sync = TimestampSync::new(n);
                Ok(
                    PipelineSession {
                        streams,
                        plans,
                        video_index,
                        has_audio: audio.is_some(),
                        mode,
                        state: SessionState::Running,
                        sync,
                        trailer_written: false,
                    },
                )
            },
        }
    }

    /// Applies one loop event to the lifecycle; everything else is untouched.
    /// Completing the drain goes through `finish_drain`, which also owes the
    /// trailer.
    pub fn apply_event(&mut self, e: SessionEvent)
        requires
            old(self).wf(),
            !(e is DrainCompleted),
        ensures
            final(self).wf(),
            *final(self) == (PipelineSession { state: step_spec(old(self).state, e), ..*old(self) }),
    {
        let next = match self.state {
            SessionState::Running => match e {
                SessionEvent::StopObserved => SessionState::Draining,
                SessionEvent::PacketHandled => SessionState::Running,
                SessionEvent::InputEnded => SessionState::Draining,
                SessionEvent::WriteFailed => SessionState::Draining,
                SessionEvent::DrainCompleted => SessionState::Running,
            },
            SessionState::Draining => SessionState::Draining,
            SessionState::Terminated => SessionState::Terminated,
        };
        self.state = next;
    }

    /// What the cancellation check observed on the channel asks of the
    /// session: a `quit` message — and exactly a `quit` message — is a stop,
    /// which moves a running session to Draining; anything else (another
    /// message, or none) changes nothing.
    pub fn observe_stop(&mut self, m: Option<ThreadMsg>) -> (stopped: bool)
        requires
            old(self).wf(),
            old(self).state is Running,
        ensures
            final(self).wf(),
            stopped == (m matches Some(t) && t.quit),
            stopped ==> *final(self) == (PipelineSession {
                state: step_spec(old(self).state, SessionEvent::StopObserved),
                ..*old(self)
            }),
            !stopped ==> *final(self) == *old(self),
    {
        match m {
            Some(t) => {
                if t.quit {
                    self.apply_event(SessionEvent::StopObserved);
                    true
                } else {
                    false
                }
            },
            None => false,
        }
    }

    /// The cooperative cancellation check at the top of the running loop: a
    /// non-blocking look at the stop channel, judged by `observe_stop`. What
    /// arrives depends on other threads; whatever it is, the session either
    /// stays Running (no stop seen) or moves to Draining and reports that it
    /// observed the stop.
    pub fn poll_cancellation(&mut self, rx: &crossbeam_channel::Receiver<ThreadMsg>) -> (stopped:
        bool)
        requires
            old(self).wf(),
            old(self).state is Running,
        ensures
            final(self).wf(),
            stopped ==> *final(self) == (PipelineSession {
                state: step_spec(old(self).state, SessionEvent::StopObserved),
                ..*old(self)
            }),
            !stopped ==> *final(self) == *old(self),
    {
        let m = crate::control::try_recv_msg(rx);
        self.observe_stop(m)
    }

    /// Routes one packet read from the input. Timestamp work is done here;
    /// a `Write` outcome is ready for the sink, a `Transform` outcome is
    /// ready for the decoder. Packet-level failures only skip the packet.
    pub fn handle_packet(&mut self, p: PacketEnvelope) -> (r: RouteOutcome)
        requires
            old(self).wf(),
            old(self).state is Running,
        ensures
            final(self).wf(),
            final(self).streams == old(self).streams,
            final(self).plans == old(self).plans,
            final(self).video_index == old(self).video_index,
            final(self).has_audio == old(self).has_audio,
            final(self).mode == old(self).mode,
            final(self).state == old(self).state,
            final(self).trailer_written == old(self).trailer_written,
            ({
                let n = old(self).streams@.len() as int;
                let idx = p.stream_index as int;
                let k = old(self).sync.frame_index;
                match route_of(old(self).mode, old(self).video_index as int, n, idx) {
                    RouteDecision::Discard => r is Discarded && *final(self) == *old(self),
                    RouteDecision::ToTransform => {
                        let desc = old(self).streams@[idx];
                        let work_tb = old(self).plans@[old(self).video_index as int].time_base;
                        if k < i64::MAX as u64 && transform_entry_ok(p, k as int, desc, work_tb) {
                            &&& r == RouteOutcome::Transform(
                                transform_entry_spec(p, k as int, desc, work_tb),
                            )
                            &&& final(self).sync == (TimestampSync {
                                frame_index: (k + 1) as u64,
                                ..old(self).sync
                            })
                        } else {
                            r is Skipped && *final(self) == *old(self)
                        }
                    },
                    RouteDecision::ToPassthrough => {
                        let desc = old(self).streams@[idx];
                        let out_tb = old(self).plans@[idx].time_base;
                        let last = option_ts(old(self).sync.last_dts@[idx]);
                        if k <= i64::MAX as u64 && passthrough_ok(p, k as int, desc, out_tb, last) {
                            let out = passthrough_spec(p, k as int, desc, out_tb, last);
                            &&& r == RouteOutcome::Write(out)
                            &&& out.pts is Some
                            &&& out.dts is Some
                            &&& out.position is None
                            &&& final(self).sync.last_dts@ == old(self).sync.last_dts@.update(
                                idx,
                                out.dts,
                            )
                            &&& final(self).sync.frame_index == k
                            &&& final(self).sync.gap.video_time == old(self).sync.gap.video_time
                            &&& final(self).sync.gap.audio_time == (if desc.medium is Audio {
                                instant_of(ts_or_zero(out.pts), out_tb)
                            } else {
                                old(self).sync.gap.audio_time
                            })
                        } else {
                            r is Skipped && *final(self) == *old(self)
                        }
                    },
                }
            }),
    {
        let idx = p.stream_index;
        let n = self.streams.len();
        if idx >= n {
            return RouteOutcome::Discarded;
        }
        let to_transform = match self.mode {
            SessionMode::Transform => idx == self.video_index,
            SessionMode::Remux => false,
        };
        if to_transform {
            if self.sync.frame_index < 0x7FFF_FFFF_FFFF_FFFFu64 {
                let desc = self.streams[idx];
                let work_tb = self.plans[self.video_index].time_base;
                match synthesize(p, self.sync.frame_index, desc.nominal_rate, desc.time_base) {
                    Some(s) => match rescale_packet(s, desc.time_base, work_tb) {
                        Some(out) => {
                            self.sync.note_transform_packet();
                            RouteOutcome::Transform(out)
                        },
                        None => RouteOutcome::Skipped,
                    },
                    None => RouteOutcome::Skipped,
                }
            } else {
                RouteOutcome::Skipped
            }
        } else {
            if self.sync.frame_index <= 0x7FFF_FFFF_FFFF_FFFFu64 {
                let desc = self.streams[idx];
                let out_tb = self.plans[idx].time_base;
                match self.sync.process_passthrough(p, desc, out_tb) {
                    Some(out) => RouteOutcome::Write(out),
                    None => RouteOutcome::Skipped,
                }
            } else {
                RouteOutcome::Skipped
            }
        }
    }

    /// Prepares an encoded video packet for the sink: rescale, anchor to the
    /// audio clock when an audio stream exists, repair, invalidate the
    /// position, and record the video clock. Runs both while Running and
    /// while Draining (the encoder flush).
    pub fn emit_transformed(&mut self, p: PacketEnvelope) -> (r: Option<PacketEnvelope>)
        requires
            old(self).wf(),
            old(self).mode is Transform,
            old(self).state is Running || old(self).state is Draining,
        ensures
            final(self).wf(),
            final(self).streams == old(self).streams,
            final(self).plans == old(self).plans,
            final(self).video_index == old(self).video_index,
            final(self).has_audio == old(self).has_audio,
            final(self).mode == old(self).mode,
            final(self).state == old(self).state,
            final(self).trailer_written == old(self).trailer_written,
            ({
                let vi = old(self).video_index;
                let out_tb = old(self).plans@[vi as int].time_base;
                let anchor = if old(self).has_audio {
                    Some(old(self).sync.gap.audio_time)
                } else {
                    None::<TimeVal>
                };
                let last = option_ts(old(self).sync.last_dts@[vi as int]);
                if video_emit_ok(p, out_tb, out_tb, vi, anchor, last) {
                    let out = video_emit_spec(p, out_tb, out_tb, vi, anchor, last);
                    &&& r == Some(out)
                    &&& out.stream_index == vi
                    &&& out.position is None
                    &&& (old(self).has_audio ==> out.pts is Some && out.dts is Some)
                    &&& final(self).sync.last_dts@ == old(self).sync.last_dts@.update(
                        vi as int,
                        out.dts,
                    )
                    &&& final(self).sync.frame_index == old(self).sync.frame_index
                    &&& final(self).sync.gap.audio_time == old(self).sync.gap.audio_time
                    &&& final(self).sync.gap.video_time == (if out.pts is Some {
                        instant_of(ts_or_zero(out.pts), out_tb)
                    } else {
                        old(self).sync.gap.video_time
                    })
                } else {
                    r is None && *final(self) == *old(self)
                }
            }),
    {
        let vi = self.video_index;
        let out_tb = self.plans[vi].time_base;
        let ha = self.has_audio;
        self.sync.process_video_emit(p, out_tb, out_tb, vi, ha)
    }

    /// Completes the drain: the session is Terminated and the container
    /// trailer is owed now — exactly once, since nothing leaves Terminated.
    pub fn finish_drain(&mut self) -> (write_trailer: bool)
        requires
            old(self).wf(),
            old(self).state is Draining,
        ensures
            final(self).wf(),
            write_trailer,
            final(self).state == step_spec(old(self).state, SessionEvent::DrainCompleted),
            *final(self) == (PipelineSession {
                state: SessionState::Terminated,
                trailer_written: true,
                ..*old(self)
            }),
    {
        self.state = SessionState::Terminated;
        self.trailer_written = true;
        true
    }
}

} // verus!
