//! Session-initialization decisions.
//!
//! When a session initializes, the input's stream table is walked once to
//! pick the video and audio stream slots, and a matching output stream is
//! planned for every input stream: the video stream is re-encoded under a
//! time base locked to its frame rate, audio streams copy their codec
//! parameters and keep their time base, anything else is carried blank.

use crate::envelope::{Medium, StreamDescriptor};
use crate::time::{Rate, TimeBase};
use vstd::prelude::*;

verus! {

/// The slot a walk of the stream table leaves behind for medium `m`: the
/// index of the last stream of that medium, as each later match overwrites
/// the earlier one.
pub open spec fn last_index_of(streams: Seq<StreamDescriptor>, m: Medium) -> Option<int>
    decreases streams.len(),
{
    if streams.len() == 0 {
        None
    } else if streams.last().medium == m {
        Some(streams.len() - 1)
    } else {
        last_index_of(streams.drop_last(), m)
    }
}

/// A found slot exists exactly when a stream of that medium exists.
pub proof fn lemma_last_index_of_exists(streams: Seq<StreamDescriptor>, m: Medium)
    ensures
        last_index_of(streams, m) is Some <==> exists|i: int|
            0 <= i < streams.len() && streams[i].medium == m,
        match last_index_of(streams, m) {
            Some(i) => 0 <= i < streams.len() && streams[i].medium == m,
            None => true,
        },
    decreases streams.len(),
{
    if streams.len() > 0 {
        lemma_last_index_of_exists(streams.drop_last(), m);
        if streams.last().medium == m {
        } else {
            assert forall|i: int|
                0 <= i < streams.len() && streams[i].medium == m implies last_index_of(streams, m)
                is Some by {
                assert(streams.drop_last()[i] == streams[i]);
            }
        }
    }
}

/// An index option as the walk reports it.
pub open spec fn option_index(o: Option<usize>) -> Option<int> {
    match o {
        Some(i) => Some(i as int),
        None => None,
    }
}

/// Walks the stream table and reports the video and audio slots, each the
/// last stream of its medium, as a single walk that overwrites earlier
/// matches leaves them.
pub fn find_stream_slots(streams: &Vec<StreamDescriptor>) -> (r: (Option<usize>, Option<usize>))
    ensures
        option_index(r.0) == last_index_of(streams@, Medium::Video),
        option_index(r.1) == last_index_of(streams@, Medium::Audio),
{
    let mut video: Option<usize> = None;
    let mut audio: Option<usize> = None;
    let n = streams.len();
    let mut i: usize = 0;
    while i < n
        invariant
            i <= n,
            n == streams@.len(),
            option_index(video) == last_index_of(streams@.take(i as int), Medium::Video),
            option_index(audio) == last_index_of(streams@.take(i as int), Medium::Audio),
        decreases n - i,
    {
        proof {
            assert(streams@.take(i + 1).drop_last() =~= streams@.take(i as int));
            assert(streams@.take(i + 1).last() == streams@[i as int]);
        }
        match streams[i].medium {
            Medium::Video => {
                video = Some(i);
            },
            Medium::Audio => {
                audio = Some(i);
            },
            Medium::Other => {},
        }
        i = i + 1;
    }
    proof {
        assert(streams@.take(n as int) =~= streams@);
    }
    (video, audio)
}

/// How an output stream mirrors its input stream.
#[derive(Clone, Copy, PartialEq, Eq, Structural, Debug)]
pub enum OutputKind {
    /// Video: decoded, overlaid and re-encoded; the encoder owns the stream's
    /// parameters.
    Encode,
    /// Audio: codec parameters copied from the input stream, payload
    /// untouched.
    CopyParams,
    /// Anything else: the stream slot exists but carries no parameters.
    Blank,
}

/// The plan for one output stream: how it is produced and the time base its
/// timestamps are written in.
#[derive(Clone, Copy, PartialEq, Eq, Structural, Debug)]
pub struct OutputPlan {
    pub kind: OutputKind,
    pub time_base: TimeBase,
}

/// The output stream planned for one input stream: video is re-encoded with
/// one tick per frame (the time base is the inverted nominal rate), audio and
/// other streams keep the input time base.
pub open spec fn plan_output_spec(d: StreamDescriptor) -> OutputPlan {
    match d.medium {
        Medium::Video => OutputPlan {
            kind: OutputKind::Encode,
            time_base: TimeBase { num: d.nominal_rate.den, den: d.nominal_rate.num },
        },
        Medium::Audio => OutputPlan { kind: OutputKind::CopyParams, time_base: d.time_base },
        Medium::Other => OutputPlan { kind: OutputKind::Blank, time_base: d.time_base },
    }
}

pub fn plan_output(d: &StreamDescriptor) -> (r: OutputPlan)
    ensures
        r == plan_output_spec(*d),
{
    match d.medium {
        Medium::Video => OutputPlan {
            kind: OutputKind::Encode,
            time_base: TimeBase { num: d.nominal_rate.den, den: d.nominal_rate.num },
        },
        Medium::Audio => OutputPlan { kind: OutputKind::CopyParams, time_base: d.time_base },
        Medium::Other => OutputPlan { kind: OutputKind::Blank, time_base: d.time_base },
    }
}

/// Plans the whole output stream table, one plan per input stream, in order.
pub fn plan_outputs(streams: &Vec<StreamDescriptor>) -> (r: Vec<OutputPlan>)
    ensures
        r@ == streams@.map_values(|d: StreamDescriptor| plan_output_spec(d)),
{
    let mut plans: Vec<OutputPlan> = Vec::new();
    let n = streams.len();
    let mut i: usize = 0;
    while i < n
        invariant
            i <= n,
            n == streams@.len(),
            plans@ == streams@.take(i as int).map_values(
                |d: StreamDescriptor| plan_output_spec(d),
            ),
        decreases n - i,
    {
        plans.push(plan_output(&streams[i]));
        proof {
            assert(streams@.take(i + 1).map_values(|d: StreamDescriptor| plan_output_spec(d))
                =~= streams@.take(i as int).map_values(|d: StreamDescriptor| plan_output_spec(d))
                .push(plan_output_spec(streams@[i as int])));
        }
        i = i + 1;
    }
    proof {
        assert(streams@.take(n as int) =~= streams@);
    }
    plans
}

/// The pixel layout the pipeline works in: every stage (decoder output,
/// overlay pads, encoder input) is pinned to 4:2:0 planar so frame
/// properties never change mid-stream.
#[derive(Clone, Copy, PartialEq, Eq, Structural, Debug)]
pub enum PixelLayout {
    Yuv420p,
}

/// The configuration handed to the video encoder when its output stream is
/// opened: the decoded geometry and rate carried over, one tick per frame,
/// the fixed pixel layout, and the fixed quality knobs the pipeline runs
/// with.
#[derive(Clone, Copy, PartialEq, Eq, Structural, Debug)]
pub struct EncoderSettings {
    pub width: u32,
    pub height: u32,
    pub frame_rate: Rate,
    /// Time base: the inverse of the frame rate.
    pub time_base: TimeBase,
    pub pix_fmt: PixelLayout,
    pub gop: u32,
    pub max_b_frames: u32,
    pub bit_rate: u64,
    pub qmin: u32,
    pub qmax: u32,
    pub me_range: u32,
}

pub open spec fn encoder_settings_spec(width: u32, height: u32, rate: Rate) -> EncoderSettings {
    EncoderSettings {
        width,
        height,
        frame_rate: rate,
        time_base: TimeBase { num: rate.den, den: rate.num },
        pix_fmt: PixelLayout::Yuv420p,
        gop: 50,
        max_b_frames: 0,
        bit_rate: 2564000,
        qmin: 10,
        qmax: 51,
        me_range: 16,
    }
}

/// Plans the video encoder's configuration from the decoder's geometry and
/// the stream's nominal rate. Disabling B-frames keeps decode order equal to
/// presentation order, which the anchoring step relies on.
pub fn encoder_settings(width: u32, height: u32, rate: Rate) -> (r: EncoderSettings)
    requires
        rate.valid(),
    ensures
        r == encoder_settings_spec(width, height, rate),
        r.time_base.valid(),
{
    EncoderSettings {
        width,
        height,
        frame_rate: rate,
        time_base: TimeBase { num: rate.den, den: rate.num },
        pix_fmt: PixelLayout::Yuv420p,
        gop: 50,
        max_b_frames: 0,
        bit_rate: 2564000,
        qmin: 10,
        qmax: 51,
        me_range: 16,
    }
}

} // verus!
