//! Value types carried through the pipeline.
//!
//! Packets and frames are envelopes: the timestamps, stream index and
//! duration that the pipeline core reads and rewrites, plus an opaque payload
//! handle that only the codec collaborator interprets. The stream table is a
//! list of descriptors built once when a session initializes.

use crate::time::{Rate, TimeBase};
use vstd::prelude::*;

verus! {

/// The kind of track a stream carries.
#[derive(Clone, Copy, PartialEq, Eq, Structural, Debug)]
pub enum Medium {
    Video,
    Audio,
    Other,
}

/// One entry of a session's stream table, built once at initialization and
/// immutable afterward.
#[derive(Clone, Copy, PartialEq, Eq, Structural, Debug)]
pub struct StreamDescriptor {
    /// Stream index, 0-based, equal to the entry's position in the table.
    pub index: usize,
    pub medium: Medium,
    /// Time base of the stream's timestamps.
    pub time_base: TimeBase,
    /// Nominal frame rate (meaningful for video).
    pub nominal_rate: Rate,
}

impl StreamDescriptor {
    pub open spec fn valid(self) -> bool {
        self.time_base.valid() && self.nominal_rate.valid()
    }
}

/// A compressed packet on its way from the input to the output.
///
/// `payload` is an opaque handle owned by the codec collaborator; the core
/// passes it through untouched. `position` is the byte offset the source
/// reported; it is invalidated once timestamps are rewritten, since source
/// offsets mean nothing in the destination.
#[derive(Clone, Copy, PartialEq, Eq, Structural, Debug)]
pub struct PacketEnvelope {
    pub stream_index: usize,
    /// Presentation timestamp, in ticks of the owning stream's time base.
    pub pts: Option<i64>,
    /// Decoding timestamp, in ticks of the owning stream's time base.
    pub dts: Option<i64>,
    /// Duration in ticks; zero when the container does not record one.
    pub duration: i64,
    pub position: Option<i64>,
    pub payload: u64,
}

/// An uncompressed frame between the decode, overlay and encode stages.
#[derive(Clone, Copy, PartialEq, Eq, Structural, Debug)]
pub struct FrameEnvelope {
    /// Presentation timestamp in the decoder's time base.
    pub pts: Option<i64>,
    /// The decoder's best guess at the effective timestamp.
    pub best_effort_ts: Option<i64>,
    pub width: u32,
    pub height: u32,
    /// Pixel-format tag (video only), as the codec collaborator numbers them.
    pub pix_fmt: u32,
    pub payload: u64,
}

impl FrameEnvelope {
    /// A decoded frame is stamped with the decoder's best-effort timestamp
    /// before it enters the overlay stage.
    pub fn adopt_best_effort_ts(self) -> (r: FrameEnvelope)
        ensures
            r == (FrameEnvelope { pts: self.best_effort_ts, ..self }),
    {
        FrameEnvelope { pts: self.best_effort_ts, ..self }
    }
}

} // verus!
