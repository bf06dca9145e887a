//! Pipeline core for a live remux/transform streamer.
//!
//! The library holds the verified logic of the pipeline: rational time-base
//! arithmetic, timestamp synthesis, rescaling and monotonicity repair, the
//! audio/video time-gap bridge, stream routing, the per-session state machine
//! with cooperative cancellation, and the controller that swaps sessions.
//! Opening real inputs and outputs, decoding, filtering and encoding are the
//! collaborators' work and stay outside.

pub mod control;
pub mod envelope;
pub mod overlay;
pub mod session;
pub mod setup;
pub mod sync;
pub mod time;
