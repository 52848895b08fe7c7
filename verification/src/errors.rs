//! Error taxonomy of the pipeline.

use vstd::prelude::*;

verus! {

/// Why a cycle produced no mask.  Per-cycle failures are wrapped into that
/// cycle's outcome and never abort the orchestrator loop.
#[derive(Clone, Copy, Debug, PartialEq, Eq, Structural)]
pub enum ErrorKind {
    /// The device read failed for this cycle.
    CaptureFailed,
    /// A frame was requested before any successful reference seeding.
    ReferenceNotSet,
    /// The strategy failed internally for this cycle.
    ComputeFailed,
    /// A peer thread exited; treated as an implicit shutdown trigger.
    ChannelClosed,
}

/// The error code given to a capture reply whose frame did not match the
/// geometry its header claimed.
pub const MALFORMED_FRAME: i32 = -2;

/// A failed device read, with the device's error code.
#[derive(Clone, Copy, Debug, PartialEq, Eq, Structural)]
pub struct CaptureError {
    pub code: i32,
}

/// An internal strategy failure; it spoils one cycle only, and the strategy
/// state stays consistent afterwards.
#[derive(Clone, Copy, Debug, PartialEq, Eq, Structural)]
pub struct ComputeError {}

} // verus!
