//! Messages and results carried over the bounded (capacity-1) channels that
//! connect the capture actor, the orchestrator, and the consumer.

use crate::errors::{CaptureError, ErrorKind, MALFORMED_FRAME};
use crate::frame::{Frame, Mask, CHANNELS};
use vstd::prelude::*;

verus! {

/// What the orchestrator sends to the capture actor.
#[derive(Clone, Copy, Debug, PartialEq, Eq, Structural)]
pub enum CameraMessage {
    /// Read one frame from the device and reply on the result channel.
    GetImage,
    /// Release the device and terminate without replying.
    Quit,
}

/// What the consumer sends to the orchestrator.
#[derive(Clone, Copy, Debug, PartialEq, Eq, Structural)]
pub enum PipelineMessage {
    /// Produce one foreground mask from a fresh frame.
    GenerateImage,
    /// Reseed the strategy's reference background from a fresh frame.
    SetReference,
    /// Terminal: shut the pipeline down; nothing is mutated afterwards.
    Quit,
}

/// The capture actor's reply to one `GetImage`: the frame, or the device
/// error, with the read's timestamp in milliseconds.
pub struct CameraResult {
    pub data: Result<Frame, CaptureError>,
    pub timestamp: u64,
}

impl CameraResult {
    /// A delivered frame is well formed.
    pub open spec fn wf(self) -> bool {
        self.data matches Ok(f) ==> f.wf()
    }

    /// Checks a delivered frame against the geometry its header claims,
    /// demoting a malformed one to a failed read: every reply leaving here
    /// is well formed, and a sound one passes through unchanged.
    pub fn validated(self) -> (r: CameraResult)
        ensures
            r.wf(),
            r.timestamp == self.timestamp,
            self.data is Err ==> r == self,
            self.data matches Ok(f) ==> (f.wf() ==> r == self) && (!f.wf() ==> (r.data matches Err(
                e,
            ) && e.code == MALFORMED_FRAME)),
    {
        let timestamp = self.timestamp;
        match self.data {
            Err(e) => CameraResult { data: Err(e), timestamp },
            Ok(f) => {
                let n: usize = f.data.len();
                if let Some(px) = f.width.checked_mul(f.height) {
                    // A product beyond usize::MAX can match no buffer length.
                    if let Some(total) = px.checked_mul(CHANNELS) {
                        if n == total {
                            return CameraResult { data: Ok(f), timestamp };
                        }
                    }
                } else {
                    assert(f.width * f.height <= f.width * f.height * 3) by (nonlinear_arith);
                }
                CameraResult { data: Err(CaptureError { code: MALFORMED_FRAME }), timestamp }
            },
        }
    }
}

/// The orchestrator's answer to one `GenerateImage` command.
///
/// Exactly one contract is offered: on success the outcome carries the mask
/// *and* the unprocessed source frame (for live-view consumers); on failure
/// it carries the error kind alone and `image` is `None`.
pub struct BackgroundResult {
    pub mask: Result<Mask, ErrorKind>,
    pub image: Option<Frame>,
    pub timestamp: u64,
}

impl BackgroundResult {
    /// The source frame travels with the mask exactly on success.
    pub open spec fn wf(self) -> bool {
        &&& (self.mask is Ok <==> self.image is Some)
        &&& (self.mask matches Ok(m) ==> m.wf())
        &&& (self.image matches Some(f) ==> f.wf())
    }
}

} // verus!
