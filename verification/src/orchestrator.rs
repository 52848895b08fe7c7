//! The pipeline orchestrator: a two-state machine owning one strategy
//! instance, bridging the capture actor and the consumer.
//!
//! Commands execute strictly in receipt order on one thread, so every
//! handler here is a plain sequential function: the caller receives a
//! command, obtains the cycle's capture reply (one `GetImage` is issued per
//! cycle), and hands both in.  Per-cycle capture or compute failures are
//! wrapped into that cycle's outcome and never corrupt the state: either a
//! whole transition happens, or nothing changes.

use crate::errors::ErrorKind;
use crate::frame::Mask;
use crate::messages::{BackgroundResult, CameraResult, PipelineMessage};
use crate::subtractor::{ApplyInput, Subtractor};
use vstd::prelude::*;

verus! {

/// The orchestrator's two states: `Idle` until a reference background has
/// been seeded successfully, `Ready` afterwards.
#[derive(Clone, Copy, Debug, PartialEq, Eq, Structural)]
pub enum OrchestratorState {
    Idle,
    Ready,
}

/// The orchestrator: its state-machine state and the strategy it owns
/// exclusively.
pub struct Orchestrator {
    pub state: OrchestratorState,
    pub subtractor: Subtractor,
}

impl Orchestrator {
    /// The owned strategy state is well formed.
    pub open spec fn wf(self) -> bool {
        self.subtractor.wf()
    }

    /// Starts `Idle`, owning the supplied strategy.
    pub fn new(subtractor: Subtractor) -> (r: Orchestrator)
        requires
            subtractor.wf(),
        ensures
            r.wf(),
            r.state is Idle,
            r.subtractor == subtractor,
    {
        Orchestrator { state: OrchestratorState::Idle, subtractor }
    }

    /// Services one `SetReference` command with the cycle's capture reply.
    ///
    /// On a delivered frame the strategy is reset against it and the state
    /// becomes `Ready`; the reseed completes here, before any later command
    /// is serviced.  On a capture failure nothing changes — no strategy
    /// mutation, no automatic retry; the consumer may simply ask again.
    pub fn handle_set_reference(&mut self, capture: CameraResult)
        requires
            old(self).wf(),
            capture.wf(),
        ensures
            final(self).wf(),
            capture.data matches Ok(f) ==> final(self).state is Ready
                && final(self).subtractor == old(self).subtractor.after_reset(f),
            capture.data is Err ==> *final(self) == *old(self),
    {
        match capture.data {
            Ok(frame) => {
                self.subtractor.reset(frame);
                self.state = OrchestratorState::Ready;
            },
            Err(_) => {},
        }
    }

    /// Services one `GenerateImage` (frame request) command with the cycle's
    /// capture reply and the strategy's outside-computed companion.
    ///
    /// Before any successful `SetReference` the answer is
    /// `Err(ReferenceNotSet)`; a failed capture answers `Err(CaptureFailed)`;
    /// a strategy failure answers `Err(ComputeFailed)`.  None of these touch
    /// the state, so a subsequent successful request behaves as if nothing
    /// had failed.  On success the outcome carries the mask and the source
    /// frame, stamped with `now`.
    pub fn handle_generate_image(&mut self, capture: CameraResult, aux: &ApplyInput, now: u64)
        -> (r: BackgroundResult)
        requires
            old(self).wf(),
            capture.wf(),
            aux matches ApplyInput::ModelForeground(g) ==> g.wf(),
            aux matches ApplyInput::DenseFlow(f) ==> f.wf(),
        ensures
            final(self).wf(),
            final(self).state == old(self).state,
            r.wf(),
            r.timestamp == now,
            old(self).state is Idle ==> (r.mask matches Err(k) && k is ReferenceNotSet
                && *final(self) == *old(self)),
            old(self).state is Ready ==> (capture.data is Err ==> (r.mask matches Err(k)
                && k is CaptureFailed && *final(self) == *old(self))),
            old(self).state is Ready ==> (capture.data matches Ok(f) ==> ((!old(self).subtractor.accepts(f, *aux) ==> (r.mask matches Err(k) && k is ComputeFailed
                && *final(self) == *old(self))) && (old(self).subtractor.accepts(f, *aux) ==> (
            r.mask matches Ok(m) && r.image == Some(f) && Subtractor::apply_transition(
                old(self).subtractor,
                final(self).subtractor,
                f,
            ) && m.width == f.width && m.height == f.height && (forall|i: int|
                0 <= i < m.data@.len() ==> m.data@[i] == old(self).subtractor.mask_bit(
                    f,
                    *aux,
                    i,
                )))))),
    {
        match self.state {
            OrchestratorState::Idle => BackgroundResult {
                mask: Err(ErrorKind::ReferenceNotSet),
                image: None,
                timestamp: now,
            },
            OrchestratorState::Ready => {
                match capture.data {
                    Err(_) => BackgroundResult {
                        mask: Err(ErrorKind::CaptureFailed),
                        image: None,
                        timestamp: now,
                    },
                    Ok(frame) => {
                        let computed: Result<Mask, ErrorKind> = match self.subtractor.apply(
                            &frame,
                            aux,
                        ) {
                            Ok(m) => Ok(m),
                            Err(_) => Err(ErrorKind::ComputeFailed),
                        };
                        match computed {
                            Ok(m) => BackgroundResult {
                                mask: Ok(m),
                                image: Some(frame),
                                timestamp: now,
                            },
                            Err(k) => BackgroundResult { mask: Err(k), image: None, timestamp: now },
                        }
                    },
                }
            },
        }
    }

    /// Services one command of any kind; the orchestrator's whole
    /// per-cycle decision.
    ///
    /// Returns `(quit, outcome)`: `quit` is true exactly on `Quit`, which is
    /// terminal and mutates nothing — the caller forwards `Quit` to the
    /// capture actor, drains the one pending capture reply, and terminates.
    /// Only `GenerateImage` produces an outcome to forward to the consumer.
    pub fn handle_message(
        &mut self,
        msg: PipelineMessage,
        capture: CameraResult,
        aux: &ApplyInput,
        now: u64,
    ) -> (r: (bool, Option<BackgroundResult>))
        requires
            old(self).wf(),
            capture.wf(),
            aux matches ApplyInput::ModelForeground(g) ==> g.wf(),
            aux matches ApplyInput::DenseFlow(f) ==> f.wf(),
        ensures
            final(self).wf(),
            r.0 == (msg is Quit),
            msg is Quit ==> *final(self) == *old(self) && r.1 is None,
            msg is SetReference ==> (r.1 is None && (capture.data matches Ok(f) ==> (final(self).state is Ready && final(self).subtractor == old(self).subtractor.after_reset(f)))
                && (capture.data is Err ==> *final(self) == *old(self))),
            msg is GenerateImage ==> (r.1 matches Some(out) && out.wf() && out.timestamp == now
                && final(self).state == old(self).state),
            msg is GenerateImage && old(self).state is Idle ==> (r.1 matches Some(out)
                && out.mask matches Err(k) && k is ReferenceNotSet
                && *final(self) == *old(self)),
            msg is GenerateImage && old(self).state is Ready && capture.data is Err ==> (
            r.1 matches Some(out) && out.mask matches Err(k) && k is CaptureFailed
                && *final(self) == *old(self)),
            msg is GenerateImage && old(self).state is Ready ==> (capture.data matches Ok(f)
                ==> (!old(self).subtractor.accepts(f, *aux) ==> (r.1 matches Some(out)
                && out.mask matches Err(k) && k is ComputeFailed
                && *final(self) == *old(self)))),
            msg is GenerateImage && old(self).state is Ready ==> (capture.data matches Ok(f)
                ==> (old(self).subtractor.accepts(f, *aux) ==> (r.1 matches Some(out)
                && out.mask matches Ok(m) && out.image == Some(f)
                && Subtractor::apply_transition(
                old(self).subtractor,
                final(self).subtractor,
                f,
            ) && m.width == f.width && m.height == f.height && (forall|i: int|
                0 <= i < m.data@.len() ==> m.data@[i] == old(self).subtractor.mask_bit(
                    f,
                    *aux,
                    i,
                ))))),
    {
        match msg {
            PipelineMessage::Quit => (true, None),
            PipelineMessage::SetReference => {
                self.handle_set_reference(capture);
                (false, None)
            },
            PipelineMessage::GenerateImage => {
                let out = self.handle_generate_image(capture, aux, now);
                (false, Some(out))
            },
        }
    }
}

} // verus!
