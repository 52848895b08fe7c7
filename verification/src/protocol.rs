//! A model of the bounded-channel protocol between the orchestrator and the
//! capture actor, at the granularity of single channel operations.
//!
//! Two capacity-1 mailboxes connect the two threads: the control slot
//! (orchestrator to capture actor, carrying `GetImage` or `Quit`) and the
//! result slot (capture actor back to orchestrator, carrying one frame).
//! The orchestrator's loop issues exactly one `GetImage` at the top of every
//! cycle, then waits for the consumer's command; whichever command arrives,
//! the one outstanding capture is drained before the next cycle — on `Quit`
//! it is drained explicitly, or the bounded channel would deadlock.
//!
//! The model makes that discipline checkable: each channel operation is one
//! event, an event fires only when its slot allows it (a send into an
//! occupied slot would block), and the invariant proved over every event
//! sequence bounds the frames outstanding between the two threads by one.

use crate::messages::CameraMessage;
use vstd::prelude::*;

verus! {

/// Where the orchestrator's loop stands.
#[derive(Clone, Copy, Debug, PartialEq, Eq, Structural)]
pub enum OrchPhase {
    /// At the top of the cycle, about to issue `GetImage`.
    AtLoopTop,
    /// `GetImage` issued; blocked on the consumer's command.
    AwaitingCommand,
    /// `Quit` received and forwarded; draining the one pending capture.
    Draining,
    /// Terminated.
    Stopped,
}

/// Where the capture actor's loop stands.
#[derive(Clone, Copy, Debug, PartialEq, Eq, Structural)]
pub enum CamPhase {
    /// Blocked on the control slot.
    AwaitingControl,
    /// Took a `GetImage`; reading the device, about to send the frame.
    Reading,
    /// Terminated.
    Stopped,
}

/// One channel operation, as the threads interleave them.
#[derive(Clone, Copy, Debug, PartialEq, Eq, Structural)]
pub enum ProtocolEvent {
    /// Orchestrator puts `GetImage` into the free control slot.
    IssueRequest,
    /// Capture actor takes the `GetImage` out of the control slot.
    TakeRequest,
    /// Capture actor puts the read frame into the free result slot.
    ServeFrame,
    /// Orchestrator, commanded `GenerateImage` or `SetReference`, takes the
    /// frame out of the result slot and finishes the cycle.
    ConsumeFrame,
    /// Orchestrator, commanded `Quit`, puts `Quit` into the free control
    /// slot.
    ForwardQuit,
    /// Orchestrator discards the one pending capture reply and terminates.
    DrainFrame,
    /// Capture actor takes the `Quit` and terminates.
    TakeQuit,
}

/// The protocol state: both thread phases and both slots.
pub struct ProtocolState {
    pub orch: OrchPhase,
    pub cam: CamPhase,
    /// The control slot's occupant, if any.
    pub control_slot: Option<CameraMessage>,
    /// Whether a frame sits unconsumed in the result slot.
    pub frame_in_flight: bool,
}

impl ProtocolState {
    /// Frames outstanding between the two threads: a `GetImage` waiting in
    /// the control slot, a frame being read from the device, or a frame
    /// sitting unconsumed in the result slot.
    pub open spec fn outstanding(self) -> int {
        (if self.control_slot == Some(CameraMessage::GetImage) {
            1int
        } else {
            0int
        }) + (if self.cam is Reading {
            1int
        } else {
            0int
        }) + (if self.frame_in_flight {
            1int
        } else {
            0int
        })
    }

    /// The inductive invariant: exactly one capture is outstanding while the
    /// orchestrator waits for a command or drains, none otherwise; a `Quit`
    /// occupies the control slot only once the orchestrator is past its
    /// loop; and the capture actor outlives the orchestrator's loop.
    pub open spec fn inv(self) -> bool {
        &&& self.outstanding() == if self.orch is AwaitingCommand || self.orch is Draining {
            1int
        } else {
            0int
        }
        &&& (self.control_slot == Some(CameraMessage::Quit) ==> self.orch is Draining
            || self.orch is Stopped)
        &&& (self.orch is AtLoopTop || self.orch is AwaitingCommand ==> self.cam !is Stopped)
        &&& (self.orch is Stopped ==> !self.frame_in_flight)
    }

    /// Whether an event can fire: the thread is in the right phase and the
    /// slot it touches allows the operation (a send needs a free slot, a
    /// receive a full one).
    pub open spec fn enabled(self, e: ProtocolEvent) -> bool {
        match e {
            ProtocolEvent::IssueRequest => self.orch is AtLoopTop && self.control_slot is None,
            ProtocolEvent::TakeRequest => self.cam is AwaitingControl && self.control_slot
                == Some(CameraMessage::GetImage),
            ProtocolEvent::ServeFrame => self.cam is Reading && !self.frame_in_flight,
            ProtocolEvent::ConsumeFrame => self.orch is AwaitingCommand && self.frame_in_flight,
            ProtocolEvent::ForwardQuit => self.orch is AwaitingCommand && self.control_slot
                is None,
            ProtocolEvent::DrainFrame => self.orch is Draining && self.frame_in_flight,
            ProtocolEvent::TakeQuit => self.cam is AwaitingControl && self.control_slot
                == Some(CameraMessage::Quit),
        }
    }

    /// The state after an enabled event fires.
    pub open spec fn stepped(self, e: ProtocolEvent) -> ProtocolState {
        match e {
            ProtocolEvent::IssueRequest => ProtocolState {
                orch: OrchPhase::AwaitingCommand,
                control_slot: Some(CameraMessage::GetImage),
                ..self
            },
            ProtocolEvent::TakeRequest => ProtocolState {
                cam: CamPhase::Reading,
                control_slot: None,
                ..self
            },
            ProtocolEvent::ServeFrame => ProtocolState {
                cam: CamPhase::AwaitingControl,
                frame_in_flight: true,
                ..self
            },
            ProtocolEvent::ConsumeFrame => ProtocolState {
                orch: OrchPhase::AtLoopTop,
                frame_in_flight: false,
                ..self
            },
            ProtocolEvent::ForwardQuit => ProtocolState {
                orch: OrchPhase::Draining,
                control_slot: Some(CameraMessage::Quit),
                ..self
            },
            ProtocolEvent::DrainFrame => ProtocolState {
                orch: OrchPhase::Stopped,
                frame_in_flight: false,
                ..self
            },
            ProtocolEvent::TakeQuit => ProtocolState {
                cam: CamPhase::Stopped,
                control_slot: None,
                ..self
            },
        }
    }

    /// The state a trace of events leads to, firing each event that is
    /// enabled when its turn comes and ignoring the rest.
    pub open spec fn run(self, trace: Seq<ProtocolEvent>) -> ProtocolState
        decreases trace.len(),
    {
        if trace.len() == 0 {
            self
        } else {
            let next = if self.enabled(trace[0]) {
                self.stepped(trace[0])
            } else {
                self
            };
            next.run(trace.drop_first())
        }
    }

    /// The initial state: both threads at their loop heads, both slots free.
    pub fn new() -> (r: ProtocolState)
        ensures
            r.inv(),
            r.orch is AtLoopTop,
            r.cam is AwaitingControl,
            r.control_slot is None,
            !r.frame_in_flight,
            r.outstanding() == 0,
    {
        ProtocolState {
            orch: OrchPhase::AtLoopTop,
            cam: CamPhase::AwaitingControl,
            control_slot: None,
            frame_in_flight: false,
        }
    }

    /// Fires one event if it is enabled; reports whether it fired.
    pub fn step(&mut self, e: ProtocolEvent) -> (fired: bool)
        ensures
            fired == old(self).enabled(e),
            fired ==> *final(self) == old(self).stepped(e),
            !fired ==> *final(self) == *old(self),
            old(self).inv() ==> final(self).inv(),
    {
        proof {
            if old(self).enabled(e) && old(self).inv() {
                lemma_step_preserves_inv(*old(self), e);
            }
        }
        match e {
            ProtocolEvent::IssueRequest => {
                if matches!(self.orch, OrchPhase::AtLoopTop) && self.control_slot.is_none() {
                    self.orch = OrchPhase::AwaitingCommand;
                    self.control_slot = Some(CameraMessage::GetImage);
                    return true;
                }
                false
            },
            ProtocolEvent::TakeRequest => {
                if matches!(self.cam, CamPhase::AwaitingControl) && matches!(
                    self.control_slot,
                    Some(CameraMessage::GetImage),
                ) {
                    self.cam = CamPhase::Reading;
                    self.control_slot = None;
                    return true;
                }
                false
            },
            ProtocolEvent::ServeFrame => {
                if matches!(self.cam, CamPhase::Reading) && !self.frame_in_flight {
                    self.cam = CamPhase::AwaitingControl;
                    self.frame_in_flight = true;
                    return true;
                }
                false
            },
            ProtocolEvent::ConsumeFrame => {
                if matches!(self.orch, OrchPhase::AwaitingCommand) && self.frame_in_flight {
                    self.orch = OrchPhase::AtLoopTop;
                    self.frame_in_flight = false;
                    return true;
                }
                false
            },
            ProtocolEvent::ForwardQuit => {
                if matches!(self.orch, OrchPhase::AwaitingCommand) && self.control_slot.is_none() {
                    self.orch = OrchPhase::Draining;
                    self.control_slot = Some(CameraMessage::Quit);
                    return true;
                }
                false
            },
            ProtocolEvent::DrainFrame => {
                if matches!(self.orch, OrchPhase::Draining) && self.frame_in_flight {
                    self.orch = OrchPhase::Stopped;
                    self.frame_in_flight = false;
                    return true;
                }
                false
            },
            ProtocolEvent::TakeQuit => {
                if matches!(self.cam, CamPhase::AwaitingControl) && matches!(
                    self.control_slot,
                    Some(CameraMessage::Quit),
                ) {
                    self.cam = CamPhase::Stopped;
                    self.control_slot = None;
                    return true;
                }
                false
            },
        }
    }

    /// Runs the whole shutdown handshake from the point where the consumer's
    /// `Quit` reaches the orchestrator mid-cycle: finish the outstanding
    /// capture, forward `Quit`, drain the one pending reply, and let the
    /// capture actor take the `Quit`.  Both threads terminate, both slots
    /// end empty, and no send ever met an occupied slot — so no send blocks
    /// forever.
    pub fn shutdown(&mut self)
        requires
            old(self).inv(),
            old(self).orch is AwaitingCommand,
        ensures
            final(self).inv(),
            final(self).orch is Stopped,
            final(self).cam is Stopped,
            final(self).control_slot is None,
            !final(self).frame_in_flight,
            final(self).outstanding() == 0,
    {
        // Let the capture actor finish the cycle's one outstanding capture.
        if matches!(self.control_slot, Some(CameraMessage::GetImage)) {
            self.step(ProtocolEvent::TakeRequest);
        }
        if matches!(self.cam, CamPhase::Reading) {
            self.step(ProtocolEvent::ServeFrame);
        }
        // The control slot is now free: forward Quit, then drain the reply.
        self.step(ProtocolEvent::ForwardQuit);
        self.step(ProtocolEvent::DrainFrame);
        self.step(ProtocolEvent::TakeQuit);
    }
}

/// Every event preserves the protocol invariant.
pub proof fn lemma_step_preserves_inv(s: ProtocolState, e: ProtocolEvent)
    requires
        s.inv(),
        s.enabled(e),
    ensures
        s.stepped(e).inv(),
{
}

/// Law: however the consumer's commands and the two threads' channel
/// operations interleave, never more than one frame is outstanding between
/// the capture actor and the orchestrator — in particular at most one frame
/// ever sits unconsumed in the result slot.
pub proof fn lemma_frames_stay_bounded(s: ProtocolState, trace: Seq<ProtocolEvent>)
    requires
        s.inv(),
    ensures
        s.run(trace).inv(),
        s.run(trace).outstanding() <= 1,
    decreases trace.len(),
{
    if trace.len() > 0 {
        let next = if s.enabled(trace[0]) {
            s.stepped(trace[0])
        } else {
            s
        };
        if s.enabled(trace[0]) {
            lemma_step_preserves_inv(s, trace[0]);
        }
        lemma_frames_stay_bounded(next, trace.drop_first());
    }
}

} // verus!
