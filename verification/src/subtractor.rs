//! The polymorphic strategy: a tagged union of the four background-
//! subtraction variants, selected at startup, exclusively owned and mutated
//! by the orchestrator.

use crate::errors::ComputeError;
use crate::frame::{Frame, GrayImage, Mask};
use crate::mog::{MogSettings, MogSubtractor};
use crate::naive::{NaiveSettings, NaiveSubtractor};
use crate::optical_flow::{OfSettings, OfSubtractor};
use crate::test_pattern::{TestSettings, TestSubtractor};
use vstd::prelude::*;

verus! {

/// Which strategy variant the pipeline runs.
#[derive(Clone, Copy, Debug, PartialEq, Eq, Structural)]
pub enum SubtractorType {
    Naive,
    Mog,
    OpticalFlow,
    Test,
}

/// Configuration for every variant, supplied once at startup.
#[derive(Clone, Copy, Debug, PartialEq, Eq)]
pub struct BGSubtracSettings {
    pub mog_settings: MogSettings,
    pub naive_settings: NaiveSettings,
    pub of_settings: OfSettings,
    pub test_settings: TestSettings,
}

impl BGSubtracSettings {
    /// The stock configuration of every variant.
    pub fn default() -> (r: BGSubtracSettings)
        ensures
            r.naive_settings.threshold_per_channel == 50,
            r.mog_settings.history == 250,
            r.mog_settings.mixtures == 5,
            r.mog_settings.background_ratio_milli == 650,
            r.mog_settings.noise_sigma_milli == 5200,
            r.mog_settings.learning_rate_milli == 50,
            r.of_settings.mode is YDirection,
            r.of_settings.scales == 3,
            r.of_settings.win_size == 15,
            r.of_settings.iterations == 3,
            r.of_settings.poly_n == 5,
            r.of_settings.poly_sigma_milli == 1200,
            r.of_settings.flags == 0,
            r.of_settings.threshold == 15,
            r.test_settings.test_box_pos == (0i32, 0i32),
            r.test_settings.test_box_size == (200i32, 200i32),
    {
        BGSubtracSettings {
            mog_settings: MogSettings::default(),
            naive_settings: NaiveSettings::default(),
            of_settings: OfSettings::default(),
            test_settings: TestSettings::default(),
        }
    }
}

/// The outside-computed companion of one `apply` call.  The naive and
/// test-pattern variants need the frame alone; the mixture-of-Gaussians
/// variant needs its model's raw foreground estimate; the optical-flow
/// variant needs the dense displacement field.
pub enum ApplyInput {
    FrameOnly,
    ModelForeground(GrayImage),
    DenseFlow(crate::optical_flow::FlowField),
}

/// One of the four strategies, with its private state.
pub enum Subtractor {
    Naive(NaiveSubtractor),
    Mog(MogSubtractor),
    OpticalFlow(OfSubtractor),
    Test(TestSubtractor),
}

impl Subtractor {
    /// Every variant's stored state is well formed.
    pub open spec fn wf(self) -> bool {
        match self {
            Subtractor::Naive(s) => s.wf(),
            Subtractor::Mog(_) => true,
            Subtractor::OpticalFlow(s) => s.wf(),
            Subtractor::Test(_) => true,
        }
    }

    /// On which frame/companion pairs this strategy succeeds: the companion
    /// is of the kind the variant needs, and its geometry (and, for the
    /// naive variant, the stored reference's) matches the frame.
    pub open spec fn accepts(self, img: Frame, aux: ApplyInput) -> bool {
        match self {
            Subtractor::Naive(s) => aux is FrameOnly && s.can_apply(img),
            Subtractor::Mog(s) => aux matches ApplyInput::ModelForeground(g) && s.can_apply(
                img,
                g,
            ),
            Subtractor::OpticalFlow(s) => aux matches ApplyInput::DenseFlow(f) && s.can_apply(
                img,
                f,
            ),
            Subtractor::Test(_) => aux is FrameOnly,
        }
    }

    /// Mask bit of pixel `i` of a successful `apply`.
    pub open spec fn mask_bit(self, img: Frame, aux: ApplyInput, i: int) -> bool {
        match self {
            Subtractor::Naive(s) => s.mask_bit(img, i),
            Subtractor::Mog(s) => s.mask_bit(aux->ModelForeground_0, i),
            Subtractor::OpticalFlow(s) => s.mask_bit(aux->DenseFlow_0, i),
            Subtractor::Test(s) => s.mask_bit(img, i),
        }
    }

    /// How one successful `apply` on `img` changes the strategy state: only
    /// the optical-flow variant changes, storing the grayscale input as its
    /// previous frame.
    pub open spec fn apply_transition(pre: Subtractor, post: Subtractor, img: Frame) -> bool {
        match pre {
            Subtractor::OpticalFlow(s) => post matches Subtractor::OpticalFlow(t)
                && OfSubtractor::apply_transition(s, t, img),
            _ => post == pre,
        }
    }

    /// The state after resetting against `background_img`: the naive variant
    /// stores it as the new reference, the optical-flow variant drops its
    /// previous frame, and the mixture-of-Gaussians and test variants keep
    /// their state (the mixture model is rebuilt by its owner from the
    /// unchanged settings).
    pub open spec fn after_reset(self, background_img: Frame) -> Subtractor {
        match self {
            Subtractor::Naive(s) => Subtractor::Naive(s.after_reset(background_img)),
            Subtractor::Mog(s) => Subtractor::Mog(s),
            Subtractor::OpticalFlow(s) => Subtractor::OpticalFlow(
                OfSubtractor { settings: s.settings, prev_img: None },
            ),
            Subtractor::Test(s) => Subtractor::Test(s),
        }
    }

    /// Transforms one frame and its companion into a foreground mask.
    pub fn apply(&mut self, input_img: &Frame, aux: &ApplyInput) -> (r: Result<
        Mask,
        ComputeError,
    >)
        requires
            old(self).wf(),
            input_img.wf(),
            aux matches ApplyInput::ModelForeground(g) ==> g.wf(),
            aux matches ApplyInput::DenseFlow(f) ==> f.wf(),
        ensures
            final(self).wf(),
            r is Ok <==> old(self).accepts(*input_img, *aux),
            r is Err ==> *final(self) == *old(self),
            r is Ok ==> Self::apply_transition(*old(self), *final(self), *input_img),
            r matches Ok(m) ==> m.wf() && m.width == input_img.width
                && m.height == input_img.height
                && forall|i: int|
                    0 <= i < m.data@.len() ==> m.data@[i] == old(self).mask_bit(
                        *input_img,
                        *aux,
                        i,
                    ),
    {
        match self {
            Subtractor::Naive(s) => {
                match aux {
                    ApplyInput::FrameOnly => s.apply(input_img),
                    _ => Err(ComputeError {}),
                }
            },
            Subtractor::Mog(s) => {
                match aux {
                    ApplyInput::ModelForeground(g) => s.apply(input_img, g),
                    _ => Err(ComputeError {}),
                }
            },
            Subtractor::OpticalFlow(s) => {
                match aux {
                    ApplyInput::DenseFlow(f) => s.apply(input_img, f),
                    _ => Err(ComputeError {}),
                }
            },
            Subtractor::Test(s) => {
                match aux {
                    ApplyInput::FrameOnly => s.apply(input_img),
                    _ => Err(ComputeError {}),
                }
            },
        }
    }

    /// Reseeds the strategy against a reference background frame.
    pub fn reset(&mut self, background_img: Frame)
        ensures
            *final(self) == old(self).after_reset(background_img),
    {
        match self {
            Subtractor::Naive(s) => s.reset(background_img),
            Subtractor::Mog(s) => s.reset(),
            Subtractor::OpticalFlow(s) => s.reset(),
            Subtractor::Test(s) => s.reset(),
        }
    }
}

/// Builds the strategy the configuration selects, with that variant's
/// settings.
pub fn create_bg_selector(selected_type: SubtractorType, settings: &BGSubtracSettings) -> (r:
    Subtractor)
    ensures
        r.wf(),
        selected_type is Naive ==> (r matches Subtractor::Naive(s)
            && s.settings == settings.naive_settings && s.background_approximation is None),
        selected_type is Mog ==> (r matches Subtractor::Mog(s)
            && s.settings == settings.mog_settings),
        selected_type is OpticalFlow ==> (r matches Subtractor::OpticalFlow(s)
            && s.settings == settings.of_settings && s.prev_img is None),
        selected_type is Test ==> (r matches Subtractor::Test(s)
            && s.settings == settings.test_settings),
{
    match selected_type {
        SubtractorType::Naive => Subtractor::Naive(NaiveSubtractor::new(settings.naive_settings)),
        SubtractorType::Mog => Subtractor::Mog(MogSubtractor::new(settings.mog_settings)),
        SubtractorType::OpticalFlow => Subtractor::OpticalFlow(
            OfSubtractor::new(settings.of_settings),
        ),
        SubtractorType::Test => Subtractor::Test(TestSubtractor::new(settings.test_settings)),
    }
}

} // verus!
