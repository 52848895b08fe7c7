//! Mixture-of-Gaussians strategy: an adaptive per-pixel background model.
//!
//! The Gaussian-mixture model itself is outside work: it lives with the
//! caller, who updates it at the configured learning rate on every frame and
//! hands its raw per-pixel foreground estimate in as a byte image (0 for
//! background, a positive value for foreground on a 0..255 scale).  The
//! verified part is what is decided on that estimate: thresholding the
//! foreground probability at one half, and the reset policy.

use crate::errors::ComputeError;
use crate::frame::{Frame, GrayImage, Mask};
use vstd::prelude::*;

verus! {

/// Parameters of the Gaussian-mixture model.  The ratios are fixed-point
/// thousandths: `background_ratio_milli == 650` means a background ratio of
/// 0.65, `noise_sigma_milli == 5200` a noise sigma of 5.2, and
/// `learning_rate_milli == 50` a learning rate of 0.05.
#[derive(Clone, Copy, Debug, PartialEq, Eq, Structural)]
pub struct MogSettings {
    pub history: i32,
    pub mixtures: i32,
    pub background_ratio_milli: i32,
    pub noise_sigma_milli: i32,
    pub learning_rate_milli: i32,
}

impl MogSettings {
    /// The stock configuration.
    pub fn default() -> (r: MogSettings)
        ensures
            r.history == 250,
            r.mixtures == 5,
            r.background_ratio_milli == 650,
            r.noise_sigma_milli == 5200,
            r.learning_rate_milli == 50,
    {
        MogSettings {
            history: 250,
            mixtures: 5,
            background_ratio_milli: 650,
            noise_sigma_milli: 5200,
            learning_rate_milli: 50,
        }
    }
}

/// The mixture-of-Gaussians strategy.  Only the immutable parameters live
/// here; the model they parameterize is rebuilt from them by its owner
/// whenever the strategy is reset.
pub struct MogSubtractor {
    pub settings: MogSettings,
}

impl MogSubtractor {
    /// Applying needs a model estimate of the input frame's geometry.
    pub open spec fn can_apply(self, img: Frame, model_output: GrayImage) -> bool {
        model_output.width == img.width && model_output.height == img.height
    }

    /// Mask bit of pixel `i`: the model's foreground estimate, on a 0..255
    /// scale, exceeds one half — that is, it is non-zero.
    pub open spec fn mask_bit(self, model_output: GrayImage, i: int) -> bool {
        model_output.data@[i] > 0
    }

    pub fn new(settings: MogSettings) -> (r: MogSubtractor)
        ensures
            r.settings == settings,
    {
        MogSubtractor { settings }
    }

    /// Thresholds the model's raw foreground estimate at one half.  The
    /// strategy state is untouched.
    pub fn apply(&mut self, input_img: &Frame, model_output: &GrayImage) -> (r: Result<
        Mask,
        ComputeError,
    >)
        requires
            input_img.wf(),
            model_output.wf(),
        ensures
            *final(self) == *old(self),
            r is Ok <==> old(self).can_apply(*input_img, *model_output),
            r matches Ok(m) ==> m.wf() && m.width == input_img.width
                && m.height == input_img.height
                && forall|i: int|
                    0 <= i < m.data@.len() ==> m.data@[i] == old(self).mask_bit(*model_output, i),
    {
        if model_output.width != input_img.width || model_output.height != input_img.height {
            return Err(ComputeError {});
        }
        let n: usize = model_output.data.len();
        let mut bits: Vec<bool> = Vec::new();
        let mut i: usize = 0;
        while i < n
            invariant
                i <= n,
                n == model_output.data@.len(),
                bits@.len() == i,
                forall|j: int| 0 <= j < i ==> bits@[j] == (model_output.data@[j] > 0),
            decreases n - i,
        {
            bits.push(model_output.data[i] > 0);
            i = i + 1;
        }
        let m = Mask { width: input_img.width, height: input_img.height, data: bits };
        assert(m.wf());
        Ok(m)
    }

    /// Resetting discards and rebuilds the model from the settings alone —
    /// the mixture model has no "seed with this image" primitive, so the
    /// supplied reference frame is deliberately ignored.  Nothing stored
    /// here changes; the model's owner rebuilds it from these settings.
    pub fn reset(&mut self)
        ensures
            *final(self) == *old(self),
    {
    }
}

} // verus!
