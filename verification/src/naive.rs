//! Naive frame-difference strategy: a pixel is foreground when the sum over
//! the colour channels of the absolute difference between the frame and the
//! stored reference background exceeds a configured threshold.

use crate::errors::ComputeError;
use crate::frame::{Frame, Mask, CHANNELS};
use vstd::prelude::*;

verus! {

/// Configuration of the naive frame-difference strategy.
#[derive(Clone, Copy, Debug, PartialEq, Eq, Structural)]
pub struct NaiveSettings {
    /// The summed per-channel absolute difference of a pixel must exceed
    /// this value for the pixel to count as foreground.
    pub threshold_per_channel: u32,
}

impl NaiveSettings {
    /// The stock configuration: a threshold of 50.
    pub fn default() -> (r: NaiveSettings)
        ensures
            r.threshold_per_channel == 50,
    {
        NaiveSettings { threshold_per_channel: 50 }
    }
}

/// `|a - b|` over mathematical integers.
pub open spec fn abs_diff(a: int, b: int) -> int {
    if a >= b {
        a - b
    } else {
        b - a
    }
}

/// Sum over the `CHANNELS` bytes of pixel `i` of the absolute difference
/// between an image buffer and a reference buffer.
pub open spec fn pixel_abs_diff_sum(img: Seq<u8>, reference: Seq<u8>, i: int) -> int {
    abs_diff(img[3 * i] as int, reference[3 * i] as int)
        + abs_diff(img[3 * i + 1] as int, reference[3 * i + 1] as int)
        + abs_diff(img[3 * i + 2] as int, reference[3 * i + 2] as int)
}

/// The naive strategy: a stored reference background and a threshold.
/// Resetting replaces the reference losslessly in O(1).
pub struct NaiveSubtractor {
    /// The reference background; `None` until the first reset.
    pub background_approximation: Option<Frame>,
    pub settings: NaiveSettings,
}

impl NaiveSubtractor {
    /// A stored reference, if any, is a well-formed frame.
    pub open spec fn wf(self) -> bool {
        self.background_approximation matches Some(f) ==> f.wf()
    }

    /// Applying needs a stored reference of the input frame's geometry.
    pub open spec fn can_apply(self, img: Frame) -> bool {
        self.background_approximation matches Some(r) && r.width == img.width
            && r.height == img.height
    }

    /// Mask bit of pixel `i`: summed absolute difference above the threshold.
    pub open spec fn mask_bit(self, img: Frame, i: int) -> bool {
        pixel_abs_diff_sum(
            img.data@,
            self.background_approximation->Some_0.data@,
            i,
        ) > self.settings.threshold_per_channel
    }

    /// The state after resetting against `background_img`.
    pub open spec fn after_reset(self, background_img: Frame) -> NaiveSubtractor {
        NaiveSubtractor {
            background_approximation: Some(background_img),
            settings: self.settings,
        }
    }

    pub fn new(settings: NaiveSettings) -> (r: NaiveSubtractor)
        ensures
            r.background_approximation is None,
            r.settings == settings,
    {
        NaiveSubtractor { background_approximation: None, settings }
    }

    /// Thresholds the summed per-channel absolute difference of every pixel
    /// against the stored reference.  The strategy state is untouched.
    pub fn apply(&mut self, input_img: &Frame) -> (r: Result<Mask, ComputeError>)
        requires
            old(self).wf(),
            input_img.wf(),
        ensures
            *final(self) == *old(self),
            r is Ok <==> old(self).can_apply(*input_img),
            r matches Ok(m) ==> m.wf() && m.width == input_img.width
                && m.height == input_img.height
                && forall|i: int|
                    0 <= i < m.data@.len() ==> m.data@[i] == old(self).mask_bit(*input_img, i),
    {
        let threshold = self.settings.threshold_per_channel;
        match &self.background_approximation {
            Option::None => Err(ComputeError {}),
            Option::Some(reference) => {
                if reference.width != input_img.width || reference.height != input_img.height {
                    return Err(ComputeError {});
                }
                let ghost px: int = input_img.pixel_count();
                assert(px >= 0) by (nonlinear_arith)
                    requires
                        px == input_img.width * input_img.height,
                ;
                let len: usize = input_img.data.len();
                assert(len == px * 3);
                let n: usize = input_img.width * input_img.height;
                let mut bits: Vec<bool> = Vec::new();
                let mut i: usize = 0;
                while i < n
                    invariant
                        i <= n,
                        n == px,
                        len == input_img.data@.len(),
                        len == px * 3,
                        reference.data@.len() == len,
                        bits@.len() == i,
                        forall|j: int|
                            0 <= j < i ==> bits@[j] == (pixel_abs_diff_sum(
                                input_img.data@,
                                reference.data@,
                                j,
                            ) > threshold),
                    decreases n - i,
                {
                    let base: usize = CHANNELS * i;
                    assert(base + 2 < len);
                    let d0 = byte_abs_diff(input_img.data[base], reference.data[base]);
                    let d1 = byte_abs_diff(input_img.data[base + 1], reference.data[base + 1]);
                    let d2 = byte_abs_diff(input_img.data[base + 2], reference.data[base + 2]);
                    let sum: u32 = d0 + d1 + d2;
                    assert(sum == pixel_abs_diff_sum(input_img.data@, reference.data@, i as int));
                    bits.push(sum > threshold);
                    i = i + 1;
                }
                let m = Mask { width: input_img.width, height: input_img.height, data: bits };
                assert(m.wf());
                Ok(m)
            }
        }
    }

    /// Replaces the stored reference background; nothing else changes.
    pub fn reset(&mut self, background_img: Frame)
        ensures
            *final(self) == old(self).after_reset(background_img),
    {
        self.background_approximation = Some(background_img);
    }
}

/// `|a - b|` for two bytes, without leaving `u32`.
fn byte_abs_diff(a: u8, b: u8) -> (d: u32)
    ensures
        d == abs_diff(a as int, b as int),
        d <= 255,
{
    if a >= b {
        (a - b) as u32
    } else {
        (b - a) as u32
    }
}

/// Law: resetting twice against the same frame leaves the strategy in the
/// same state as resetting once — so any later `apply`, on any frame `g`,
/// succeeds in one case exactly when it succeeds in the other and yields
/// the same mask bits.
pub proof fn lemma_reset_idempotent(s: NaiveSubtractor, f: Frame)
    ensures
        s.after_reset(f).after_reset(f) == s.after_reset(f),
        forall|g: Frame|
            s.after_reset(f).after_reset(f).can_apply(g) == #[trigger] s.after_reset(f).can_apply(
                g,
            ),
        forall|g: Frame, i: int|
            s.after_reset(f).after_reset(f).mask_bit(g, i) == #[trigger] s.after_reset(
                f,
            ).mask_bit(g, i),
{
}

/// Law: after resetting against `f`, applying to `f` itself succeeds and
/// yields the all-false mask — every pixel differs from itself by zero,
/// which never exceeds the (non-negative) threshold.
pub proof fn lemma_reset_apply_round_trip(s: NaiveSubtractor, f: Frame)
    requires
        f.wf(),
    ensures
        s.after_reset(f).can_apply(f),
        forall|i: int| 0 <= i < f.pixel_count() ==> !s.after_reset(f).mask_bit(f, i),
{
    assert forall|i: int| 0 <= i < f.pixel_count() implies !s.after_reset(f).mask_bit(f, i) by {
        assert(pixel_abs_diff_sum(f.data@, f.data@, i) == 0);
    }
}

} // verus!
