//! Optical-flow strategy: keeps one grayscale previous frame, thresholds a
//! dense flow field between it and the current frame, and stores the new
//! grayscale frame as "previous".
//!
//! Dense flow estimation itself (multi-scale, iterative, pyramidal) is
//! outside work performed by the caller, who hands the resulting
//! displacement field in as a [`FlowField`].  Everything decided on that
//! field — grayscaling, thresholding, the choice between flow magnitude and
//! signed vertical displacement, and the previous-frame bookkeeping — is
//! verified here.

use crate::errors::ComputeError;
use crate::frame::{Frame, GrayImage, Mask};
use vstd::prelude::*;

verus! {

/// Which scalar is derived from the per-pixel displacement `(dx, dy)` before
/// thresholding.
#[derive(Clone, Copy, Debug, PartialEq, Eq, Structural)]
pub enum OfOutputType {
    /// The flow magnitude `sqrt(dx^2 + dy^2)`.
    Magnitude,
    /// The signed upward displacement `-dy` (image rows grow downwards).
    YDirection,
}

/// Configuration of the optical-flow strategy.  The estimator parameters
/// (`scales` through `flags`) are handed unchanged to the dense-flow
/// estimator; `poly_sigma_milli` is its Gaussian smoothing sigma in
/// thousandths.  `mode` and `threshold` govern the verified mask derivation.
#[derive(Clone, Copy, Debug, PartialEq, Eq, Structural)]
pub struct OfSettings {
    pub mode: OfOutputType,
    pub scales: i32,
    pub win_size: i32,
    pub iterations: i32,
    pub poly_n: i32,
    pub poly_sigma_milli: i32,
    pub flags: i32,
    pub threshold: i32,
}

impl OfSettings {
    /// The stock configuration: upward-displacement mode with threshold 15.
    pub fn default() -> (r: OfSettings)
        ensures
            r.mode is YDirection,
            r.scales == 3,
            r.win_size == 15,
            r.iterations == 3,
            r.poly_n == 5,
            r.poly_sigma_milli == 1200,
            r.flags == 0,
            r.threshold == 15,
    {
        OfSettings {
            mode: OfOutputType::YDirection,
            scales: 3,
            win_size: 15,
            iterations: 3,
            poly_n: 5,
            poly_sigma_milli: 1200,
            flags: 0,
            threshold: 15,
        }
    }
}

/// A dense displacement field: per pixel, the horizontal and vertical
/// displacement in whole pixels, row-major like the frames it was computed
/// from.
pub struct FlowField {
    pub width: usize,
    pub height: usize,
    pub dx: Vec<i32>,
    pub dy: Vec<i32>,
}

impl FlowField {
    /// Both component buffers hold exactly one value per pixel.
    pub open spec fn wf(self) -> bool {
        self.dx@.len() == self.width * self.height && self.dy@.len() == self.width * self.height
    }

    /// Builds a flow field after checking that both buffers match the geometry.
    pub fn new(width: usize, height: usize, dx: Vec<i32>, dy: Vec<i32>) -> (r: Option<FlowField>)
        ensures
            r matches Some(f) ==> f.wf() && f.width == width && f.height == height
                && f.dx == dx && f.dy == dy,
            r is None <==> dx@.len() != width * height || dy@.len() != width * height,
    {
        let nx: usize = dx.len();
        let ny: usize = dy.len();
        if let Some(px) = width.checked_mul(height) {
            if nx == px && ny == px {
                return Some(FlowField { width, height, dx, dy });
            }
            return None;
        }
        // width * height exceeds usize::MAX, so no buffer can be that long.
        None
    }

    /// A zero displacement everywhere: what a flow estimate of a frame
    /// against itself degenerates to.
    pub open spec fn all_zero(self) -> bool {
        &&& forall|i: int| 0 <= i < self.dx@.len() ==> self.dx@[i] == 0
        &&& forall|i: int| 0 <= i < self.dy@.len() ==> self.dy@[i] == 0
    }
}

/// Grayscale value of pixel `i` of a colour buffer, by the usual luma
/// weights: `(299 R + 587 G + 114 B) / 1000`, rounded down.  The channels
/// are stored blue, green, red.
pub open spec fn luma(data: Seq<u8>, i: int) -> int {
    (299 * (data[3 * i + 2] as int) + 587 * (data[3 * i + 1] as int) + 114 * (data[3 * i] as int))
        / 1000
}

/// Converts a colour frame to its grayscale image.
pub fn grayscale(frame: &Frame) -> (r: GrayImage)
    requires
        frame.wf(),
    ensures
        r.wf(),
        r.width == frame.width,
        r.height == frame.height,
        forall|i: int| 0 <= i < r.data@.len() ==> r.data@[i] == luma(frame.data@, i),
{
    let ghost px: int = frame.pixel_count();
    assert(px >= 0) by (nonlinear_arith)
        requires
            px == frame.width * frame.height,
    ;
    let len: usize = frame.data.len();
    let n: usize = frame.width * frame.height;
    let mut gray: Vec<u8> = Vec::new();
    let mut i: usize = 0;
    while i < n
        invariant
            i <= n,
            n == px,
            len == frame.data@.len(),
            len == px * 3,
            gray@.len() == i,
            forall|j: int| 0 <= j < i ==> gray@[j] == luma(frame.data@, j),
        decreases n - i,
    {
        let base: usize = 3 * i;
        assert(base + 2 < len);
        let b: u32 = frame.data[base] as u32;
        let g: u32 = frame.data[base + 1] as u32;
        let r_: u32 = frame.data[base + 2] as u32;
        let weighted: u32 = 299 * r_ + 587 * g + 114 * b;
        let value: u32 = weighted / 1000;
        assert(value <= 255);
        gray.push(value as u8);
        i = i + 1;
    }
    let out = GrayImage { width: frame.width, height: frame.height, data: gray };
    assert(out.wf());
    out
}

/// Whether a displacement `(dx, dy)` exceeds the configured threshold in the
/// given mode.  In magnitude mode, `sqrt(dx^2 + dy^2) > t` is decided as
/// `dx^2 + dy^2 > t^2` for a non-negative `t` (and is always true for a
/// negative `t`, since a magnitude is never negative).
pub open spec fn flow_exceeds(mode: OfOutputType, threshold: int, dx: int, dy: int) -> bool {
    match mode {
        OfOutputType::Magnitude => threshold < 0 || dx * dx + dy * dy > threshold * threshold,
        OfOutputType::YDirection => -dy > threshold,
    }
}

/// The square of an i32-ranged value is non-negative and fits easily below
/// the i128 limits.
proof fn lemma_i32_square_bounded(v: int)
    requires
        i32::MIN <= v <= i32::MAX,
    ensures
        0 <= v * v <= 0x4000_0000_0000_0000,
{
    assert(0 <= v * v <= 0x4000_0000_0000_0000) by (nonlinear_arith)
        requires
            -0x8000_0000 <= v <= 0x7FFF_FFFF,
    ;
}

/// The optical-flow strategy: its settings and the stored grayscale
/// previous frame, if any.
pub struct OfSubtractor {
    pub settings: OfSettings,
    /// `None` before the first `apply` and after every reset.
    pub prev_img: Option<GrayImage>,
}

impl OfSubtractor {
    /// A stored previous frame, if any, is well formed.
    pub open spec fn wf(self) -> bool {
        self.prev_img matches Some(g) ==> g.wf()
    }

    /// Applying needs a flow field of the input frame's geometry.
    pub open spec fn can_apply(self, img: Frame, flow: FlowField) -> bool {
        flow.width == img.width && flow.height == img.height
    }

    /// Mask bit of pixel `i`: the displacement exceeds the threshold.
    pub open spec fn mask_bit(self, flow: FlowField, i: int) -> bool {
        flow_exceeds(
            self.settings.mode,
            self.settings.threshold as int,
            flow.dx@[i] as int,
            flow.dy@[i] as int,
        )
    }

    /// How one successful `apply` on `img` changes the state: the settings
    /// stay, and the grayscale of `img` becomes the previous frame.
    pub open spec fn apply_transition(pre: OfSubtractor, post: OfSubtractor, img: Frame) -> bool {
        &&& post.settings == pre.settings
        &&& post.prev_img matches Some(g) && g.width == img.width && g.height == img.height
            && g.data@.len() == img.pixel_count()
            && forall|i: int| 0 <= i < g.data@.len() ==> g.data@[i] == luma(img.data@, i)
    }

    pub fn new(settings: OfSettings) -> (r: OfSubtractor)
        ensures
            r.settings == settings,
            r.prev_img is None,
    {
        OfSubtractor { settings, prev_img: None }
    }

    /// Thresholds the displacement field into a mask and stores the
    /// grayscale input as the new previous frame.
    ///
    /// `flow` is the caller's dense flow estimate between the stored
    /// previous frame and the grayscale of `input_img`.  On the first-ever
    /// call there is no previous frame; the caller then estimates flow of
    /// the frame against itself, and this call still succeeds and returns a
    /// well-formed (typically all-false) mask — it never fails for want of
    /// a previous frame.
    pub fn apply(&mut self, input_img: &Frame, flow: &FlowField) -> (r: Result<
        Mask,
        ComputeError,
    >)
        requires
            old(self).wf(),
            input_img.wf(),
            flow.wf(),
        ensures
            final(self).wf(),
            r is Ok <==> old(self).can_apply(*input_img, *flow),
            r is Err ==> *final(self) == *old(self),
            r matches Ok(m) ==> m.wf() && m.width == input_img.width
                && m.height == input_img.height
                && forall|i: int|
                    0 <= i < m.data@.len() ==> m.data@[i] == old(self).mask_bit(*flow, i),
            r is Ok ==> Self::apply_transition(*old(self), *final(self), *input_img),
    {
        if flow.width != input_img.width || flow.height != input_img.height {
            return Err(ComputeError {});
        }
        let mode = self.settings.mode;
        let threshold = self.settings.threshold;
        let n: usize = flow.dx.len();
        let mut bits: Vec<bool> = Vec::new();
        let mut i: usize = 0;
        while i < n
            invariant
                i <= n,
                n == flow.dx@.len(),
                flow.dy@.len() == n,
                bits@.len() == i,
                forall|j: int|
                    0 <= j < i ==> bits@[j] == flow_exceeds(
                        mode,
                        threshold as int,
                        flow.dx@[j] as int,
                        flow.dy@[j] as int,
                    ),
            decreases n - i,
        {
            let dx: i32 = flow.dx[i];
            let dy: i32 = flow.dy[i];
            let exceeded: bool = match mode {
                OfOutputType::Magnitude => {
                    if threshold < 0 {
                        true
                    } else {
                        proof {
                            lemma_i32_square_bounded(dx as int);
                            lemma_i32_square_bounded(dy as int);
                            lemma_i32_square_bounded(threshold as int);
                        }
                        let sq: i128 = (dx as i128) * (dx as i128) + (dy as i128) * (dy as i128);
                        let tsq: i128 = (threshold as i128) * (threshold as i128);
                        sq > tsq
                    }
                },
                OfOutputType::YDirection => {
                    // -dy > threshold, computed in i64 so that dy == i32::MIN
                    // cannot overflow.
                    -(dy as i64) > threshold as i64
                },
            };
            assert(exceeded == flow_exceeds(mode, threshold as int, dx as int, dy as int));
            bits.push(exceeded);
            i = i + 1;
        }
        let gray = grayscale(input_img);
        self.prev_img = Some(gray);
        let m = Mask { width: input_img.width, height: input_img.height, data: bits };
        assert(m.wf());
        Ok(m)
    }

    /// Clears the previous-frame buffer; the settings stay.
    pub fn reset(&mut self)
        ensures
            final(self).settings == old(self).settings,
            final(self).prev_img is None,
    {
        self.prev_img = None;
    }
}

/// Law: on the first-ever `apply` there is no previous frame and the flow is
/// estimated between the grayscale input and itself; on a zero flow field
/// with a non-negative threshold every mask bit is false, so the degenerate
/// first mask is the all-false mask.
pub proof fn lemma_first_apply_mask_empty(s: OfSubtractor, flow: FlowField)
    requires
        flow.wf(),
        flow.all_zero(),
        s.settings.threshold >= 0,
    ensures
        forall|i: int| 0 <= i < flow.dx@.len() ==> !s.mask_bit(flow, i),
{
    assert forall|i: int| 0 <= i < flow.dx@.len() implies !s.mask_bit(flow, i) by {
        assert(flow.dx@[i] == 0 && flow.dy@[i] == 0);
    }
}

} // verus!
