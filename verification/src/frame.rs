//! Image buffers moving through the pipeline: captured frames, grayscale
//! images, and binary foreground masks.

use vstd::prelude::*;

verus! {

/// Number of colour channels in a captured frame (blue, green, red).
pub const CHANNELS: usize = 3;

/// One captured image: an owned pixel buffer in row-major order with
/// `CHANNELS` bytes per pixel, plus the capture timestamp in milliseconds.
/// A frame is moved between threads, never shared.
pub struct Frame {
    pub width: usize,
    pub height: usize,
    pub data: Vec<u8>,
    pub timestamp: u64,
}

impl Frame {
    /// The buffer holds exactly `width * height` pixels of `CHANNELS` bytes each.
    pub open spec fn wf(self) -> bool {
        self.data@.len() == self.width * self.height * 3
    }

    /// Number of pixels in the frame.
    pub open spec fn pixel_count(self) -> int {
        self.width * self.height
    }

    /// Builds a frame after checking that the buffer matches the geometry.
    pub fn new(width: usize, height: usize, data: Vec<u8>, timestamp: u64) -> (r: Option<Frame>)
        ensures
            r matches Some(f) ==> f.wf() && f.width == width && f.height == height
                && f.data == data && f.timestamp == timestamp,
            r is None <==> data@.len() != width * height * 3,
    {
        let n: usize = data.len();
        if let Some(px) = width.checked_mul(height) {
            if let Some(total) = px.checked_mul(CHANNELS) {
                if n == total {
                    return Some(Frame { width, height, data, timestamp });
                }
                return None;
            }
            // px * CHANNELS exceeds usize::MAX, so no buffer can be that long.
            return None;
        }
        // width * height already exceeds usize::MAX.
        assert(width * height <= width * height * 3) by (nonlinear_arith);
        None
    }
}

/// A single-channel byte image: a grayscale view of a frame, or the raw
/// foreground estimate that an adaptive background model emits.
pub struct GrayImage {
    pub width: usize,
    pub height: usize,
    pub data: Vec<u8>,
}

impl GrayImage {
    /// The buffer holds exactly one byte per pixel.
    pub open spec fn wf(self) -> bool {
        self.data@.len() == self.width * self.height
    }

    /// Builds a grayscale image after checking that the buffer matches the geometry.
    pub fn new(width: usize, height: usize, data: Vec<u8>) -> (r: Option<GrayImage>)
        ensures
            r matches Some(g) ==> g.wf() && g.width == width && g.height == height
                && g.data == data,
            r is None <==> data@.len() != width * height,
    {
        let n: usize = data.len();
        if let Some(px) = width.checked_mul(height) {
            if n == px {
                return Some(GrayImage { width, height, data });
            }
            return None;
        }
        // width * height exceeds usize::MAX, so no buffer can be that long.
        None
    }
}

/// Number of `true` entries in a bit sequence.
pub open spec fn count_true(s: Seq<bool>) -> int
    decreases s.len(),
{
    if s.len() == 0 {
        0
    } else {
        count_true(s.drop_last()) + (if s.last() {
            1int
        } else {
            0int
        })
    }
}

/// A binary foreground mask with the same resolution as the frame it was
/// computed from: `true` marks a foreground (changed) pixel.
pub struct Mask {
    pub width: usize,
    pub height: usize,
    pub data: Vec<bool>,
}

impl Mask {
    /// The buffer holds exactly one bit per pixel.
    pub open spec fn wf(self) -> bool {
        self.data@.len() == self.width * self.height
    }

    /// No pixel is marked foreground.
    pub open spec fn all_false(self) -> bool {
        forall|i: int| 0 <= i < self.data@.len() ==> !self.data@[i]
    }

    /// Counts the foreground pixels; handy for consumers that only need
    /// activity levels.
    pub fn count_foreground(&self) -> (n: usize)
        ensures
            n == count_true(self.data@),
            n <= self.data@.len(),
            self.all_false() ==> n == 0,
    {
        let mut n: usize = 0;
        let mut i: usize = 0;
        while i < self.data.len()
            invariant
                i <= self.data@.len(),
                n <= i,
                n == count_true(self.data@.take(i as int)),
                self.all_false() ==> n == 0,
            decreases self.data@.len() - i,
        {
            proof {
                let taken = self.data@.take(i as int + 1);
                assert(taken.drop_last() =~= self.data@.take(i as int));
                assert(taken.last() == self.data@[i as int]);
            }
            if self.data[i] {
                assert(self.data@[i as int]);
                n = n + 1;
            }
            i = i + 1;
        }
        assert(self.data@.take(self.data@.len() as int) =~= self.data@);
        n
    }
}

} // verus!
