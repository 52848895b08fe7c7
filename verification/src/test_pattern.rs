//! Test-pattern strategy: ignores the input frame's pixels and returns a
//! synthetic mask — a filled rectangle at a configured position and size —
//! so the pipeline can be validated without a real camera.

use crate::errors::ComputeError;
use crate::frame::{Frame, Mask};
use vstd::prelude::*;

verus! {

/// Position and size of the synthetic foreground box, in pixels.  Either may
/// reach outside the frame; the box is clipped at the frame's edges.
#[derive(Clone, Copy, Debug, PartialEq, Eq)]
pub struct TestSettings {
    pub test_box_pos: (i32, i32),
    pub test_box_size: (i32, i32),
}

impl TestSettings {
    /// The stock configuration: a 200 x 200 box at the origin.
    pub fn default() -> (r: TestSettings)
        ensures
            r.test_box_pos == (0i32, 0i32),
            r.test_box_size == (200i32, 200i32),
    {
        TestSettings { test_box_pos: (0, 0), test_box_size: (200, 200) }
    }
}

/// The test-pattern strategy; it keeps no state beyond its settings.
pub struct TestSubtractor {
    pub settings: TestSettings,
}

impl TestSubtractor {
    /// Pixel column `x`, row `y` lies inside the configured box.
    pub open spec fn in_box(self, x: int, y: int) -> bool {
        &&& self.settings.test_box_pos.0 <= x < self.settings.test_box_pos.0
            + self.settings.test_box_size.0
        &&& self.settings.test_box_pos.1 <= y < self.settings.test_box_pos.1
            + self.settings.test_box_size.1
    }

    /// Mask bit of pixel `i` in row-major order.
    pub open spec fn mask_bit(self, img: Frame, i: int) -> bool {
        img.width > 0 && self.in_box(i % (img.width as int), i / (img.width as int))
    }

    pub fn new(settings: TestSettings) -> (r: TestSubtractor)
        ensures
            r.settings == settings,
    {
        TestSubtractor { settings }
    }

    /// Rasterizes the configured box, clipped to the frame, as the mask.
    /// The input pixels are ignored; only the frame's geometry matters.
    pub fn apply(&mut self, input_img: &Frame) -> (r: Result<Mask, ComputeError>)
        requires
            input_img.wf(),
        ensures
            *final(self) == *old(self),
            r is Ok,
            r matches Ok(m) ==> m.wf() && m.width == input_img.width
                && m.height == input_img.height
                && forall|i: int|
                    0 <= i < m.data@.len() ==> m.data@[i] == old(self).mask_bit(*input_img, i),
    {
        let w: usize = input_img.width;
        let h: usize = input_img.height;
        let ghost px: int = input_img.pixel_count();
        assert(px >= 0 && px <= px * 3) by (nonlinear_arith)
            requires
                px == w * h,
        ;
        // The buffer length, a usize, is three times the pixel count, so the
        // pixel count itself cannot overflow usize.
        let len: usize = input_img.data.len();
        let n: usize = w * h;
        let mut bits: Vec<bool> = Vec::new();
        let mut y: usize = 0;
        while y < h
            invariant
                y <= h,
                n == px,
                n == w * h,
                bits@.len() == y * w,
                forall|j: int|
                    0 <= j < bits@.len() ==> bits@[j] == old(self).mask_bit(*input_img, j),
                *self == *old(self),
                w == input_img.width,
                h == input_img.height,
            decreases h - y,
        {
            let mut x: usize = 0;
            while x < w
                invariant
                    x <= w,
                    y < h,
                    n == px,
                    n == w * h,
                    bits@.len() == y * w + x,
                    forall|j: int|
                        0 <= j < bits@.len() ==> bits@[j] == old(self).mask_bit(*input_img, j),
                    *self == *old(self),
                    w == input_img.width,
                    h == input_img.height,
                decreases w - x,
            {
                assert(y * w + x < n) by (nonlinear_arith)
                    requires
                        x < w,
                        y < h,
                        n == w * h,
                ;
                let inside = self.box_test(x, y);
                proof {
                    let j: int = y * w + x;
                    vstd::arithmetic::div_mod::lemma_fundamental_div_mod_converse(
                        j,
                        w as int,
                        y as int,
                        x as int,
                    );
                    assert(j % (w as int) == x as int && j / (w as int) == y as int);
                    assert(inside == old(self).mask_bit(*input_img, j));
                }
                bits.push(inside);
                x = x + 1;
            }
            assert((y + 1) * w == y * w + w) by (nonlinear_arith);
            y = y + 1;
        }
        assert(bits@.len() == n) by (nonlinear_arith)
            requires
                bits@.len() == y * w,
                y == h,
                n == w * h,
        ;
        let m = Mask { width: w, height: h, data: bits };
        assert(m.wf());
        Ok(m)
    }

    /// Exec test of `in_box`, with the coordinate arithmetic done in i64 so
    /// that boxes touching the i32 limits cannot overflow.
    fn box_test(&self, x: usize, y: usize) -> (r: bool)
        ensures
            r == self.in_box(x as int, y as int),
    {
        let bx: i64 = self.settings.test_box_pos.0 as i64;
        let by: i64 = self.settings.test_box_pos.1 as i64;
        let bw: i64 = self.settings.test_box_size.0 as i64;
        let bh: i64 = self.settings.test_box_size.1 as i64;
        if x > u32::MAX as usize || y > u32::MAX as usize {
            // Such a coordinate lies beyond the reach of any i32 box.
            assert(!self.in_box(x as int, y as int));
            return false;
        }
        let xi: i64 = x as i64;
        let yi: i64 = y as i64;
        bx <= xi && xi - bx < bw && by <= yi && yi - by < bh
    }

    /// Resetting the test pattern is a no-op.
    pub fn reset(&mut self)
        ensures
            *final(self) == *old(self),
    {
    }
}

} // verus!
