use vstd::prelude::*;

verus! {

/// Dimensions of a loaded image, in pixels.
#[derive(Clone, Copy, Debug, PartialEq, Eq, Structural)]
pub struct ImageDims {
    pub nrows: u32,
    pub ncols: u32,
}

impl ImageDims {
    /// Number of bytes of an RGBA pixel buffer for these dimensions:
    /// four bytes per pixel.
    pub open spec fn byte_count(self) -> int {
        4 * self.ncols * self.nrows
    }

    /// A loaded image has positive dimensions, and its four-bytes-per-pixel
    /// buffer length fits in `u32`.
    pub open spec fn wf(self) -> bool {
        &&& self.nrows >= 1
        &&& self.ncols >= 1
        &&& self.byte_count() <= u32::MAX
    }

    pub fn num_pixels(&self) -> (n: u32)
        requires
            self.wf(),
        ensures
            n == self.ncols * self.nrows,
    {
        proof {
            assert(self.ncols * self.nrows <= 4 * self.ncols * self.nrows)
                by (nonlinear_arith)
                requires self.ncols >= 1 && self.nrows >= 1;
        }
        self.ncols * self.nrows
    }
}

} // verus!
