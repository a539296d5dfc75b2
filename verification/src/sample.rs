//! The input of the sonification engine: one grayscale grid cell.

use vstd::prelude::*;
use crate::config::{GRID_HEIGHT, GRID_WIDTH};

verus! {

/// One cell of the fixed luminance-sampling grid: a grid coordinate and
/// the grayscale brightness sampled there.
///
/// The image sampler produces exactly one such value for every cell of the
/// `GRID_WIDTH x GRID_HEIGHT` grid; the sonification engine consumes each
/// value exactly once.
#[derive(Clone, Copy, Debug, PartialEq, Eq, Structural)]
pub struct LuminanceSample {
    /// Grid column, counted from the left edge; less than `GRID_WIDTH`.
    pub x: u32,
    /// Grid row, counted from the top edge; less than `GRID_HEIGHT`.
    pub y: u32,
    /// Grayscale brightness of the cell, darkest at 0 and brightest at 255.
    pub luminance: u8,
}

impl LuminanceSample {
    /// The coordinate lies inside the fixed sampling grid.
    pub open spec fn wf(self) -> bool {
        self.x < GRID_WIDTH && self.y < GRID_HEIGHT
    }

    /// Builds a sample from a grid coordinate and a brightness value.
    pub fn new(x: u32, y: u32, luminance: u8) -> (r: Self)
        requires
            x < GRID_WIDTH,
            y < GRID_HEIGHT,
        ensures
            r == (LuminanceSample { x, y, luminance }),
            r.wf(),
    {
        LuminanceSample { x, y, luminance }
    }
}

} // verus!
