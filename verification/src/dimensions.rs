use vstd::prelude::*;

verus! {

/// Width and height of an extent, measured either in pixels or in grid
/// cells depending on context.
#[derive(Clone, Copy, PartialEq, Eq, Structural, Debug)]
pub struct Dimensions {
    pub width: u64,
    pub height: u64,
}

impl Dimensions {
    /// Elementwise division: how many whole grid cells fit into a pixel
    /// extent, given the pixel size of one cell.
    pub fn div_elementwise(&self, cell: &Dimensions) -> (r: Dimensions)
        requires
            cell.width > 0,
            cell.height > 0,
        ensures
            r.width == self.width / cell.width,
            r.height == self.height / cell.height,
    {
        Dimensions { width: self.width / cell.width, height: self.height / cell.height }
    }

    /// Elementwise multiplication: the pixel extent covered by a grid
    /// extent, given the pixel size of one cell.
    pub fn mul_elementwise(&self, cell: &Dimensions) -> (r: Dimensions)
        requires
            self.width * cell.width <= u64::MAX,
            self.height * cell.height <= u64::MAX,
        ensures
            r.width == self.width * cell.width,
            r.height == self.height * cell.height,
    {
        Dimensions { width: self.width * cell.width, height: self.height * cell.height }
    }
}

} // verus!
