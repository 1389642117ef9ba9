//! The rectangular screen region a caller selects for monitoring.

use vstd::prelude::*;

verus! {

/// A rectangular region of the screen, in pixel coordinates.
///
/// Width and height may be non-positive only as invalid input: every region
/// accepted into the shared state satisfies [`Region::is_valid`].
#[derive(Clone, Copy, Debug, PartialEq, Eq, Structural)]
pub struct Region {
    /// X-coordinate of the top-left corner (in pixels).
    pub x: i32,
    /// Y-coordinate of the top-left corner (in pixels).
    pub y: i32,
    /// Width of the region (in pixels).
    pub width: i32,
    /// Height of the region (in pixels).
    pub height: i32,
}

impl Region {
    /// A region is valid exactly when both of its dimensions are positive.
    pub open spec fn spec_valid(self) -> bool {
        self.width > 0 && self.height > 0
    }

    /// Creates a new region with the given coordinates and dimensions.
    pub fn new(x: i32, y: i32, width: i32, height: i32) -> (r: Region)
        ensures
            r == (Region { x, y, width, height }),
    {
        Region { x, y, width, height }
    }

    /// Validates that the region has positive dimensions.
    pub fn is_valid(&self) -> (r: bool)
        ensures
            r == self.spec_valid(),
    {
        self.width > 0 && self.height > 0
    }

    /// Returns the area of the region in pixels.
    pub fn area(&self) -> (r: i32)
        requires
            i32::MIN <= self.width * self.height <= i32::MAX,
        ensures
            r == self.width * self.height,
    {
        self.width * self.height
    }
}

/// A request to set the screen region to monitor.
#[derive(Clone, Copy, Debug, PartialEq, Eq, Structural)]
pub struct SetRegionRequest {
    /// The region to monitor.
    pub region: Region,
}

} // verus!
