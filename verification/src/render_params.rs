//! Integer-valued uniform parameters for the wrap-mode renderers.
//!
//! The camera math that fills these from floating-point world and zoom
//! values lives in the application shell; the tile-count arithmetic is
//! verified here.

use vstd::prelude::*;

verus! {

/// Parameters for mirror wrap rendering.
#[derive(Debug, Clone, Copy, PartialEq, Eq, Structural)]
pub struct MirrorParamsUniform {
    /// Number of copies to render (5 or 9).
    pub num_copies: u32,
}

impl MirrorParamsUniform {
    /// Create mirror parameters with the given copy count.
    pub fn new(num_copies: u32) -> (r: Self)
        ensures
            r.num_copies == num_copies,
    {
        MirrorParamsUniform { num_copies }
    }
}

/// Parameters for infinite wrap rendering: a rectangle of world-sized tiles
/// that covers the visible area.
#[derive(Debug, Clone, Copy, PartialEq, Eq, Structural)]
pub struct InfiniteParamsUniform {
    /// Start offset for tile grid X (can be negative).
    pub start_x: i32,
    /// Start offset for tile grid Y (can be negative).
    pub start_y: i32,
    /// Number of tile copies in X direction.
    pub num_copies_x: u32,
    /// Number of tile copies in Y direction.
    pub num_copies_y: u32,
}

impl InfiniteParamsUniform {
    /// Get total number of copies.
    pub fn total_copies(&self) -> (r: u32)
        requires
            self.num_copies_x * self.num_copies_y <= u32::MAX,
        ensures
            r == self.num_copies_x * self.num_copies_y,
    {
        self.num_copies_x * self.num_copies_y
    }
}

} // verus!
