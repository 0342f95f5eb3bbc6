//! Axis-aligned line segments with a collision margin.
//!
//! A completed region is hit-tested along its outline: each of its four
//! edges becomes a [`BoundLine`], a segment thickened by `margin` on all
//! sides so a thin boundary stays selectable with an imprecise pointer.

use vstd::prelude::*;

verus! {

/// A vertical or horizontal line segment in preview coordinates.
#[derive(Clone, Copy, Debug, PartialEq, Eq, Structural)]
pub enum Line {
    Vertical { x: u32, start_y: u32, end_y: u32 },
    Horizontal { y: u32, start_x: u32, end_x: u32 },
}

/// A line segment together with the collision margin that inflates its
/// click target.
#[derive(Clone, Copy, Debug, PartialEq, Eq, Structural)]
pub struct BoundLine {
    pub line: Line,
    pub margin: u32,
}

impl BoundLine {
    /// The point `(px, py)` lies within `margin` of the segment: within
    /// `margin` of the segment's axis coordinate, and within the segment's
    /// extent widened by `margin` at both ends. Inclusive at the boundary.
    pub open spec fn spec_collides(self, px: int, py: int) -> bool {
        match self.line {
            Line::Vertical { x, start_y, end_y } => {
                &&& px <= x + self.margin
                &&& px >= x - self.margin
                &&& py >= start_y - self.margin
                &&& py <= end_y + self.margin
            },
            Line::Horizontal { y, start_x, end_x } => {
                &&& py <= y + self.margin
                &&& py >= y - self.margin
                &&& px >= start_x - self.margin
                &&& px <= end_x + self.margin
            },
        }
    }

    pub fn horizontal(y: u32, start_x: u32, end_x: u32, margin: u32) -> (r: BoundLine)
        ensures
            r == (BoundLine { line: Line::Horizontal { y, start_x, end_x }, margin }),
    {
        BoundLine { line: Line::Horizontal { y, start_x, end_x }, margin }
    }

    pub fn vertical(x: u32, start_y: u32, end_y: u32, margin: u32) -> (r: BoundLine)
        ensures
            r == (BoundLine { line: Line::Vertical { x, start_y, end_y }, margin }),
    {
        BoundLine { line: Line::Vertical { x, start_y, end_y }, margin }
    }

    /// Inclusive hit test of `(px, py)` against this thickened segment.
    pub fn collides(&self, px: u32, py: u32) -> (r: bool)
        ensures
            r == self.spec_collides(px as int, py as int),
    {
        match self.line {
            Line::Vertical { x, start_y, end_y } => {
                px as u64 <= x as u64 + self.margin as u64
                    && px as u64 + self.margin as u64 >= x as u64
                    && py as u64 + self.margin as u64 >= start_y as u64
                    && py as u64 <= end_y as u64 + self.margin as u64
            },
            Line::Horizontal { y, start_x, end_x } => {
                py as u64 <= y as u64 + self.margin as u64
                    && py as u64 + self.margin as u64 >= y as u64
                    && px as u64 + self.margin as u64 >= start_x as u64
                    && px as u64 <= end_x as u64 + self.margin as u64
            },
        }
    }
}

} // verus!
