//! A stroke: an ordered sequence of points drawn with one brush.

use vstd::prelude::*;
use crate::brush::Brush;
use crate::values::Point;

verus! {

/// One stroke of the pen. A stroke is only accepted into a layer's history
/// once it has at least two points (see [`crate::Instruction::is_valid`]);
/// the builder itself places no lower bound, so strokes can be grown a
/// point at a time.
#[derive(Debug, Clone, PartialEq)]
pub struct Stroke {
    /// The points of the stroke, in drawing order.
    pub points: Vec<Point>,
    /// The brush the stroke is drawn with.
    pub brush: Brush,
}

impl Stroke {
    /// Creates a stroke from its points and brush.
    pub fn new(points: Vec<Point>, brush: Brush) -> (r: Stroke)
        ensures
            r.points@ == points@,
            r.brush == brush,
    {
        Stroke { points, brush }
    }

    /// Replaces the brush of the stroke.
    pub fn set_brush(&mut self, brush: Brush)
        ensures
            final(self).brush == brush,
            final(self).points@ == old(self).points@,
    {
        self.brush = brush;
    }

    /// Appends one point to the stroke.
    pub fn add_point(&mut self, point: Point)
        ensures
            final(self).points@ == old(self).points@.push(point),
            final(self).brush == old(self).brush,
    {
        self.points.push(point);
    }
}

} // verus!
