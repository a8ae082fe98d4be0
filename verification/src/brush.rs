//! Brush styles: how a stroke's points are rendered. A brush is a pure
//! value; this core records it on each stroke and never interprets it.

use vstd::prelude::*;
use crate::values::{Color, Point};

verus! {

/// Whether `bits`, read as the bit pattern of an IEEE-754 binary32 number,
/// denotes a strictly positive width. The positive numbers (including
/// positive infinity, excluding zeros and NaNs) are exactly the patterns in
/// `1 ..= 0x7F80_0000`.
pub open spec fn width_is_positive(bits: u32) -> bool {
    0 < bits <= 0x7F80_0000
}

/// How to draw a stroke. The rasterizer that consumes it is an external
/// collaborator; this core only stores the description.
#[derive(Debug, Clone, PartialEq)]
pub struct Brush {
    /// The shape of the brush tip.
    pub brush_type: BrushType,
    /// The color of the brush.
    pub color: Color,
    /// The width (diameter) of the brush, stored as the bit pattern of an
    /// IEEE-754 binary32 number. The core never computes with the width, so
    /// it keeps the exact bits; producers and consumers convert at the edge.
    pub width_bits: u32,
}

/// The bit pattern of the binary32 number 1.0, the default brush width.
pub const DEFAULT_WIDTH_BITS: u32 = 0x3F80_0000;

impl Default for Brush {
    /// A solid brush of the default color, one unit wide.
    fn default() -> (r: Brush)
        ensures
            r.brush_type is Solid,
            r.color == (Color { r: 0, g: 0, b: 0, a: 255 }),
            r.width_bits == DEFAULT_WIDTH_BITS,
            r.wf(),
    {
        Brush {
            brush_type: BrushType::Solid,
            color: Color::default(),
            width_bits: DEFAULT_WIDTH_BITS,
        }
    }
}

impl Brush {
    /// A brush is well formed when its width denotes a positive number.
    pub open spec fn wf(&self) -> bool {
        width_is_positive(self.width_bits)
    }

    /// Creates a brush with the given properties. The width must denote a
    /// positive number: a zero, negative or NaN width would be meaningless
    /// to a rasterizer, so construction rules it out.
    pub fn new(brush_type: BrushType, color: Color, width_bits: u32) -> (r: Brush)
        requires
            width_is_positive(width_bits),
        ensures
            r.brush_type == brush_type,
            r.color == color,
            r.width_bits == width_bits,
            r.wf(),
    {
        Brush { brush_type, color, width_bits }
    }

    /// Updates the color of the brush.
    pub fn set_color(&mut self, color: Color)
        ensures
            final(self).color == color,
            final(self).brush_type == old(self).brush_type,
            final(self).width_bits == old(self).width_bits,
    {
        self.color = color;
    }

    /// Updates the width of the brush; the new width must denote a positive
    /// number.
    pub fn set_width(&mut self, width_bits: u32)
        requires
            width_is_positive(width_bits),
        ensures
            final(self).width_bits == width_bits,
            final(self).brush_type == old(self).brush_type,
            final(self).color == old(self).color,
            final(self).wf(),
    {
        self.width_bits = width_bits;
    }

    /// Updates the type of the brush.
    pub fn set_brush_type(&mut self, brush_type: BrushType)
        ensures
            final(self).brush_type == brush_type,
            final(self).color == old(self).color,
            final(self).width_bits == old(self).width_bits,
    {
        self.brush_type = brush_type;
    }
}

/// The shape of a brush tip.
#[derive(Debug, Clone, PartialEq)]
pub enum BrushType {
    /// A solid circle.
    Solid,
    /// A circular eraser.
    Eraser,
    /// A circular brush; the payload is the amount of diffusion around it.
    Brush(usize),
    /// A brush built from caller-supplied polygons.
    Custom(CustomBrush),
}

/// A brush tip built from polygons: a sequence of shapes, each an ordered
/// sequence of points whose last point is implicitly linked to its first.
#[derive(Debug, Clone, PartialEq)]
pub struct CustomBrush {
    points: Vec<Vec<Point>>,
}

impl CustomBrush {
    /// The polygons of the brush, as sequences of points.
    pub closed spec fn polygons(&self) -> Seq<Seq<Point>> {
        self.points@.map_values(|poly: Vec<Point>| poly@)
    }

    /// Creates a custom brush from its polygons.
    pub fn new(points: Vec<Vec<Point>>) -> (r: CustomBrush)
        ensures
            r.polygons() == points@.map_values(|poly: Vec<Point>| poly@),
    {
        CustomBrush { points }
    }

    /// Read access to the polygons.
    pub fn points(&self) -> (r: &Vec<Vec<Point>>)
        ensures
            r@.map_values(|poly: Vec<Point>| poly@) == self.polygons(),
    {
        &self.points
    }
}

} // verus!
