//! Opaque value types produced by external collaborators (input devices,
//! color pickers). This core stores them and never interprets them.

use vstd::prelude::*;

verus! {

/// A 2D input coordinate. Produced by an external input collaborator;
/// treated here as an immutable plain value.
#[derive(Clone, Copy, Debug, PartialEq, Eq, Structural)]
pub struct Point {
    pub x: i64,
    pub y: i64,
}

/// An RGBA color. Produced by an external collaborator; treated here as an
/// immutable plain value.
#[derive(Clone, Copy, Debug, PartialEq, Eq, Structural)]
pub struct Color {
    pub r: u8,
    pub g: u8,
    pub b: u8,
    pub a: u8,
}

impl Default for Color {
    /// Opaque black.
    fn default() -> (r: Color)
        ensures
            r == (Color { r: 0, g: 0, b: 0, a: 255 }),
    {
        Color { r: 0, g: 0, b: 0, a: 255 }
    }
}

} // verus!
