//! Drawable instructions: the actions a layer records in its history.

use vstd::prelude::*;
use crate::insert_image::ImageInsertion;
use crate::stroke::Stroke;

verus! {

/// A camera or canvas motion. Its payload is opaque to this core: it is
/// recorded and replayed, never interpreted.
#[derive(Clone, Copy, Debug, PartialEq, Eq, Structural)]
pub struct Motion {
    pub dx: i64,
    pub dy: i64,
}

/// A single drawable action.
#[derive(Debug, Clone, PartialEq)]
pub enum Instruction {
    /// A stroke of the pen.
    Stroke(Stroke),
    /// A motion; opaque to this core.
    Motion(Motion),
    /// An embedded image; its payload is opaque to this core.
    ImageInsertion(ImageInsertion),
}

impl Instruction {
    /// Structural validity: a stroke must carry at least two points, so that
    /// it describes at least one segment. Motions and image insertions have
    /// no structural validation here.
    pub open spec fn is_valid(&self) -> bool {
        match self {
            Instruction::Stroke(s) => s.points@.len() >= 2,
            _ => true,
        }
    }
}

/// An instruction paired with its identifier. The identifier is assigned by
/// the caller or the surrounding system; external collaborators use it to
/// reference or merge instructions, and this core preserves it untouched.
#[derive(Debug, Clone, PartialEq)]
pub struct InstructionBox {
    /// The instruction itself.
    pub instruction: Instruction,
    /// The caller-assigned identifier of the instruction.
    pub uuid: String,
}

} // verus!
