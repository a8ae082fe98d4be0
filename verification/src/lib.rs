//! Document model for a layered drawing editor.
//!
//! Each [`Layer`] keeps an append-only log of drawing instructions with a
//! movable cursor giving linear undo/redo; a [`Drawing`] composes named
//! layers into one document with an explicit stacking order and fixed canvas
//! dimensions. Rendering, image decoding, transport and persistence are
//! external collaborators: this crate records, validates, orders and replays
//! instructions, nothing more.

mod brush;
mod drawing;
mod error;
mod layer;
mod insert_image;
mod instruction;
mod stroke;
mod values;

pub use brush::{Brush, BrushType, CustomBrush, DEFAULT_WIDTH_BITS, width_is_positive};
pub use drawing::{Drawing, DrawingView};
pub use error::Error;
pub use insert_image::ImageInsertion;
pub use layer::{Layer, LayerView, lemma_undo_redo_restores_rendered};
pub use instruction::{Instruction, InstructionBox, Motion};
pub use stroke::Stroke;
pub use values::{Color, Point};
