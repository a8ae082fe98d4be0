//! The layer history engine: an append-only instruction log with a movable
//! cursor giving linear undo/redo, plus a visibility flag.

use vstd::prelude::*;
use crate::error::Error;
use crate::instruction::{Instruction, InstructionBox};

verus! {

/// The abstract state of a [`Layer`]: the recorded history, the undo/redo
/// cursor into it, and the visibility flag. The cursor splits the history
/// into an applied prefix `history[0 .. cursor)` and an undone suffix.
#[verifier::ext_equal]
pub ghost struct LayerView {
    /// The recorded instructions, oldest first.
    pub history: Seq<InstructionBox>,
    /// The undo/redo cursor: the number of applied instructions.
    pub cursor: int,
    /// Whether the layer is shown.
    pub visible: bool,
}

impl LayerView {
    /// The cursor always stays inside `[0, history.len()]`.
    pub open spec fn wf(self) -> bool {
        0 <= self.cursor <= self.history.len()
    }

    /// The applied prefix of the history: exactly the instructions that are
    /// currently drawn, in their original order.
    pub open spec fn rendered(self) -> Seq<InstructionBox> {
        self.history.take(self.cursor)
    }

    /// The state of a freshly created layer: empty history, cursor at zero,
    /// visible.
    pub open spec fn empty() -> LayerView {
        LayerView { history: Seq::empty(), cursor: 0, visible: true }
    }
}

/// An independently undoable and redoable instruction log with a visibility
/// flag. The history is append-only except for the truncation a commit
/// performs after an undo (the redo branch is erased).
#[derive(Debug, Clone)]
pub struct Layer {
    history: Vec<InstructionBox>,
    history_index: usize,
    visible: bool,
}

impl View for Layer {
    type V = LayerView;

    closed spec fn view(&self) -> LayerView {
        LayerView {
            history: self.history@,
            cursor: self.history_index as int,
            visible: self.visible,
        }
    }
}

impl Layer {
    /// The cursor stays inside the history.
    pub open spec fn wf(&self) -> bool {
        self@.wf()
    }

    /// Creates an empty, visible layer.
    pub fn new() -> (r: Layer)
        ensures
            r@ == LayerView::empty(),
            r.wf(),
    {
        let r = Layer { history: Vec::new(), history_index: 0, visible: true };
        proof {
            assert(r@ =~= LayerView::empty());
        }
        r
    }

    /// Rebuilds a layer from its observable parts, as a persistence
    /// collaborator hands them back. Returns `None` exactly when the parts
    /// violate the cursor bound, so a decoded layer is always well formed.
    pub fn from_parts(history: Vec<InstructionBox>, history_index: usize, visible: bool) -> (r:
        Option<Layer>)
        ensures
            history_index <= history@.len() ==> r is Some
                && r->Some_0@ == (LayerView { history: history@, cursor: history_index as int, visible })
                && r->Some_0.wf(),
            history_index > history@.len() ==> r is None,
    {
        if history_index <= history.len() {
            Some(Layer { history, history_index, visible })
        } else {
            None
        }
    }

    /// Validates and commits one instruction. An invalid instruction (a
    /// stroke with fewer than two points) is refused before anything is
    /// touched. A valid one erases the undone suffix, is appended, and the
    /// cursor moves past it — so after any successful commit the cursor
    /// stands at the end of the history.
    pub fn instruct(&mut self, instruction: InstructionBox) -> (r: Result<(), Error>)
        requires
            old(self).wf(),
        ensures
            final(self).wf(),
            final(self)@.visible == old(self)@.visible,
            instruction.instruction.is_valid() ==> r is Ok,
            r is Ok ==> final(self)@.history == old(self)@.rendered().push(instruction),
            r is Ok ==> final(self)@.cursor == old(self)@.cursor + 1,
            r is Ok ==> final(self)@.cursor == final(self)@.history.len(),
            !instruction.instruction.is_valid() ==> r == Err::<(), Error>(Error::ValidationError),
            r is Err ==> final(self)@ == old(self)@,
    {
        if let Instruction::Stroke(s) = &instruction.instruction {
            if s.points.len() < 2 {
                return Err(Error::ValidationError);
            }
        }
        self.history.truncate(self.history_index);
        self.history.push(instruction);
        self.history_index = self.history.len();
        Ok(())
    }

    /// Steps the cursor one instruction back. At the start of the history
    /// there is nothing to undo: the call fails and changes nothing.
    pub fn undo(&mut self) -> (r: Result<(), Error>)
        requires
            old(self).wf(),
        ensures
            final(self).wf(),
            final(self)@.history == old(self)@.history,
            final(self)@.visible == old(self)@.visible,
            old(self)@.cursor > 0 ==> r is Ok && final(self)@.cursor == old(self)@.cursor - 1,
            old(self)@.cursor == 0 ==> r == Err::<(), Error>(Error::HistoryBoundaryError)
                && final(self)@ == old(self)@,
    {
        if self.history_index > 0 {
            self.history_index = self.history_index - 1;
            Ok(())
        } else {
            Err(Error::HistoryBoundaryError)
        }
    }

    /// Steps the cursor one instruction forward. At the end of the history
    /// there is nothing to redo: the call fails and changes nothing.
    pub fn redo(&mut self) -> (r: Result<(), Error>)
        requires
            old(self).wf(),
        ensures
            final(self).wf(),
            final(self)@.history == old(self)@.history,
            final(self)@.visible == old(self)@.visible,
            old(self)@.cursor < old(self)@.history.len() ==> r is Ok
                && final(self)@.cursor == old(self)@.cursor + 1,
            old(self)@.cursor == old(self)@.history.len() ==> r == Err::<(), Error>(
                Error::HistoryBoundaryError,
            ) && final(self)@ == old(self)@,
    {
        if self.history_index < self.history.len() {
            self.history_index = self.history_index + 1;
            Ok(())
        } else {
            Err(Error::HistoryBoundaryError)
        }
    }

    /// Steps the cursor `by` instructions back, all or nothing: if the shift
    /// would leave `[0, history.len()]` the call fails and changes nothing.
    pub fn undo_by(&mut self, by: usize) -> (r: Result<(), Error>)
        requires
            old(self).wf(),
        ensures
            final(self).wf(),
            final(self)@.history == old(self)@.history,
            final(self)@.visible == old(self)@.visible,
            by <= old(self)@.cursor ==> r is Ok && final(self)@.cursor == old(self)@.cursor - by,
            by > old(self)@.cursor ==> r == Err::<(), Error>(Error::HistoryBoundaryError)
                && final(self)@ == old(self)@,
    {
        if by <= self.history_index {
            self.history_index = self.history_index - by;
            Ok(())
        } else {
            Err(Error::HistoryBoundaryError)
        }
    }

    /// Steps the cursor `by` instructions forward, all or nothing: if the
    /// shift would leave `[0, history.len()]` the call fails and changes
    /// nothing.
    pub fn redo_by(&mut self, by: usize) -> (r: Result<(), Error>)
        requires
            old(self).wf(),
        ensures
            final(self).wf(),
            final(self)@.history == old(self)@.history,
            final(self)@.visible == old(self)@.visible,
            old(self)@.cursor + by <= old(self)@.history.len() ==> r is Ok
                && final(self)@.cursor == old(self)@.cursor + by,
            old(self)@.cursor + by > old(self)@.history.len() ==> r == Err::<(), Error>(
                Error::HistoryBoundaryError,
            ) && final(self)@ == old(self)@,
    {
        if by <= self.history.len() - self.history_index {
            self.history_index = self.history_index + by;
            Ok(())
        } else {
            Err(Error::HistoryBoundaryError)
        }
    }

    /// Empties the history and resets the cursor. Always succeeds; the
    /// visibility flag is kept.
    pub fn clear(&mut self)
        ensures
            final(self).wf(),
            final(self)@.history == Seq::<InstructionBox>::empty(),
            final(self)@.cursor == 0,
            final(self)@.visible == old(self)@.visible,
    {
        self.history.clear();
        self.history_index = 0;
    }

    /// The applied prefix `history[0 .. cursor)` in original order: exactly
    /// the instructions currently drawn. A pure read.
    pub fn get_rendered_strokes(&self) -> (r: Vec<&InstructionBox>)
        requires
            self.wf(),
        ensures
            r@.len() == self@.cursor,
            forall|i: int| 0 <= i < r@.len() ==> *r@[i] == self@.rendered()[i],
    {
        let mut instructions: Vec<&InstructionBox> = Vec::new();
        let mut i: usize = 0;
        while i < self.history_index
            invariant
                self.wf(),
                i <= self@.cursor,
                instructions@.len() == i,
                forall|j: int| 0 <= j < i ==> *instructions@[j] == self@.history[j],
            decreases self@.cursor - i,
    {
            instructions.push(&self.history[i]);
            i = i + 1;
        }
        instructions
    }

    /// Flips the visibility flag; the history and cursor are untouched.
    pub fn toggle_visibility(&mut self)
        ensures
            final(self)@.history == old(self)@.history,
            final(self)@.cursor == old(self)@.cursor,
            final(self)@.visible == !old(self)@.visible,
    {
        self.visible = !self.visible;
    }

    /// Whether the layer is shown.
    pub fn is_visible(&self) -> (r: bool)
        ensures
            r == self@.visible,
    {
        self.visible
    }

    /// Read access to the whole history, applied and undone parts alike.
    pub fn history(&self) -> (r: &Vec<InstructionBox>)
        ensures
            r@ == self@.history,
    {
        &self.history
    }

    /// The undo/redo cursor: the number of applied instructions.
    pub fn history_index(&self) -> (r: usize)
        ensures
            r == self@.cursor,
    {
        self.history_index
    }
}

/// Law: undoing and then redoing right after a successful commit restores
/// the rendered prefix exactly. `pre` is any state a successful `instruct`
/// can leave behind (cursor at the end of a non-empty history); `mid` is the
/// state `undo` then guarantees, `post` the state `redo` guarantees after
/// it; the rendered instructions of `post` and `pre` coincide.
pub proof fn lemma_undo_redo_restores_rendered(pre: LayerView, mid: LayerView, post: LayerView)
    requires
        pre.wf(),
        pre.cursor == pre.history.len(),
        pre.cursor > 0,
        mid.history == pre.history,
        mid.cursor == pre.cursor - 1,
        post.history == mid.history,
        post.cursor == mid.cursor + 1,
    ensures
        post.rendered() == pre.rendered(),
{
    assert(post.rendered() =~= pre.rendered());
}

} // verus!
