//! The drawing: a named registry of layers with an explicit stacking order
//! and fixed canvas dimensions.
//!
//! The registry is a single insertion-ordered mapping: one vector of
//! name/layer entries. The order of the vector is the stacking order, and
//! the names in it are the key set, so "the order list matches the key set"
//! holds structurally rather than by keeping two fields in lockstep.

use vstd::prelude::*;
use crate::error::Error;
use crate::instruction::InstructionBox;
use crate::layer::{Layer, LayerView};

verus! {

/// One named layer of a drawing.
#[derive(Debug, Clone)]
struct LayerEntry {
    name: String,
    layer: Layer,
}

/// The abstract state of a [`Drawing`]: the named layers in stacking order,
/// and the canvas dimensions.
#[verifier::ext_equal]
pub ghost struct DrawingView {
    /// The layers as (name, state) pairs, in stacking order.
    pub entries: Seq<(Seq<char>, LayerView)>,
    /// The canvas width, fixed at creation.
    pub width: u32,
    /// The canvas height, fixed at creation.
    pub height: u32,
}

impl DrawingView {
    /// The stacking order: the layer names, front to back as stored.
    pub open spec fn order(self) -> Seq<Seq<char>> {
        self.entries.map_values(|e: (Seq<char>, LayerView)| e.0)
    }

    /// Whether a layer of this name is registered.
    pub open spec fn contains_layer(self, name: Seq<char>) -> bool {
        exists|i: int| 0 <= i < self.entries.len() && self.entries[i].0 == name
    }

    /// The position of the layer of this name (meaningful when
    /// `contains_layer(name)` holds; unique names make it well defined).
    pub open spec fn index_of(self, name: Seq<char>) -> int {
        choose|i: int| 0 <= i < self.entries.len() && self.entries[i].0 == name
    }

    /// The state of the layer of this name.
    pub open spec fn layer_of(self, name: Seq<char>) -> LayerView {
        self.entries[self.index_of(name)].1
    }

    /// Layer names are unique and every layer keeps its cursor bound.
    pub open spec fn wf(self) -> bool {
        (forall|i: int, j: int|
            0 <= i < j < self.entries.len() ==> (#[trigger] self.entries[i].0)
                != (#[trigger] self.entries[j].0))
        && (forall|i: int| 0 <= i < self.entries.len() ==> (#[trigger] self.entries[i].1).wf())
    }

    /// With unique names, an entry's position is the position `index_of`
    /// picks, so a found index pins the spec-level lookup down.
    pub proof fn lemma_index_at(self, name: Seq<char>, i: int)
        requires
            self.wf(),
            0 <= i < self.entries.len(),
            self.entries[i].0 == name,
        ensures
            self.contains_layer(name),
            self.index_of(name) == i,
            self.layer_of(name) == self.entries[i].1,
    {
        assert(self.contains_layer(name));
        let k: int = self.index_of(name);
        if k < i {
            assert(self.entries[k].0 != self.entries[i].0);
        }
        if i < k {
            assert(self.entries[i].0 != self.entries[k].0);
        }
    }

    /// Law: the stacking order never holds a name twice. The registry is a
    /// single insertion-ordered mapping, so the order list is exactly the
    /// key set and a well-formed drawing cannot present duplicate names to
    /// a renderer.
    pub proof fn lemma_order_names_unique(self)
        requires
            self.wf(),
        ensures
            forall|i: int, j: int|
                0 <= i < j < self.order().len() ==> self.order()[i] != self.order()[j],
    {
        assert forall|i: int, j: int|
            0 <= i < j < self.order().len() implies self.order()[i] != self.order()[j] by {
            assert(self.order()[i] == self.entries[i].0);
            assert(self.order()[j] == self.entries[j].0);
            assert(self.entries[i].0 != self.entries[j].0);
        }
    }

    /// Law: editing a single layer leaves the document well formed.
    /// Replacing the state of the layer at `i` — its name untouched, its new
    /// state well formed, every other entry as it was — preserves
    /// [`DrawingView::wf`]. This is the companion of
    /// [`Drawing::get_layer_mut`]: whatever a caller does to the borrowed
    /// layer through [`Layer`]'s methods leaves the drawing well formed.
    pub proof fn lemma_replace_layer_preserves_wf(self, w: DrawingView, i: int)
        requires
            self.wf(),
            0 <= i < self.entries.len(),
            w.entries.len() == self.entries.len(),
            w.entries[i].0 == self.entries[i].0,
            w.entries[i].1.wf(),
            forall|j: int|
                0 <= j < self.entries.len() && j != i ==> w.entries[j] == self.entries[j],
        ensures
            w.wf(),
    {
        assert forall|a: int, b: int|
            0 <= a < b < w.entries.len() implies (#[trigger] w.entries[a]).0 != (
        #[trigger] w.entries[b]).0 by {
            assert(self.entries[a].0 != self.entries[b].0);
        }
        assert forall|a: int| 0 <= a < w.entries.len() implies (#[trigger] w.entries[a]).1.wf() by {
            if a != i {
                assert(w.entries[a] == self.entries[a]);
                assert(self.entries[a].1.wf());
            }
        }
    }
}

/// Moving the entry at `i` to position `p` keeps the entry set: names stay
/// unique and every layer keeps its bound.
proof fn lemma_move_preserves_wf(v: DrawingView, i: int, p: int, m: DrawingView)
    requires
        v.wf(),
        0 <= i < v.entries.len(),
        0 <= p <= v.entries.len() - 1,
        m.entries == v.entries.remove(i).insert(p, v.entries[i]),
    ensures
        m.entries.len() == v.entries.len(),
        m.wf(),
{
    let r = v.entries.remove(i);
    assert(forall|a: int, b: int|
        0 <= a < b < r.len() ==> (#[trigger] r[a]).0 != (#[trigger] r[b]).0);
    assert(forall|a: int| 0 <= a < r.len() ==> (#[trigger] r[a]).1.wf());
    assert(forall|a: int| 0 <= a < r.len() ==> (#[trigger] r[a]).0 != v.entries[i].0);
    assert(forall|a: int, b: int|
        0 <= a < b < m.entries.len() ==> (#[trigger] m.entries[a]).0 != (
        #[trigger] m.entries[b]).0);
    assert(forall|a: int| 0 <= a < m.entries.len() ==> (#[trigger] m.entries[a]).1.wf());
}

/// A named collection of independently editable layers, stacked in an
/// explicit order, on a canvas of fixed dimensions.
///
/// There is deliberately no removal operation: layers are only ever added,
/// reordered, edited or hidden, so a name, once registered, stays valid for
/// the life of the drawing.
#[derive(Debug, Clone)]
pub struct Drawing {
    layers: Vec<LayerEntry>,
    width: u32,
    height: u32,
}

impl View for Drawing {
    type V = DrawingView;

    closed spec fn view(&self) -> DrawingView {
        DrawingView {
            entries: self.layers@.map_values(|e: LayerEntry| (e.name@, e.layer@)),
            width: self.width,
            height: self.height,
        }
    }
}

/// The position of the entry named `name`, scanning front to back.
fn position_of(layers: &Vec<LayerEntry>, name: &String) -> (r: Option<usize>)
    ensures
        r is Some ==> r->Some_0 < layers@.len() && layers@[r->Some_0 as int].name@ == name@,
        r is None ==> forall|j: int| 0 <= j < layers@.len() ==> (#[trigger] layers@[j]).name@
            != name@,
{
    let mut i: usize = 0;
    while i < layers.len()
        invariant
            i <= layers@.len(),
            forall|j: int| 0 <= j < i ==> (#[trigger] layers@[j]).name@ != name@,
        decreases layers@.len() - i,
    {
        if layers[i].name == *name {
            return Some(i);
        }
        i = i + 1;
    }
    None
}

/// A mutable borrow of the layer of the entry at `i`; the name beside it
/// stays as it was.
fn entry_layer_mut(layers: &mut Vec<LayerEntry>, i: usize) -> (element: &mut Layer)
    requires
        i < old(layers)@.len(),
    ensures
        *element == old(layers)@[i as int].layer,
        final(layers)@ == old(layers)@.update(
            i as int,
            (LayerEntry { name: old(layers)@[i as int].name, layer: *final(element) }),
        ),
{
    &mut layers[i].layer
}

impl Default for Drawing {
    /// A 500 by 500 drawing with no layers.
    fn default() -> (r: Drawing)
        ensures
            r@ == (DrawingView { entries: Seq::empty(), width: 500, height: 500 }),
            r.wf(),
    {
        Drawing::new(500, 500)
    }
}

impl Drawing {
    /// Names are unique and every layer is well formed.
    pub open spec fn wf(&self) -> bool {
        self@.wf()
    }

    /// Creates a drawing with the given canvas dimensions and no layers.
    /// The dimensions are fixed for the life of the drawing.
    pub fn new(height: u32, width: u32) -> (r: Drawing)
        ensures
            r@ == (DrawingView { entries: Seq::empty(), width: width, height: height }),
            r.wf(),
    {
        let r = Drawing { layers: Vec::new(), width, height };
        proof {
            assert(r@ =~~= (DrawingView { entries: Seq::empty(), width: width, height: height }));
        }
        r
    }

    /// Registers a new empty, visible layer under `name`, appended at the
    /// end of the stacking order. Fails with [`Error::DuplicateNameError`],
    /// changing nothing, exactly when the name is already registered.
    pub fn add_layer(&mut self, name: &str) -> (r: Result<(), Error>)
        requires
            old(self).wf(),
        ensures
            final(self).wf(),
            !old(self)@.contains_layer(name@) ==> r is Ok && final(self)@ == (DrawingView {
                entries: old(self)@.entries.push((name@, LayerView::empty())),
                ..old(self)@
            }),
            old(self)@.contains_layer(name@) ==> r == Err::<(), Error>(Error::DuplicateNameError)
                && final(self)@ == old(self)@,
    {
        let key = String::from_str(name);
        match position_of(&self.layers, &key) {
            Some(i) => {
                proof {
                    self@.lemma_index_at(name@, i as int);
                }
                Err(Error::DuplicateNameError)
            },
            None => {
                proof {
                    assert(!old(self)@.contains_layer(name@));
                }
                self.layers.push(LayerEntry { name: key, layer: Layer::new() });
                proof {
                    assert(self@.entries =~~= old(self)@.entries.push((name@, LayerView::empty())));
                    assert(self@ =~~= (DrawingView {
                        entries: old(self)@.entries.push((name@, LayerView::empty())),
                        ..old(self)@
                    }));
                }
                Ok(())
            },
        }
    }

    /// Swaps the layer named `name` with the entry immediately before it in
    /// the stacking order. Fails with [`Error::NotFoundError`] when the name
    /// is not registered and with [`Error::OrderingError`] when the layer is
    /// already first; a failed call changes nothing.
    pub fn layer_up(&mut self, name: &str) -> (r: Result<(), Error>)
        requires
            old(self).wf(),
        ensures
            final(self).wf(),
            !old(self)@.contains_layer(name@) ==> r == Err::<(), Error>(Error::NotFoundError)
                && final(self)@ == old(self)@,
            old(self)@.contains_layer(name@) && old(self)@.index_of(name@) == 0 ==> r == Err::<(), Error>(Error::OrderingError) && final(self)@ == old(self)@,
            old(self)@.contains_layer(name@) && old(self)@.index_of(name@) > 0 ==> r is Ok
                && final(self)@ == (DrawingView {
                entries: old(self)@.entries.update(
                    old(self)@.index_of(name@) - 1,
                    old(self)@.entries[old(self)@.index_of(name@)],
                ).update(
                    old(self)@.index_of(name@),
                    old(self)@.entries[old(self)@.index_of(name@) - 1],
                ),
                ..old(self)@
            }),
    {
        let key = String::from_str(name);
        match position_of(&self.layers, &key) {
            None => Err(Error::NotFoundError),
            Some(i) => {
                proof {
                    self@.lemma_index_at(name@, i as int);
                }
                if i > 0 {
                    let entry = self.layers.remove(i);
                    self.layers.insert(i - 1, entry);
                    proof {
                        let ghost old_entries = old(self)@.entries;
                        let ghost target = DrawingView {
                            entries: old_entries.update(
                                i - 1,
                                old_entries[i as int],
                            ).update(i as int, old_entries[i - 1]),
                            ..old(self)@
                        };
                        assert(self@.entries =~~= old_entries.remove(i as int).insert(
                            i - 1,
                            old_entries[i as int],
                        ));
                        assert(self@.entries =~~= target.entries);
                        assert(self@ =~~= target);
                        lemma_move_preserves_wf(old(self)@, i as int, i - 1, self@);
                    }
                    Ok(())
                } else {
                    Err(Error::OrderingError)
                }
            },
        }
    }

    /// Moves the layer named `name` from its position `i` to position
    /// `i + by` in the stacking order, all or nothing. Fails with
    /// [`Error::NotFoundError`] when the name is not registered and with
    /// [`Error::OrderingError`] when the target position falls outside the
    /// order; a failed call changes nothing.
    pub fn layer_up_by(&mut self, name: &str, by: usize) -> (r: Result<(), Error>)
        requires
            old(self).wf(),
        ensures
            final(self).wf(),
            !old(self)@.contains_layer(name@) ==> r == Err::<(), Error>(Error::NotFoundError)
                && final(self)@ == old(self)@,
            old(self)@.contains_layer(name@) && old(self)@.index_of(name@) + by
                >= old(self)@.entries.len() ==> r == Err::<(), Error>(Error::OrderingError)
                && final(self)@ == old(self)@,
            old(self)@.contains_layer(name@) && old(self)@.index_of(name@) + by
                < old(self)@.entries.len() ==> r is Ok && final(self)@ == (DrawingView {
                entries: old(self)@.entries.remove(old(self)@.index_of(name@)).insert(
                    old(self)@.index_of(name@) + by,
                    old(self)@.entries[old(self)@.index_of(name@)],
                ),
                ..old(self)@
            }),
    {
        let key = String::from_str(name);
        match position_of(&self.layers, &key) {
            None => Err(Error::NotFoundError),
            Some(i) => {
                proof {
                    self@.lemma_index_at(name@, i as int);
                }
                if by < self.layers.len() - i {
                    let entry = self.layers.remove(i);
                    self.layers.insert(i + by, entry);
                    proof {
                        let ghost old_entries = old(self)@.entries;
                        let ghost target = DrawingView {
                            entries: old_entries.remove(i as int).insert(
                                i + by,
                                old_entries[i as int],
                            ),
                            ..old(self)@
                        };
                        assert(self@.entries =~~= target.entries);
                        assert(self@ =~~= target);
                        lemma_move_preserves_wf(old(self)@, i as int, i + by, self@);
                    }
                    Ok(())
                } else {
                    Err(Error::OrderingError)
                }
            },
        }
    }

    /// Moves the layer named `name` from its position `i` to position
    /// `i - by` in the stacking order, all or nothing. Fails with
    /// [`Error::NotFoundError`] when the name is not registered and with
    /// [`Error::OrderingError`] when the target position falls outside the
    /// order; a failed call changes nothing.
    pub fn layer_down_by(&mut self, name: &str, by: usize) -> (r: Result<(), Error>)
        requires
            old(self).wf(),
        ensures
            final(self).wf(),
            !old(self)@.contains_layer(name@) ==> r == Err::<(), Error>(Error::NotFoundError)
                && final(self)@ == old(self)@,
            old(self)@.contains_layer(name@) && by > old(self)@.index_of(name@) ==> r == Err::<(), Error>(Error::OrderingError) && final(self)@ == old(self)@,
            old(self)@.contains_layer(name@) && by <= old(self)@.index_of(name@) ==> r is Ok
                && final(self)@ == (DrawingView {
                entries: old(self)@.entries.remove(old(self)@.index_of(name@)).insert(
                    old(self)@.index_of(name@) - by,
                    old(self)@.entries[old(self)@.index_of(name@)],
                ),
                ..old(self)@
            }),
    {
        let key = String::from_str(name);
        match position_of(&self.layers, &key) {
            None => Err(Error::NotFoundError),
            Some(i) => {
                proof {
                    self@.lemma_index_at(name@, i as int);
                }
                if by <= i {
                    let entry = self.layers.remove(i);
                    self.layers.insert(i - by, entry);
                    proof {
                        let ghost old_entries = old(self)@.entries;
                        let ghost target = DrawingView {
                            entries: old_entries.remove(i as int).insert(
                                i - by,
                                old_entries[i as int],
                            ),
                            ..old(self)@
                        };
                        assert(self@.entries =~~= target.entries);
                        assert(self@ =~~= target);
                        lemma_move_preserves_wf(old(self)@, i as int, i - by, self@);
                    }
                    Ok(())
                } else {
                    Err(Error::OrderingError)
                }
            },
        }
    }

    /// Validates and commits `instruction` on the layer named `layer_name`,
    /// propagating the layer's own result unchanged. Fails with
    /// [`Error::NotFoundError`] when the name is not registered; a failed
    /// call changes nothing.
    pub fn instruct(&mut self, instruction: InstructionBox, layer_name: &str) -> (r: Result<
        (),
        Error,
    >)
        requires
            old(self).wf(),
        ensures
            final(self).wf(),
            !old(self)@.contains_layer(layer_name@) ==> r == Err::<(), Error>(Error::NotFoundError)
                && final(self)@ == old(self)@,
            old(self)@.contains_layer(layer_name@) && !instruction.instruction.is_valid() ==> r
                == Err::<(), Error>(Error::ValidationError) && final(self)@ == old(self)@,
            old(self)@.contains_layer(layer_name@) && instruction.instruction.is_valid() ==> r
                is Ok && final(self)@ == (DrawingView {
                entries: old(self)@.entries.update(
                    old(self)@.index_of(layer_name@),
                    (
                        layer_name@,
                        LayerView {
                            history: old(self)@.layer_of(layer_name@).rendered().push(instruction),
                            cursor: old(self)@.layer_of(layer_name@).cursor + 1,
                            visible: old(self)@.layer_of(layer_name@).visible,
                        },
                    ),
                ),
                ..old(self)@
            }),
    {
        let ghost pre = old(self)@;
        match self.get_layer_mut(layer_name) {
            None => Err(Error::NotFoundError),
            Some(l) => {
                proof {
                    let idx: int = pre.index_of(layer_name@);
                    assert(pre.entries[idx].1.wf());
                }
                let result = l.instruct(instruction);
                proof {
                    let idx: int = pre.index_of(layer_name@);
                    assert(pre.entries[idx].0 == layer_name@);
                    if result is Ok {
                        let target = DrawingView {
                            entries: pre.entries.update(
                                idx,
                                (
                                    layer_name@,
                                    LayerView {
                                        history: pre.layer_of(layer_name@).rendered().push(
                                            instruction,
                                        ),
                                        cursor: pre.layer_of(layer_name@).cursor + 1,
                                        visible: pre.layer_of(layer_name@).visible,
                                    },
                                ),
                            ),
                            ..pre
                        };
                        assert(self@.entries =~~= target.entries);
                        assert(self@ =~~= target);
                        assert(self@.entries[idx].1.wf());
                        pre.lemma_replace_layer_preserves_wf(self@, idx);
                    } else {
                        assert(self@.entries =~~= pre.entries);
                        assert(self@ =~~= pre);
                    }
                }
                result
            },
        }
    }

    /// The canvas width.
    pub fn width(&self) -> (r: u32)
        ensures
            r == self@.width,
    {
        self.width
    }

    /// The canvas height.
    pub fn height(&self) -> (r: u32)
        ensures
            r == self@.height,
    {
        self.height
    }

    /// The stacking order: the layer names, front to back.
    pub fn layer_order(&self) -> (r: Vec<String>)
        ensures
            r@.len() == self@.entries.len(),
            forall|i: int| 0 <= i < r@.len() ==> (#[trigger] r@[i])@ == self@.order()[i],
    {
        let mut names: Vec<String> = Vec::new();
        let mut i: usize = 0;
        while i < self.layers.len()
            invariant
                i <= self.layers@.len(),
                names@.len() == i,
                forall|j: int| 0 <= j < i ==> (#[trigger] names@[j])@ == self@.entries[j].0,
            decreases self.layers@.len() - i,
        {
            names.push(self.layers[i].name.clone());
            i = i + 1;
        }
        names
    }

    /// Hands out the layer named `layer_name` for reading or editing, or
    /// `None` when the name is not registered. Whatever the caller does
    /// through the reference, the name, its position, the other layers and
    /// the dimensions stay untouched; the drawing stays well formed as long
    /// as the caller leaves the layer well formed (as every method of
    /// [`Layer`] does).
    pub fn get_layer_mut(&mut self, layer_name: &str) -> (r: Option<&mut Layer>)
        requires
            old(self).wf(),
        ensures
            !old(self)@.contains_layer(layer_name@) ==> r is None && final(self)@ == old(self)@,
            old(self)@.contains_layer(layer_name@) ==> r is Some && (*r->Some_0)@ == old(
                self,
            )@.layer_of(layer_name@) && final(self)@.entries.len() == old(self)@.entries.len()
                && final(self)@.entries[old(self)@.index_of(layer_name@)] == (
            layer_name@,
            final(r->Some_0)@,
            ) && (forall|j: int|
                0 <= j < old(self)@.entries.len() && j != old(self)@.index_of(layer_name@)
                    ==> final(self)@.entries[j] == old(self)@.entries[j]) && final(self)@.width
                == old(self)@.width && final(self)@.height == old(self)@.height,
            old(self)@.contains_layer(layer_name@) ==> forall|j: int|
                0 <= j < old(self)@.entries.len() ==> (#[trigger] final(self)@.entries[j]).0 == (
                #[trigger] old(self)@.entries[j]).0,
    {
        let key = String::from_str(layer_name);
        match position_of(&self.layers, &key) {
            None => {
                proof {
                    assert(self@ =~~= old(self)@);
                }
                None
            },
            Some(i) => {
                proof {
                    self@.lemma_index_at(layer_name@, i as int);
                }
                Some(entry_layer_mut(&mut self.layers, i))
            },
        }
    }
}

} // verus!
