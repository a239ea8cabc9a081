//! Click selection on its own, for a host that offers selecting as a tool.

use vstd::prelude::*;
use crate::paint_object::PaintObject;
use crate::paint_object::PaintObjectView;

verus! {

/// The views of a list of scene objects.
pub open spec fn object_views(objects: Seq<PaintObject>) -> Seq<PaintObjectView> {
    Seq::new(objects.len(), |i: int| objects[i]@)
}

/// The selection-only tool.
#[derive(Clone, Copy, Debug, PartialEq, Eq)]
pub struct SelectionTool {
}

impl SelectionTool {
    pub fn new() -> (r: Self)
        ensures
            r == (SelectionTool {  }),
    {
        SelectionTool {  }
    }

    /// The flag of an object after a primary click: with shift, an object
    /// under the pointer toggles and any other keeps its flag; without
    /// shift, exactly the objects under the pointer are selected.
    pub open spec fn clicked(object: PaintObjectView, is_shift_down: bool) -> PaintObjectView {
        if is_shift_down {
            if object.is_under_mouse() {
                object.with_selected(!object.is_selected())
            } else {
                object
            }
        } else {
            object.with_selected(object.is_under_mouse())
        }
    }

    /// Applies a primary click to every object, by its cached pointer
    /// position.
    pub fn update(&mut self, primary_clicked: bool, is_shift_down: bool, objects: &mut Vec<PaintObject>)
        ensures
            final(objects)@.len() == old(objects)@.len(),
            forall|i: int|
                0 <= i < old(objects)@.len() ==> #[trigger] final(objects)@[i]@ == (if primary_clicked {
                    Self::clicked(old(objects)@[i]@, is_shift_down)
                } else {
                    old(objects)@[i]@
                }),
    {
        if primary_clicked {
            let n = objects.len();
            let mut i: usize = 0;
            while i < n
                invariant
                    n == objects@.len(),
                    n == old(objects)@.len(),
                    i <= n,
                    forall|j: int|
                        0 <= j < i ==> #[trigger] objects@[j]@ == Self::clicked(
                            old(objects)@[j]@,
                            is_shift_down,
                        ),
                    forall|j: int| i <= j < n ==> objects@[j] == old(objects)@[j],
                decreases n - i,
            {
                let under = objects[i].is_under_mouse();
                if is_shift_down {
                    if under {
                        let selected = objects[i].is_selected();
                        objects[i].set_selected(!selected);
                    }
                } else {
                    objects[i].set_selected(under);
                }
                i = i + 1;
            }
        }
    }

    /// Nothing to preview.
    pub fn draw(&self) {
    }

    /// Deselects every object, before another tool takes over.
    pub fn before_deactivate(&mut self, objects: &mut Vec<PaintObject>)
        ensures
            final(objects)@.len() == old(objects)@.len(),
            forall|i: int|
                0 <= i < old(objects)@.len() ==> #[trigger] final(objects)@[i]@ == old(
                    objects,
                )@[i]@.with_selected(false),
    {
        deselect_all(objects);
    }

    pub fn display_name(&self) -> (r: &'static str)
        ensures
            r@ == "selection"@,
    {
        "selection"
    }
}

/// Clears the selection flag of every object.
pub fn deselect_all(objects: &mut Vec<PaintObject>)
    ensures
        final(objects)@.len() == old(objects)@.len(),
        forall|i: int|
            0 <= i < old(objects)@.len() ==> #[trigger] final(objects)@[i]@ == old(
                objects,
            )@[i]@.with_selected(false),
{
    let n = objects.len();
    let mut i: usize = 0;
    while i < n
        invariant
            n == objects@.len(),
            n == old(objects)@.len(),
            i <= n,
            forall|j: int|
                0 <= j < i ==> #[trigger] objects@[j]@ == old(objects)@[j]@.with_selected(false),
            forall|j: int| i <= j < n ==> objects@[j] == old(objects)@[j],
        decreases n - i,
    {
        objects[i].set_selected(false);
        i = i + 1;
    }
}

} // verus!
