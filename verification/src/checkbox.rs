use vstd::prelude::*;

use crate::geometry::Vector;
use crate::renderer::{DrawOp, Renderer};

verus! {

/// The check-mark-drawing capability: the one primitive the checkbox widget
/// family needs beyond what its label borrows from the text capability. The
/// trait itself presupposes no other feature capability.
pub trait CheckboxRenderer: Renderer {
    /// Commits a square check mark of side `side` at `position`, expressed in
    /// the active layer's coordinates: it is recorded against the active
    /// clip, translated by the active offset. The drawing scope is left
    /// untouched.
    fn draw_mark(&mut self, position: Vector, side: u32, checked: bool)
        ensures
            final(self).state() == old(self).state().record(
                (DrawOp::Mark {
                    clip: old(self).state().clip,
                    anchor: old(self).state().offset.spec_plus(position),
                    side,
                    checked,
                }),
            ),
            final(self).surface() == old(self).surface(),
    ;
}

} // verus!
