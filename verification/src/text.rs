use vstd::prelude::*;

use crate::geometry::Vector;
use crate::renderer::{DrawOp, Renderer};

verus! {

/// The color a widget draws with: its own override when it gives one, else the
/// fallback the backend's style defaults supply.
pub open spec fn resolved_color(fallback: u32, over: Option<u32>) -> u32 {
    match over {
        Some(c) => c,
        None => fallback,
    }
}

/// The text-drawing capability: the one primitive the text widget family
/// needs. Independent of every other feature capability, so a backend can
/// support text without checkboxes or the other way round.
pub trait TextRenderer: Renderer {
    /// The fallback text color the backend's style defaults carry.
    spec fn default_text_color(d: Self::Defaults) -> u32;

    /// Commits a glyph run at `position`, expressed in the active layer's
    /// coordinates: it is recorded against the active clip, translated by the
    /// active offset, and colored by `color` when given, else by the
    /// defaults' text color. The drawing scope is left untouched.
    fn fill_text(
        &mut self,
        defaults: &Self::Defaults,
        content: &String,
        position: Vector,
        color: Option<u32>,
    )
        ensures
            final(self).state() == old(self).state().record(
                (DrawOp::Glyphs {
                    clip: old(self).state().clip,
                    anchor: old(self).state().offset.spec_plus(position),
                    color: resolved_color(Self::default_text_color(*defaults), color),
                    content: *content,
                }),
            ),
            final(self).surface() == old(self).surface(),
    ;
}

} // verus!
