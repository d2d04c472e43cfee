//! Rendering-abstraction core of a retained-mode widget toolkit.
//!
//! Widget families negotiate, through trait bounds, exactly which drawing
//! capabilities a concrete graphics backend must supply. The base [`Renderer`]
//! contract covers style-defaults provisioning, layout delegation, nested
//! layered drawing, and a full-surface reset; each feature capability trait
//! declares only the primitives one widget family needs, and a composite
//! widget demands the union of its children's capabilities.

use vstd::prelude::*;

pub mod checkbox;
pub mod draw;
pub mod geometry;
pub mod layout;
pub mod null;
pub mod renderer;
pub mod text;
pub mod widget;

use crate::checkbox::CheckboxRenderer;
use crate::draw::{draw_element, draw_ops, lemma_layout_fits};
use crate::layout::{Limits, Node};
use crate::renderer::Renderer;
use crate::text::TextRenderer;
use crate::widget::{layout_spec, Element};

verus! {

/// One full frame: lays out the widget tree, then draws it. The backend type
/// is constrained by the tree's whole aggregate capability requirement, so a
/// missing primitive is a type error where this function is instantiated —
/// never a failure during drawing; nothing here can fail at run time. The
/// backend comes out with the drawing scope it went in with and exactly the
/// tree's output appended.
pub fn render_pass<R: Renderer + TextRenderer + CheckboxRenderer>(
    renderer: &mut R,
    defaults: &R::Defaults,
    root: &Element,
    limits: &Limits,
) -> (node: Node)
    requires
        limits.wf(),
    ensures
        node@ == layout_spec(*root, *limits),
        final(renderer).state().clip == old(renderer).state().clip,
        final(renderer).state().offset == old(renderer).state().offset,
        final(renderer).state().saved == old(renderer).state().saved,
        final(renderer).state().ops == old(renderer).state().ops + draw_ops(
            *root,
            layout_spec(*root, *limits),
            old(renderer).state().clip,
            old(renderer).state().offset,
            <R as TextRenderer>::default_text_color(*defaults),
        ),
        final(renderer).surface() == old(renderer).surface(),
{
    let node = renderer.layout(root, limits);
    proof {
        lemma_layout_fits(*root, *limits);
    }
    draw_element(renderer, defaults, root, &node);
    node
}

} // verus!
