use vstd::prelude::*;

use crate::geometry::{Rectangle, Vector};
use crate::layout::{Limits, Node};
use crate::widget::{layout_of, layout_spec, Capability, Element};

verus! {

/// One drawing primitive committed to a backend's output, recorded against the
/// clip and offset that were active when it was committed.
#[derive(Debug, PartialEq, Eq)]
#[verifier::ext_equal]
pub enum DrawOp {
    /// A glyph run, committed through the text capability.
    Glyphs { clip: Rectangle, anchor: Vector, color: u32, content: String },
    /// A check mark, committed through the checkbox capability.
    Mark { clip: Rectangle, anchor: Vector, side: u32, checked: bool },
}

impl DrawOp {
    /// The capability whose primitive committed this output.
    pub open spec fn capability(self) -> Capability {
        match self {
            DrawOp::Glyphs { .. } => Capability::Text,
            DrawOp::Mark { .. } => Capability::Checkbox,
        }
    }
}

/// The drawing scope of a layer: the active clip region (absolute) and the
/// offset that carries layer coordinates into absolute coordinates.
#[derive(Clone, Copy, Debug, PartialEq, Eq, Structural)]
pub struct LayerScope {
    pub clip: Rectangle,
    pub offset: Vector,
}

/// The drawing state of a backend, as the rendering contracts speak of it: the
/// active scope, the scopes of the enclosing layers (innermost last), and the
/// output committed so far, in order.
#[verifier::ext_equal]
pub ghost struct RenderState {
    pub clip: Rectangle,
    pub offset: Vector,
    pub saved: Seq<LayerScope>,
    pub ops: Seq<DrawOp>,
}

impl RenderState {
    /// The active drawing scope.
    pub open spec fn active(self) -> LayerScope {
        LayerScope { clip: self.clip, offset: self.offset }
    }

    /// Entering a layer saves the active scope, narrows the clip to `bounds`
    /// (expressed in the enclosing layer's coordinates), and accumulates
    /// `offset` onto the active translation.
    pub open spec fn enter_layer(self, bounds: Rectangle, offset: Vector) -> RenderState {
        RenderState {
            clip: self.clip.spec_intersect(bounds.spec_translate(self.offset)),
            offset: self.offset.spec_plus(offset),
            saved: self.saved.push(self.active()),
            ops: self.ops,
        }
    }

    /// Leaving a layer restores the scope saved on entry and forgets it.
    pub open spec fn exit_layer(self) -> RenderState
        recommends
            self.saved.len() > 0,
    {
        RenderState {
            clip: self.saved.last().clip,
            offset: self.saved.last().offset,
            saved: self.saved.drop_last(),
            ops: self.ops,
        }
    }

    /// Appending one committed primitive to the output.
    pub open spec fn record(self, op: DrawOp) -> RenderState {
        RenderState { clip: self.clip, offset: self.offset, saved: self.saved, ops: self.ops.push(op) }
    }

    /// The state ready for a new, independent frame on the given surface: no
    /// saved scopes, no output, the whole surface drawable, no translation.
    pub open spec fn ready(surface: Rectangle) -> RenderState {
        RenderState {
            clip: surface,
            offset: Vector { x: 0u32, y: 0u32 },
            saved: Seq::empty(),
            ops: Seq::empty(),
        }
    }

    /// What a full reset leaves behind, whatever state it found — balanced
    /// push/pop history or not.
    pub open spec fn reset(self, surface: Rectangle) -> RenderState {
        RenderState::ready(surface)
    }
}

/// Resetting twice in succession leaves the drawing state a single reset
/// leaves: a reset is idempotent.
pub proof fn lemma_reset_idempotent(s: RenderState, surface: Rectangle)
    ensures
        s.reset(surface).reset(surface) == s.reset(surface),
{
}

/// Layer restoration: however a nested drawing scope leaves the state — as
/// long as it leaves the saved scopes as it found them — leaving the layer
/// restores the active clip and offset from before entry, keeping only the
/// output committed meanwhile.
pub proof fn lemma_layer_restoration(
    s: RenderState,
    bounds: Rectangle,
    offset: Vector,
    inner: RenderState,
)
    requires
        inner.saved == s.enter_layer(bounds, offset).saved,
    ensures
        inner.exit_layer().active() == s.active(),
        inner.exit_layer().saved == s.saved,
        inner.exit_layer().ops == inner.ops,
{
    assert(inner.saved.last() == s.active());
    assert(inner.saved.drop_last() =~= s.saved);
}

/// Layer composition: from a freshly reset state, an outer layer with bounds
/// `b1` and offset `o1` and an inner layer with bounds `b2` and offset `o2`
/// (expressed relative to the outer layer) clip to the surface intersected
/// with `b1` intersected with `b2` translated by `o1`, and translate by
/// `o1 + o2`. The bounds on the offsets keep the sums inside the coordinate
/// range, where the clamped translation is plain addition.
pub proof fn lemma_layer_composition(
    surface: Rectangle,
    b1: Rectangle,
    o1: Vector,
    b2: Rectangle,
    o2: Vector,
)
    requires
        b2.x + o1.x <= u32::MAX,
        b2.y + o1.y <= u32::MAX,
        o1.x + o2.x <= u32::MAX,
        o1.y + o2.y <= u32::MAX,
    ensures
        ({
            let nested = RenderState::ready(surface).enter_layer(b1, o1).enter_layer(b2, o2);
            nested.clip == surface.spec_intersect(b1).spec_intersect(b2.spec_translate(o1))
                && nested.offset == (Vector { x: (o1.x + o2.x) as u32, y: (o1.y + o2.y) as u32 })
        }),
{
    crate::geometry::lemma_translate_zero(b1);
}

/// The base rendering capability every backend supplies: style defaults for
/// inheritance, layout delegation, nested layered drawing, and a full reset.
/// Feature capabilities (text, checkbox drawing) come on top of it, each as a
/// trait of its own, so a backend implements only the primitives the widget
/// set paired with it exercises.
pub trait Renderer: Sized {
    /// The backend's default styling attributes, the root of style
    /// inheritance; widgets read them and may override fields locally.
    type Defaults: Default;

    /// The drawing state the rendering contracts speak of.
    spec fn state(&self) -> RenderState;

    /// The full-surface region a reset restores the clip to.
    spec fn surface(&self) -> Rectangle;

    /// Lays out a widget tree under the given constraint. A backend may wrap
    /// this call with bookkeeping of its own (say, trimming a measurement
    /// cache), but the tree that comes back is exactly what the widget's own
    /// layout computes, and the drawing state is left alone: downstream
    /// drawing and hit-testing depend on every backend agreeing here.
    fn layout(&mut self, element: &Element, limits: &Limits) -> (node: Node)
        requires
            limits.wf(),
        ensures
            node@ == layout_spec(*element, *limits),
            final(self).state() == old(self).state(),
            final(self).surface() == old(self).surface(),
    {
        layout_of(element, limits)
    }

    /// Opens a nested drawing scope clipped to `bounds`, expressed in the
    /// enclosing layer's coordinates, with the content translated by a
    /// further `offset`. Every call is closed again by [`Renderer::pop_layer`]
    /// once the nested content is drawn.
    fn push_layer(&mut self, bounds: Rectangle, offset: Vector)
        ensures
            final(self).state() == old(self).state().enter_layer(bounds, offset),
            final(self).surface() == old(self).surface(),
    ;

    /// Runs `draw` against the backend with drawing scoped to `bounds` and
    /// translated by `offset`, relative to the currently active layer, then
    /// restores the scope from before the call: a guarded enter/leave pair,
    /// not a pair of calls the caller could mis-match. `draw` must accept the
    /// backend in the entered scope and hand the saved scopes back as it
    /// found them — which every balanced drawing function does — and may
    /// otherwise commit whatever output it likes.
    fn with_layer<F: FnOnce(Self) -> Self>(self, bounds: Rectangle, offset: Vector, draw: F) -> (r:
        Self)
        requires
            forall|b: Self|
                (b.state() == self.state().enter_layer(bounds, offset) && b.surface()
                    == self.surface()) ==> call_requires(draw, (b,)),
            forall|b: Self, m: Self|
                call_ensures(draw, (b, ), m) ==> m.state().saved == b.state().saved && m.surface()
                    == b.surface(),
        ensures
            r.state().clip == self.state().clip,
            r.state().offset == self.state().offset,
            r.state().saved == self.state().saved,
            r.surface() == self.surface(),
            exists|b: Self, m: Self|
                call_ensures(draw, (b, ), m) && b.state() == self.state().enter_layer(
                    bounds,
                    offset,
                ) && r.state().ops == m.state().ops,
    {
        let ghost orig = self;
        let mut entered = self;
        entered.push_layer(bounds, offset);
        let ghost b0 = entered;
        let mut restored = draw(entered);
        let ghost mid = restored;
        proof {
            assert(restored.state().saved == b0.state().saved);
            assert(b0.state().saved.last() == orig.state().active());
        }
        restored.pop_layer();
        proof {
            assert(restored.state().saved =~= orig.state().saved);
            assert(call_ensures(draw, (b0, ), mid) && b0.state() == orig.state().enter_layer(
                bounds,
                offset,
            ) && restored.state().ops == mid.state().ops);
        }
        restored
    }

    /// Closes the innermost drawing scope, restoring the clip and offset that
    /// were active when it was opened. A pop with no open scope has nothing
    /// to restore and is ruled out.
    fn pop_layer(&mut self)
        requires
            old(self).state().saved.len() > 0,
        ensures
            final(self).state() == old(self).state().exit_layer(),
            final(self).surface() == old(self).surface(),
    ;

    /// Resets the backend for a new, independent frame: committed output,
    /// open layers and translation are all discarded, whatever state was left
    /// behind — even an unbalanced one. Resetting an already-reset backend
    /// changes nothing.
    fn clear(&mut self)
        ensures
            final(self).state() == old(self).state().reset(old(self).surface()),
            final(self).surface() == old(self).surface(),
    ;
}

} // verus!
