use vstd::prelude::*;

use crate::checkbox::CheckboxRenderer;
use crate::geometry::{Rectangle, Vector};
use crate::layout::{Limits, Node};
use crate::renderer::{DrawOp, LayerScope, Renderer, RenderState};
use crate::text::TextRenderer;
use crate::widget::Element;

verus! {

/// The text color the diagnostic backend's defaults carry: a mid grey.
pub const FALLBACK_TEXT_COLOR: u32 = 0x808080;

/// Fallback visual attributes of the diagnostic backend. Pure data: widgets
/// read it during drawing and may override fields locally, never change it.
#[derive(Clone, Copy, Debug, PartialEq, Eq, Structural)]
pub struct StyleDefaults {
    pub text_color: u32,
}

impl Default for StyleDefaults {
    /// The defaults a fresh diagnostic backend hands out.
    fn default() -> (r: StyleDefaults)
        ensures
            r.text_color == FALLBACK_TEXT_COLOR,
    {
        StyleDefaults { text_color: FALLBACK_TEXT_COLOR }
    }
}

/// A minimal backend with no drawing surface: it implements the base
/// capability faithfully for layout and keeps exact books on the rest — the
/// active scope, the saved scopes of open layers, and every committed
/// primitive — so widget layout and composition logic can be exercised and
/// inspected without producing pixels.
#[derive(Debug)]
pub struct Null {
    /// The full surface region a reset restores the clip to.
    pub surface_bounds: Rectangle,
    /// The active clip region, absolute.
    pub clip: Rectangle,
    /// The active offset that carries layer coordinates into absolute coordinates.
    pub offset: Vector,
    /// The scopes of the enclosing open layers, innermost last.
    pub saved: Vec<LayerScope>,
    /// Every primitive committed since the last reset, in order.
    pub ops: Vec<DrawOp>,
    /// How many layout passes this backend has run: the bookkeeping its
    /// layout override adds, invisible to the drawing state.
    pub layout_passes: u64,
}

impl Null {
    /// A ready backend over a surface of the given size.
    pub fn new(width: u32, height: u32) -> (r: Null)
        ensures
            r.state() == RenderState::ready(Rectangle { x: 0u32, y: 0u32, width, height }),
            r.surface() == (Rectangle { x: 0u32, y: 0u32, width, height }),
            r.layout_passes == 0,
    {
        let surface_bounds = Rectangle::new(0, 0, width, height);
        let r = Null {
            surface_bounds,
            clip: surface_bounds,
            offset: Vector::zero(),
            saved: Vec::new(),
            ops: Vec::new(),
            layout_passes: 0,
        };
        proof {
            assert(r.state() =~= RenderState::ready(Rectangle { x: 0u32, y: 0u32, width, height }));
        }
        r
    }
}

impl Renderer for Null {
    type Defaults = StyleDefaults;

    open spec fn state(&self) -> RenderState {
        RenderState { clip: self.clip, offset: self.offset, saved: self.saved@, ops: self.ops@ }
    }

    open spec fn surface(&self) -> Rectangle {
        self.surface_bounds
    }

    /// Wraps the default delegation with bookkeeping — counting layout passes
    /// — which the contract allows: the tree and the drawing state come out
    /// exactly as the default would leave them.
    fn layout(&mut self, element: &Element, limits: &Limits) -> (node: Node) {
        self.layout_passes = self.layout_passes.saturating_add(1);
        let node = crate::widget::layout_of(element, limits);
        proof {
            assert(self.state() =~= old(self).state());
        }
        node
    }

    fn push_layer(&mut self, bounds: Rectangle, offset: Vector) {
        self.saved.push(LayerScope { clip: self.clip, offset: self.offset });
        self.clip = self.clip.intersect(bounds.translate(self.offset));
        self.offset = self.offset.plus(offset);
        proof {
            assert(self.state() =~= old(self).state().enter_layer(bounds, offset));
        }
    }

    fn pop_layer(&mut self) {
        let top = self.saved.pop().unwrap();
        self.clip = top.clip;
        self.offset = top.offset;
        proof {
            assert(self.state() =~= old(self).state().exit_layer());
        }
    }

    fn clear(&mut self) {
        self.clip = self.surface_bounds;
        self.offset = Vector::zero();
        self.saved = Vec::new();
        self.ops = Vec::new();
        proof {
            assert(self.state() =~= old(self).state().reset(old(self).surface()));
        }
    }
}

impl TextRenderer for Null {
    open spec fn default_text_color(d: StyleDefaults) -> u32 {
        d.text_color
    }

    fn fill_text(
        &mut self,
        defaults: &StyleDefaults,
        content: &String,
        position: Vector,
        color: Option<u32>,
    ) {
        let resolved = match color {
            Some(c) => c,
            None => defaults.text_color,
        };
        let op = DrawOp::Glyphs {
            clip: self.clip,
            anchor: self.offset.plus(position),
            color: resolved,
            content: content.clone(),
        };
        proof {
            assert(op =~= (DrawOp::Glyphs {
                clip: self.clip,
                anchor: self.offset.spec_plus(position),
                color: crate::text::resolved_color(defaults.text_color, color),
                content: *content,
            }));
        }
        self.ops.push(op);
        proof {
            assert(self.state() =~= old(self).state().record(
                (DrawOp::Glyphs {
                    clip: old(self).state().clip,
                    anchor: old(self).state().offset.spec_plus(position),
                    color: crate::text::resolved_color(
                        Self::default_text_color(*defaults),
                        color,
                    ),
                    content: *content,
                }),
            ));
        }
    }
}

impl CheckboxRenderer for Null {
    fn draw_mark(&mut self, position: Vector, side: u32, checked: bool) {
        let op = DrawOp::Mark { clip: self.clip, anchor: self.offset.plus(position), side, checked };
        self.ops.push(op);
        proof {
            assert(self.state() =~= old(self).state().record(
                (DrawOp::Mark {
                    clip: old(self).state().clip,
                    anchor: old(self).state().offset.spec_plus(position),
                    side,
                    checked,
                }),
            ));
        }
    }
}

} // verus!
