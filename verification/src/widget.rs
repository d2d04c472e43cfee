use vstd::prelude::*;

use crate::geometry::{sat, Rectangle, Vector};
use crate::layout::{Limits, Node};

verus! {

/// Horizontal gap between a check mark and its label.
pub const MARK_GAP: u32 = 4;

/// A run of glyphs with a requested size and an optional color override; when
/// the override is absent, the backend's style defaults supply the color.
#[derive(Debug, PartialEq, Eq)]
pub struct Text {
    pub content: String,
    pub width: u32,
    pub height: u32,
    pub color: Option<u32>,
}

/// A check mark beside a text label. A composite widget: drawing it takes the
/// union of the capabilities of its parts (check-mark drawing and text drawing).
#[derive(Debug, PartialEq, Eq)]
pub struct Checkbox {
    pub checked: bool,
    pub label: Text,
}

/// A vertical stack of child widgets, drawn inside a layer clipped to the
/// container's region and translated by `offset` (a scrolling position).
#[derive(Debug, PartialEq, Eq)]
pub struct Container {
    pub children: Vec<Element>,
    pub offset: Vector,
}

/// A widget tree. Which drawing capabilities a tree demands of a backend is a
/// property of the tree alone; see [`needs`].
#[derive(Debug, PartialEq, Eq)]
pub enum Element {
    Text(Text),
    Checkbox(Checkbox),
    Container(Container),
}

/// A drawing capability a widget family may require and a backend may supply.
#[derive(Clone, Copy, Debug, PartialEq, Eq, Structural)]
pub enum Capability {
    Text,
    Checkbox,
}

/// The aggregate capability requirement of a widget tree: a leaf requires the
/// capabilities of its family, and a composite requires the union of its
/// children's requirements, transitively.
pub open spec fn needs(e: Element, c: Capability) -> bool
    decreases e,
{
    match e {
        Element::Text(_) => c == Capability::Text,
        Element::Checkbox(_) => c == Capability::Checkbox || c == Capability::Text,
        Element::Container(cc) => exists|i: int|
            0 <= i < cc.children@.len() && needs(#[trigger] cc.children@[i], c),
    }
}

/// The mathematical shape of a laid-out tree: resolved regions, children in
/// drawing order. [`Node`] is its executable counterpart.
#[verifier::ext_equal]
pub ghost struct NodeView {
    pub bounds: Rectangle,
    pub children: Seq<NodeView>,
}

/// The shape a [`Node`] stands for.
pub open spec fn node_view(n: Node) -> NodeView
    decreases n,
{
    NodeView { bounds: n.bounds, children: nodes_view(n.children@) }
}

/// The shapes of a sequence of nodes, in order.
pub open spec fn nodes_view(s: Seq<Node>) -> Seq<NodeView>
    decreases s,
{
    if s.len() == 0 {
        Seq::empty()
    } else {
        seq![node_view(s[0])] + nodes_view(s.skip(1))
    }
}

/// A sequence of nodes and its shapes have the same length.
pub proof fn lemma_nodes_view_len(s: Seq<Node>)
    ensures
        nodes_view(s).len() == s.len(),
    decreases s,
{
    if s.len() != 0 {
        lemma_nodes_view_len(s.skip(1));
    }
}

/// The shapes of a sequence of nodes are its nodes' shapes, position by position.
pub proof fn lemma_nodes_view_index(s: Seq<Node>, i: int)
    requires
        0 <= i < s.len(),
    ensures
        nodes_view(s).len() == s.len(),
        nodes_view(s)[i] == node_view(s[i]),
    decreases s,
{
    lemma_nodes_view_len(s);
    if i > 0 {
        lemma_nodes_view_index(s.skip(1), i - 1);
    }
}

impl View for Node {
    type V = NodeView;

    open spec fn view(&self) -> NodeView {
        node_view(*self)
    }
}

/// The region a text widget resolves to under the given constraint.
pub open spec fn text_layout(t: Text, limits: Limits) -> NodeView {
    NodeView {
        bounds: Rectangle {
            x: 0u32,
            y: 0u32,
            width: limits.spec_constrain_width(t.width),
            height: limits.spec_constrain_height(t.height),
        },
        children: Seq::empty(),
    }
}

/// The width a checkbox asks for: a square mark the height of its label, the
/// gap, then the label.
pub open spec fn checkbox_requested_width(c: Checkbox) -> u32 {
    sat(sat(c.label.height, MARK_GAP), c.label.width)
}

/// The region a checkbox resolves to under the given constraint.
pub open spec fn checkbox_layout(c: Checkbox, limits: Limits) -> NodeView {
    NodeView {
        bounds: Rectangle {
            x: 0u32,
            y: 0u32,
            width: limits.spec_constrain_width(checkbox_requested_width(c)),
            height: limits.spec_constrain_height(c.label.height),
        },
        children: Seq::empty(),
    }
}

/// What layout produces for a widget tree under the given constraint: pure in
/// the tree and the constraint, so consecutive layout passes over an unchanged
/// tree agree structurally. A container stacks its children top to bottom
/// under its loosened constraint, then resolves its own size to the widest
/// child and the stacked height.
pub open spec fn layout_spec(e: Element, limits: Limits) -> NodeView
    decreases e, 0int,
{
    match e {
        Element::Text(t) => text_layout(t, limits),
        Element::Checkbox(c) => checkbox_layout(c, limits),
        Element::Container(cc) => NodeView {
            bounds: Rectangle {
                x: 0u32,
                y: 0u32,
                width: limits.spec_constrain_width(
                    stack_width(cc.children@, limits.spec_loosen(), cc.children@.len() as int),
                ),
                height: limits.spec_constrain_height(
                    stack_height(cc.children@, limits.spec_loosen(), cc.children@.len() as int),
                ),
            },
            children: stack_children(cc.children@, limits.spec_loosen(), cc.children@.len() as int),
        },
    }
}

/// The first `k` children of a vertical stack, each laid out under `limits`
/// and moved to its running vertical position, top to bottom starting at zero.
pub open spec fn stack_children(es: Seq<Element>, limits: Limits, k: int) -> Seq<NodeView>
    decreases es, k,
{
    if k <= 0 || es.len() < k {
        Seq::empty()
    } else {
        let first = layout_spec(es[k - 1], limits);
        let placed = NodeView {
            bounds: Rectangle {
                x: 0u32,
                y: stack_height(es, limits, k - 1),
                width: first.bounds.width,
                height: first.bounds.height,
            },
            children: first.children,
        };
        stack_children(es, limits, k - 1).push(placed)
    }
}

/// The vertical position just past the first `k` children of a stack.
pub open spec fn stack_height(es: Seq<Element>, limits: Limits, k: int) -> u32
    decreases es, k,
{
    if k <= 0 || es.len() < k {
        0u32
    } else {
        sat(stack_height(es, limits, k - 1), layout_spec(es[k - 1], limits).bounds.height)
    }
}

/// The widest resolved width among the first `k` children of a stack.
pub open spec fn stack_width(es: Seq<Element>, limits: Limits, k: int) -> u32
    decreases es, k,
{
    if k <= 0 || es.len() < k {
        0u32
    } else {
        let rest = stack_width(es, limits, k - 1);
        let last = layout_spec(es[k - 1], limits).bounds.width;
        if last > rest {
            last
        } else {
            rest
        }
    }
}

/// Appending a node appends its shape.
pub proof fn lemma_nodes_view_push(s: Seq<Node>, x: Node)
    ensures
        nodes_view(s.push(x)) =~= nodes_view(s).push(node_view(x)),
    decreases s,
{
    let sp = s.push(x);
    if s.len() == 0 {
        assert(sp[0] == x);
        assert(sp.skip(1) =~= Seq::<Node>::empty());
        assert(nodes_view(sp) == seq![node_view(x)] + nodes_view(sp.skip(1)));
        assert(nodes_view(s) =~= Seq::<NodeView>::empty());
    } else {
        lemma_nodes_view_push(s.skip(1), x);
        assert(sp[0] == s[0]);
        assert(sp.skip(1) =~= s.skip(1).push(x));
        assert(nodes_view(sp) == seq![node_view(sp[0])] + nodes_view(sp.skip(1)));
        assert(nodes_view(s) == seq![node_view(s[0])] + nodes_view(s.skip(1)));
    }
}

/// Layout purity: two layout passes over the same widget tree under the same
/// constraint resolve to structurally identical trees. The contract of the
/// layout bridge pins each pass to [`layout_spec`] of the tree and the
/// constraint alone, so nothing a backend does between the passes can show
/// through in the result.
pub proof fn lemma_layout_pure(e: Element, limits: Limits, first: NodeView, second: NodeView)
    requires
        first == layout_spec(e, limits),
        second == layout_spec(e, limits),
    ensures
        first == second,
{
}

/// Lays out a widget tree under the given constraint. The result is exactly
/// [`layout_spec`] of the arguments: layout reads nothing besides them.
#[verifier::loop_isolation(false)]
pub fn layout_of(e: &Element, limits: &Limits) -> (n: Node)
    ensures
        n@ == layout_spec(*e, *limits),
    decreases *e,
{
    match e {
        Element::Text(t) => {
            let n = Node::leaf(Rectangle::new(
                0,
                0,
                limits.constrain_width(t.width),
                limits.constrain_height(t.height),
            ));
            proof {
                assert(n@ =~= layout_spec(*e, *limits));
            }
            n
        },
        Element::Checkbox(c) => {
            let requested = c.label.height.saturating_add(MARK_GAP).saturating_add(c.label.width);
            let n = Node::leaf(Rectangle::new(
                0,
                0,
                limits.constrain_width(requested),
                limits.constrain_height(c.label.height),
            ));
            proof {
                assert(n@ =~= layout_spec(*e, *limits));
            }
            n
        },
        Element::Container(cc) => {
            let loose = limits.loosen();
            let mut children: Vec<Node> = Vec::new();
            let mut y: u32 = 0;
            let mut width: u32 = 0;
            let mut j: usize = 0;
            while j < cc.children.len()
                invariant
                    j <= cc.children.len(),
                    loose == limits.spec_loosen(),
                    nodes_view(children@) == stack_children(cc.children@, loose, j as int),
                    y == stack_height(cc.children@, loose, j as int),
                    width == stack_width(cc.children@, loose, j as int),
                decreases cc.children.len() - j,
            {
                let child = layout_of(&cc.children[j], &loose);
                let placed = Node::with_children(
                    Rectangle::new(0, y, child.bounds.width, child.bounds.height),
                    child.children,
                );
                let ghost children_before = children@;
                y = y.saturating_add(placed.bounds.height);
                if placed.bounds.width > width {
                    width = placed.bounds.width;
                }
                children.push(placed);
                proof {
                    lemma_nodes_view_push(children_before, placed);
                    assert(nodes_view(children@) =~= stack_children(
                        cc.children@,
                        loose,
                        j as int + 1,
                    ));
                }
                j = j + 1;
            }
            let n = Node::with_children(
                Rectangle::new(
                    0,
                    0,
                    limits.constrain_width(width),
                    limits.constrain_height(y),
                ),
                children,
            );
            proof {
                assert(n@ =~= layout_spec(*e, *limits));
            }
            n
        },
    }
}

} // verus!
