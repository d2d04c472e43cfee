use vstd::prelude::*;

use crate::checkbox::CheckboxRenderer;
use crate::geometry::{sat, Rectangle, Vector};
use crate::layout::{Limits, Node};
use crate::renderer::{DrawOp, Renderer};
use crate::text::{resolved_color, TextRenderer};
use crate::widget::{
    lemma_nodes_view_index, lemma_nodes_view_len, needs, stack_children, Capability, Checkbox,
    Element, NodeView, Text, MARK_GAP,
};
use crate::widget::layout_spec;

verus! {

/// A laid-out tree matches a widget tree when, down every container, it has
/// exactly one node per child widget, in order. Drawing walks the two trees
/// together and asks no more of them than this.
pub open spec fn fits(e: Element, n: NodeView) -> bool
    decreases e, 0int,
{
    match e {
        Element::Text(_) => true,
        Element::Checkbox(_) => true,
        Element::Container(cc) => n.children.len() == cc.children@.len() && children_fit(
            cc.children@,
            n.children,
            cc.children@.len() as int,
        ),
    }
}

/// The first `k` children match, pairwise.
pub open spec fn children_fit(es: Seq<Element>, ns: Seq<NodeView>, k: int) -> bool
    decreases es, 1int, k,
{
    if k <= 0 || es.len() < k || ns.len() < k {
        true
    } else {
        children_fit(es, ns, k - 1) && fits(es[k - 1], ns[k - 1])
    }
}

/// The glyph run a text widget commits when drawn at node `n` under the given
/// scope: anchored at the node's position translated by the active offset,
/// colored by the widget's override or the defaults' fallback.
pub open spec fn glyph_op(t: Text, n: NodeView, clip: Rectangle, off: Vector, fallback: u32) -> DrawOp {
    DrawOp::Glyphs {
        clip,
        anchor: off.spec_plus(Vector { x: n.bounds.x, y: n.bounds.y }),
        color: resolved_color(fallback, t.color),
        content: t.content,
    }
}

/// The check mark a checkbox commits: a square the node's height, at the
/// node's position translated by the active offset.
pub open spec fn mark_op(c: Checkbox, n: NodeView, clip: Rectangle, off: Vector) -> DrawOp {
    DrawOp::Mark {
        clip,
        anchor: off.spec_plus(Vector { x: n.bounds.x, y: n.bounds.y }),
        side: n.bounds.height,
        checked: c.checked,
    }
}

/// The glyph run for a checkbox's label: to the right of the mark, past the
/// gap.
pub open spec fn label_op(c: Checkbox, n: NodeView, clip: Rectangle, off: Vector, fallback: u32) -> DrawOp {
    DrawOp::Glyphs {
        clip,
        anchor: off.spec_plus(
            Vector { x: sat(sat(n.bounds.x, n.bounds.height), MARK_GAP), y: n.bounds.y },
        ),
        color: resolved_color(fallback, c.label.color),
        content: c.label.content,
    }
}

/// Everything a widget tree commits when drawn at node `n` under the given
/// scope: leaves commit their primitives; a container commits its children's
/// output inside a layer clipped to the container's region and translated by
/// the container's position plus its scrolling offset.
pub open spec fn draw_ops(e: Element, n: NodeView, clip: Rectangle, off: Vector, fallback: u32) -> Seq<
    DrawOp,
>
    decreases e, 0int, 0int,
{
    match e {
        Element::Text(t) => seq![glyph_op(t, n, clip, off, fallback)],
        Element::Checkbox(c) => seq![mark_op(c, n, clip, off), label_op(c, n, clip, off, fallback)],
        Element::Container(cc) => children_ops(
            cc.children@,
            n.children,
            clip.spec_intersect(n.bounds.spec_translate(off)),
            off.spec_plus((Vector { x: n.bounds.x, y: n.bounds.y }).spec_plus(cc.offset)),
            fallback,
            cc.children@.len() as int,
        ),
    }
}

/// The output of the first `k` children of a container, in drawing order.
pub open spec fn children_ops(
    es: Seq<Element>,
    ns: Seq<NodeView>,
    clip: Rectangle,
    off: Vector,
    fallback: u32,
    k: int,
) -> Seq<DrawOp>
    decreases es, 1int, k,
{
    if k <= 0 || es.len() < k || ns.len() < k {
        Seq::empty()
    } else {
        children_ops(es, ns, clip, off, fallback, k - 1) + draw_ops(
            es[k - 1],
            ns[k - 1],
            clip,
            off,
            fallback,
        )
    }
}

/// Among the first `k` matching children, each one matches its node.
pub proof fn lemma_children_fit_at(es: Seq<Element>, ns: Seq<NodeView>, k: int, j: int)
    requires
        children_fit(es, ns, k),
        0 <= j < k,
        k <= es.len(),
        k <= ns.len(),
    ensures
        fits(es[j], ns[j]),
    decreases k,
{
    if j < k - 1 {
        lemma_children_fit_at(es, ns, k - 1, j);
    }
}

/// Matching is indifferent to a node's own region: only the child structure
/// counts.
pub proof fn lemma_fits_same_children(e: Element, n1: NodeView, n2: NodeView)
    requires
        fits(e, n1),
        n1.children == n2.children,
    ensures
        fits(e, n2),
{
}

/// The first `k` matching children keep matching when the nodes agree on the
/// first `k` positions.
pub proof fn lemma_children_fit_prefix(es: Seq<Element>, ns1: Seq<NodeView>, ns2: Seq<NodeView>, k: int)
    requires
        children_fit(es, ns1, k),
        0 <= k <= ns1.len(),
        k <= ns2.len(),
        forall|j: int| 0 <= j < k ==> ns1[j] == ns2[j],
    ensures
        children_fit(es, ns2, k),
    decreases k,
{
    if k > 0 && es.len() >= k {
        lemma_children_fit_prefix(es, ns1, ns2, k - 1);
    }
}

/// What layout produces matches the tree it was produced from.
pub proof fn lemma_layout_fits(e: Element, limits: Limits)
    ensures
        fits(e, layout_spec(e, limits)),
    decreases e, 2int, 0int,
{
    match e {
        Element::Container(cc) => {
            lemma_stack_fit(cc.children@, limits.spec_loosen(), cc.children@.len() as int);
        },
        _ => {},
    }
}

/// A stacked prefix has one node per child, and the pair matches.
pub proof fn lemma_stack_fit(es: Seq<Element>, limits: Limits, k: int)
    requires
        0 <= k <= es.len(),
    ensures
        stack_children(es, limits, k).len() == k,
        children_fit(es, stack_children(es, limits, k), k),
    decreases es, 1int, k,
{
    if k > 0 {
        lemma_stack_fit(es, limits, k - 1);
        let prev = stack_children(es, limits, k - 1);
        let ns = stack_children(es, limits, k);
        lemma_layout_fits(es[k - 1], limits);
        lemma_fits_same_children(es[k - 1], layout_spec(es[k - 1], limits), ns[k - 1]);
        lemma_children_fit_prefix(es, prev, ns, k - 1);
    }
}

/// Every primitive a tree commits belongs to a capability the tree requires:
/// drawing stays inside the tree's aggregate capability requirement.
pub proof fn lemma_draw_ops_capabilities(
    e: Element,
    n: NodeView,
    clip: Rectangle,
    off: Vector,
    fallback: u32,
)
    ensures
        ({
            let ops = draw_ops(e, n, clip, off, fallback);
            forall|i: int| 0 <= i < ops.len() ==> needs(e, (#[trigger] ops[i]).capability())
        }),
    decreases e, 0int, 0int,
{
    let ops = draw_ops(e, n, clip, off, fallback);
    match e {
        Element::Text(t) => {},
        Element::Checkbox(c) => {},
        Element::Container(cc) => {
            let inner_clip = clip.spec_intersect(n.bounds.spec_translate(off));
            let inner_off = off.spec_plus(
                (Vector { x: n.bounds.x, y: n.bounds.y }).spec_plus(cc.offset),
            );
            let k = cc.children@.len() as int;
            lemma_children_ops_capabilities(cc.children@, n.children, inner_clip, inner_off, fallback, k);
            assert forall|i: int| 0 <= i < ops.len() implies needs(
                e,
                (#[trigger] ops[i]).capability(),
            ) by {
                let cap = ops[i].capability();
                let j = choose|j: int|
                    0 <= j < k && needs(cc.children@[j], #[trigger] children_ops(
                        cc.children@,
                        n.children,
                        inner_clip,
                        inner_off,
                        fallback,
                        k,
                    )[i].capability());
                assert(needs(cc.children@[j], cap));
            }
        },
    }
}

/// Every primitive the first `k` children commit belongs to a capability some
/// child among them requires.
pub proof fn lemma_children_ops_capabilities(
    es: Seq<Element>,
    ns: Seq<NodeView>,
    clip: Rectangle,
    off: Vector,
    fallback: u32,
    k: int,
)
    ensures
        ({
            let ops = children_ops(es, ns, clip, off, fallback, k);
            forall|i: int| 0 <= i < ops.len() ==> exists|j: int|
                0 <= j < k && needs(es[j], (#[trigger] ops[i]).capability())
        }),
    decreases es, 1int, k,
{
    if k <= 0 || es.len() < k || ns.len() < k {
    } else {
        lemma_children_ops_capabilities(es, ns, clip, off, fallback, k - 1);
        lemma_draw_ops_capabilities(es[k - 1], ns[k - 1], clip, off, fallback);
        let prev = children_ops(es, ns, clip, off, fallback, k - 1);
        let dk = draw_ops(es[k - 1], ns[k - 1], clip, off, fallback);
        let ops = children_ops(es, ns, clip, off, fallback, k);
        assert(ops == prev + dk);
        assert forall|i: int| 0 <= i < ops.len() implies exists|j: int|
            0 <= j < k && needs(es[j], (#[trigger] ops[i]).capability()) by {
            if i < prev.len() {
                assert(ops[i] == prev[i]);
                let j0 = choose|j: int|
                    0 <= j < k - 1 && needs(es[j], #[trigger] prev[i].capability());
                assert(0 <= j0 < k && needs(es[j0], ops[i].capability()));
            } else {
                assert(ops[i] == dk[i - prev.len()]);
                assert(needs(es[k - 1], ops[i].capability()));
            }
        }
    }
}

/// A tree that nowhere requires the checkbox capability commits glyph runs
/// alone: a full pass over a text-only tree invokes no primitive outside the
/// text capability.
pub proof fn lemma_text_only_tree_draws_text(
    e: Element,
    n: NodeView,
    clip: Rectangle,
    off: Vector,
    fallback: u32,
)
    requires
        !needs(e, Capability::Checkbox),
    ensures
        ({
            let ops = draw_ops(e, n, clip, off, fallback);
            forall|i: int| 0 <= i < ops.len() ==> (#[trigger] ops[i]).capability()
                == Capability::Text
        }),
{
    let ops = draw_ops(e, n, clip, off, fallback);
    lemma_draw_ops_capabilities(e, n, clip, off, fallback);
    assert forall|i: int| 0 <= i < ops.len() implies (#[trigger] ops[i]).capability()
        == Capability::Text by {
        let cap = ops[i].capability();
        assert(needs(e, cap));
        assert(cap == Capability::Text || cap == Capability::Checkbox);
    }
}

/// Draws a text widget at node `n`: one glyph run through the text
/// capability. The drawing scope is left as found.
pub fn draw_text<R: Renderer + TextRenderer>(
    renderer: &mut R,
    defaults: &R::Defaults,
    t: &Text,
    n: &Node,
)
    ensures
        final(renderer).state() == old(renderer).state().record(
            glyph_op(
                *t,
                n@,
                old(renderer).state().clip,
                old(renderer).state().offset,
                <R as TextRenderer>::default_text_color(*defaults),
            ),
        ),
        final(renderer).surface() == old(renderer).surface(),
{
    renderer.fill_text(defaults, &t.content, Vector { x: n.bounds.x, y: n.bounds.y }, t.color);
}

/// Draws a checkbox at node `n`: the mark through the checkbox capability,
/// then its label through the text capability — the union of the two widget
/// families' requirements. The drawing scope is left as found.
pub fn draw_checkbox<R: Renderer + TextRenderer + CheckboxRenderer>(
    renderer: &mut R,
    defaults: &R::Defaults,
    c: &Checkbox,
    n: &Node,
)
    ensures
        ({
            let clip = old(renderer).state().clip;
            let off = old(renderer).state().offset;
            let fallback = <R as TextRenderer>::default_text_color(*defaults);
            final(renderer).state() == old(renderer).state().record(mark_op(*c, n@, clip, off))
                .record(label_op(*c, n@, clip, off, fallback))
        }),
        final(renderer).surface() == old(renderer).surface(),
{
    renderer.draw_mark(Vector { x: n.bounds.x, y: n.bounds.y }, n.bounds.height, c.checked);
    renderer.fill_text(
        defaults,
        &c.label.content,
        Vector {
            x: n.bounds.x.saturating_add(n.bounds.height).saturating_add(MARK_GAP),
            y: n.bounds.y,
        },
        c.label.color,
    );
}

/// Draws a widget tree at its laid-out node. The backend comes out with the
/// clip, offset and saved scopes it went in with — every layer a container
/// opens is closed again — and with exactly the tree's output appended, in
/// drawing order.
#[verifier::loop_isolation(false)]
pub fn draw_element<R: Renderer + TextRenderer + CheckboxRenderer>(
    renderer: &mut R,
    defaults: &R::Defaults,
    e: &Element,
    n: &Node,
)
    requires
        fits(*e, n@),
    ensures
        final(renderer).state().clip == old(renderer).state().clip,
        final(renderer).state().offset == old(renderer).state().offset,
        final(renderer).state().saved == old(renderer).state().saved,
        final(renderer).state().ops == old(renderer).state().ops + draw_ops(
            *e,
            n@,
            old(renderer).state().clip,
            old(renderer).state().offset,
            <R as TextRenderer>::default_text_color(*defaults),
        ),
        final(renderer).surface() == old(renderer).surface(),
    decreases *e,
{
    let ghost fallback = <R as TextRenderer>::default_text_color(*defaults);
    match e {
        Element::Text(t) => {
            draw_text(renderer, defaults, t, n);
            proof {
                assert(renderer.state().ops =~= old(renderer).state().ops + draw_ops(
                    *e,
                    n@,
                    old(renderer).state().clip,
                    old(renderer).state().offset,
                    fallback,
                ));
            }
        },
        Element::Checkbox(c) => {
            draw_checkbox(renderer, defaults, c, n);
            proof {
                assert(renderer.state().ops =~= old(renderer).state().ops + draw_ops(
                    *e,
                    n@,
                    old(renderer).state().clip,
                    old(renderer).state().offset,
                    fallback,
                ));
            }
        },
        Element::Container(cc) => {
            let offset_arg = Vector { x: n.bounds.x, y: n.bounds.y }.plus(cc.offset);
            renderer.push_layer(n.bounds, offset_arg);
            let ghost entered = renderer.state();
            proof {
                lemma_nodes_view_len(n.children@);
            }
            let mut j: usize = 0;
            while j < cc.children.len()
                invariant
                    j <= cc.children.len(),
                    renderer.state().clip == entered.clip,
                    renderer.state().offset == entered.offset,
                    renderer.state().saved == entered.saved,
                    renderer.state().ops == entered.ops + children_ops(
                        cc.children@,
                        n@.children,
                        entered.clip,
                        entered.offset,
                        fallback,
                        j as int,
                    ),
                    renderer.surface() == old(renderer).surface(),
                decreases cc.children.len() - j,
            {
                proof {
                    lemma_nodes_view_index(n.children@, j as int);
                    lemma_children_fit_at(
                        cc.children@,
                        n@.children,
                        cc.children@.len() as int,
                        j as int,
                    );
                }
                let ghost before = renderer.state();
                draw_element(renderer, defaults, &cc.children[j], &n.children[j]);
                proof {
                    assert(children_ops(
                        cc.children@,
                        n@.children,
                        entered.clip,
                        entered.offset,
                        fallback,
                        j as int + 1,
                    ) == children_ops(
                        cc.children@,
                        n@.children,
                        entered.clip,
                        entered.offset,
                        fallback,
                        j as int,
                    ) + draw_ops(
                        cc.children@[j as int],
                        n@.children[j as int],
                        entered.clip,
                        entered.offset,
                        fallback,
                    ));
                    assert(renderer.state().ops =~= entered.ops + children_ops(
                        cc.children@,
                        n@.children,
                        entered.clip,
                        entered.offset,
                        fallback,
                        j as int + 1,
                    ));
                }
                j = j + 1;
            }
            renderer.pop_layer();
            proof {
                assert(entered.saved.last() == old(renderer).state().active());
                assert(entered.saved.drop_last() =~= old(renderer).state().saved);
                assert(renderer.state().ops =~= old(renderer).state().ops + draw_ops(
                    *e,
                    n@,
                    old(renderer).state().clip,
                    old(renderer).state().offset,
                    fallback,
                ));
            }
        },
    }
}

} // verus!
