use renderkit::checkbox::CheckboxRenderer;
use renderkit::geometry::{Rectangle, Vector};
use renderkit::layout::Limits;
use renderkit::null::{Null, StyleDefaults, FALLBACK_TEXT_COLOR};
use renderkit::render_pass;
use renderkit::renderer::{DrawOp, Renderer};
use renderkit::text::TextRenderer;
use renderkit::widget::{layout_of, Checkbox, Container, Element, Text};

fn text(content: &str, width: u32, height: u32, color: Option<u32>) -> Text {
    Text { content: String::from(content), width, height, color }
}

fn container(children: Vec<Element>, offset: Vector) -> Element {
    Element::Container(Container { children, offset })
}

fn rect(x: u32, y: u32, width: u32, height: u32) -> Rectangle {
    Rectangle { x, y, width, height }
}

#[test]
fn container_stacks_two_children_within_limits() {
    let tree = container(
        vec![
            Element::Text(text("a", 40, 20, None)),
            Element::Text(text("b", 40, 20, None)),
        ],
        Vector { x: 0, y: 0 },
    );
    let limits = Limits::new(0, 0, 100, 50);
    let node = layout_of(&tree, &limits);

    assert_eq!(node.bounds, rect(0, 0, 40, 40));
    assert!(node.bounds.width <= 100 && node.bounds.height <= 50);
    assert_eq!(node.children.len(), 2);
    assert_eq!(node.children[0].bounds, rect(0, 0, 40, 20));
    assert_eq!(node.children[1].bounds, rect(0, 20, 40, 20));
    // The two children do not overlap: the second starts where the first ends.
    assert_eq!(node.children[0].bounds.y + node.children[0].bounds.height, node.children[1].bounds.y);
}

#[test]
fn layout_is_pure_across_consecutive_calls() {
    let tree = container(
        vec![
            Element::Text(text("a", 30, 10, None)),
            Element::Checkbox(Checkbox { checked: false, label: text("b", 25, 10, None) }),
        ],
        Vector { x: 0, y: 0 },
    );
    let limits = Limits::new(0, 0, 200, 200);
    let mut backend = Null::new(300, 300);

    let first = backend.layout(&tree, &limits);
    let second = backend.layout(&tree, &limits);

    assert_eq!(first, second);
    // The backend's override only did bookkeeping: it counted both passes but
    // touched no drawing state.
    assert_eq!(backend.layout_passes, 2);
    assert_eq!(backend.ops.len(), 0);
    assert_eq!(backend.saved.len(), 0);
    assert_eq!(backend.clip, rect(0, 0, 300, 300));
}

#[test]
fn clear_is_idempotent() {
    let mut backend = Null::new(120, 80);
    let defaults = StyleDefaults::default();

    // Leave the backend in a deliberately unbalanced, dirty state.
    backend.push_layer(rect(10, 10, 50, 50), Vector { x: 1, y: 2 });
    backend.push_layer(rect(0, 0, 20, 20), Vector { x: 3, y: 4 });
    backend.fill_text(&defaults, &String::from("x"), Vector { x: 0, y: 0 }, None);

    backend.clear();
    let clip_once = backend.clip;
    let offset_once = backend.offset;
    let saved_once = backend.saved.clone();
    let depth_once = backend.saved.len();
    let ops_once = backend.ops.len();

    backend.clear();
    assert_eq!(backend.clip, clip_once);
    assert_eq!(backend.offset, offset_once);
    assert_eq!(backend.saved, saved_once);
    assert_eq!(backend.saved.len(), depth_once);
    assert_eq!(backend.ops.len(), ops_once);

    // And the once-cleared state is the ready state.
    assert_eq!(clip_once, rect(0, 0, 120, 80));
    assert_eq!(offset_once, Vector { x: 0, y: 0 });
    assert_eq!(depth_once, 0);
    assert_eq!(ops_once, 0);
}

#[test]
fn layer_push_pop_restores_scope() {
    let mut backend = Null::new(200, 200);
    backend.push_layer(rect(10, 10, 100, 100), Vector { x: 5, y: 7 });
    assert_ne!(backend.clip, rect(0, 0, 200, 200));
    backend.pop_layer();
    assert_eq!(backend.clip, rect(0, 0, 200, 200));
    assert_eq!(backend.offset, Vector { x: 0, y: 0 });
    assert_eq!(backend.saved.len(), 0);
}

#[test]
fn layer_composition_intersects_clips_and_sums_offsets() {
    let mut backend = Null::new(200, 200);
    backend.push_layer(rect(10, 10, 100, 100), Vector { x: 5, y: 7 });
    backend.push_layer(rect(20, 30, 50, 40), Vector { x: 3, y: 4 });

    // Inner bounds translated by the outer offset: (25, 37, 50, 40);
    // intersected with the outer clip (10, 10, 100, 100): (25, 37, 50, 40).
    assert_eq!(backend.clip, rect(25, 37, 50, 40));
    assert_eq!(backend.offset, Vector { x: 8, y: 11 });

    backend.pop_layer();
    backend.pop_layer();
    assert_eq!(backend.clip, rect(0, 0, 200, 200));
    assert_eq!(backend.offset, Vector { x: 0, y: 0 });
}

#[test]
fn nested_containers_leave_drawing_state_as_found() {
    let inner = container(
        vec![Element::Text(text("deep", 10, 10, None))],
        Vector { x: 0, y: 0 },
    );
    let tree = container(
        vec![inner, Element::Text(text("top", 12, 8, None))],
        Vector { x: 0, y: 0 },
    );
    let limits = Limits::new(0, 0, 100, 100);
    let mut backend = Null::new(150, 150);
    let defaults = StyleDefaults::default();

    render_pass(&mut backend, &defaults, &tree, &limits);

    assert_eq!(backend.clip, rect(0, 0, 150, 150));
    assert_eq!(backend.offset, Vector { x: 0, y: 0 });
    assert_eq!(backend.saved.len(), 0);
    assert_eq!(backend.ops.len(), 2);
}

#[test]
fn full_pass_commits_expected_primitives() {
    let tree = container(
        vec![
            Element::Text(text("hello", 40, 20, None)),
            Element::Checkbox(Checkbox {
                checked: true,
                label: text("ok", 30, 10, Some(0xFF0000)),
            }),
        ],
        Vector { x: 0, y: 0 },
    );
    let limits = Limits::new(0, 0, 100, 100);
    let mut backend = Null::new(200, 100);
    let defaults = StyleDefaults::default();

    let node = render_pass(&mut backend, &defaults, &tree, &limits);

    // Layout: text (40, 20) at y = 0; checkbox 10 + 4 + 30 = 44 wide, 10 tall,
    // at y = 20; the container is as wide as its widest child.
    assert_eq!(node.bounds, rect(0, 0, 44, 30));

    let layer_clip = rect(0, 0, 44, 30);
    assert_eq!(backend.ops.len(), 3);
    assert_eq!(
        backend.ops[0],
        DrawOp::Glyphs {
            clip: layer_clip,
            anchor: Vector { x: 0, y: 0 },
            color: FALLBACK_TEXT_COLOR,
            content: String::from("hello"),
        }
    );
    assert_eq!(
        backend.ops[1],
        DrawOp::Mark { clip: layer_clip, anchor: Vector { x: 0, y: 20 }, side: 10, checked: true }
    );
    assert_eq!(
        backend.ops[2],
        DrawOp::Glyphs {
            clip: layer_clip,
            anchor: Vector { x: 14, y: 20 },
            color: 0xFF0000,
            content: String::from("ok"),
        }
    );
}

#[test]
fn text_only_pass_uses_only_text_primitives() {
    let tree = container(
        vec![
            Element::Text(text("one", 20, 10, None)),
            Element::Text(text("two", 20, 10, Some(7))),
            container(vec![Element::Text(text("three", 20, 10, None))], Vector { x: 0, y: 0 }),
        ],
        Vector { x: 0, y: 0 },
    );
    let limits = Limits::new(0, 0, 100, 100);
    let mut backend = Null::new(100, 100);
    let defaults = StyleDefaults::default();

    render_pass(&mut backend, &defaults, &tree, &limits);

    assert_eq!(backend.ops.len(), 3);
    for op in backend.ops.iter() {
        assert!(matches!(op, DrawOp::Glyphs { .. }));
    }
}

#[test]
fn scrolled_container_translates_its_content() {
    let tree = container(
        vec![Element::Text(text("body", 10, 10, None))],
        Vector { x: 0, y: 5 },
    );
    let limits = Limits::new(0, 0, 50, 50);
    let mut backend = Null::new(60, 60);
    let defaults = StyleDefaults::default();

    render_pass(&mut backend, &defaults, &tree, &limits);

    assert_eq!(backend.ops.len(), 1);
    match &backend.ops[0] {
        DrawOp::Glyphs { clip, anchor, .. } => {
            // The clip stays the container's region; the content moves.
            assert_eq!(*clip, rect(0, 0, 10, 10));
            assert_eq!(*anchor, Vector { x: 0, y: 5 });
        }
        other => panic!("expected a glyph run, found {:?}", other),
    }
}

#[test]
fn style_defaults_supply_missing_colors_only() {
    let mut backend = Null::new(50, 50);
    let defaults = StyleDefaults::default();
    assert_eq!(defaults.text_color, FALLBACK_TEXT_COLOR);

    backend.fill_text(&defaults, &String::from("plain"), Vector { x: 1, y: 1 }, None);
    backend.fill_text(&defaults, &String::from("styled"), Vector { x: 1, y: 9 }, Some(42));

    match &backend.ops[0] {
        DrawOp::Glyphs { color, .. } => assert_eq!(*color, FALLBACK_TEXT_COLOR),
        other => panic!("expected a glyph run, found {:?}", other),
    }
    match &backend.ops[1] {
        DrawOp::Glyphs { color, .. } => assert_eq!(*color, 42),
        other => panic!("expected a glyph run, found {:?}", other),
    }
}

#[test]
fn static_composition_renders_mixed_tree_without_runtime_checks() {
    // A backend satisfying the tree's whole aggregate capability requirement
    // renders it; there is no capability query and no error path to observe.
    let tree = container(
        vec![
            Element::Checkbox(Checkbox { checked: false, label: text("a", 10, 10, None) }),
            Element::Text(text("b", 10, 10, None)),
        ],
        Vector { x: 0, y: 0 },
    );
    let limits = Limits::new(0, 0, 100, 100);
    let mut backend = Null::new(100, 100);
    let defaults = StyleDefaults::default();

    let node = render_pass(&mut backend, &defaults, &tree, &limits);
    assert_eq!(node.children.len(), 2);
    assert_eq!(backend.ops.len(), 3);
}

#[test]
fn with_layer_scopes_the_closure_and_restores() {
    let backend = Null::new(100, 100);
    let defaults = StyleDefaults::default();
    let backend = backend.with_layer(rect(10, 10, 50, 50), Vector { x: 2, y: 3 }, |mut b: Null| {
        b.fill_text(&defaults, &String::from("inside"), Vector { x: 1, y: 1 }, None);
        b
    });

    // The scope from before the call is back.
    assert_eq!(backend.clip, rect(0, 0, 100, 100));
    assert_eq!(backend.offset, Vector { x: 0, y: 0 });
    assert_eq!(backend.saved.len(), 0);
    // The nested output was committed under the layer's scope.
    assert_eq!(
        backend.ops[0],
        DrawOp::Glyphs {
            clip: rect(10, 10, 50, 50),
            anchor: Vector { x: 3, y: 4 },
            color: FALLBACK_TEXT_COLOR,
            content: String::from("inside"),
        }
    );
}

#[test]
fn draw_mark_records_position_and_state() {
    let mut backend = Null::new(80, 80);
    backend.draw_mark(Vector { x: 3, y: 4 }, 12, true);
    assert_eq!(
        backend.ops[0],
        DrawOp::Mark {
            clip: rect(0, 0, 80, 80),
            anchor: Vector { x: 3, y: 4 },
            side: 12,
            checked: true,
        }
    );
}

#[test]
fn limits_clamp_oversized_and_undersized_requests() {
    let tree = Element::Text(text("wide", 500, 3, None));
    let limits = Limits::new(10, 5, 100, 50);
    let node = layout_of(&tree, &limits);
    // Width clamps down to the maximum, height up to the minimum.
    assert_eq!(node.bounds, rect(0, 0, 100, 5));
}

#[test]
fn empty_container_resolves_to_the_minimum() {
    let tree = container(vec![], Vector { x: 0, y: 0 });
    let limits = Limits::new(7, 9, 100, 100);
    let node = layout_of(&tree, &limits);
    assert_eq!(node.bounds, rect(0, 0, 7, 9));
    assert_eq!(node.children.len(), 0);
}

#[test]
fn exact_limits_force_the_size() {
    let tree = Element::Text(text("t", 1, 1, None));
    let limits = Limits::new(64, 32, 64, 32);
    let node = layout_of(&tree, &limits);
    assert_eq!(node.bounds, rect(0, 0, 64, 32));
}

#[test]
fn disjoint_layers_clip_to_nothing() {
    let mut backend = Null::new(100, 100);
    backend.push_layer(rect(0, 0, 10, 10), Vector { x: 0, y: 0 });
    backend.push_layer(rect(50, 50, 10, 10), Vector { x: 0, y: 0 });
    // The regions are disjoint: a zero-sized clip at the meeting of the near edges.
    assert_eq!(backend.clip.width, 0);
    assert_eq!(backend.clip.height, 0);
    backend.pop_layer();
    assert_eq!(backend.clip, rect(0, 0, 10, 10));
}

#[test]
fn coordinates_clamp_at_the_numeric_range() {
    let r = rect(u32::MAX - 5, 0, 100, 10);
    let moved = r.translate(Vector { x: 50, y: 0 });
    assert_eq!(moved.x, u32::MAX);
    assert_eq!(moved.width, 100);

    let v = Vector { x: u32::MAX, y: 1 }.plus(Vector { x: 1, y: 1 });
    assert_eq!(v, Vector { x: u32::MAX, y: 2 });
}

#[test]
fn deep_nesting_restores_every_level() {
    // Ten levels of nested containers around one text widget.
    let mut tree = Element::Text(text("leaf", 5, 5, None));
    for _ in 0..10 {
        tree = container(vec![tree], Vector { x: 0, y: 0 });
    }
    let limits = Limits::new(0, 0, 50, 50);
    let mut backend = Null::new(50, 50);
    let defaults = StyleDefaults::default();

    render_pass(&mut backend, &defaults, &tree, &limits);

    assert_eq!(backend.saved.len(), 0);
    assert_eq!(backend.clip, rect(0, 0, 50, 50));
    assert_eq!(backend.offset, Vector { x: 0, y: 0 });
    assert_eq!(backend.ops.len(), 1);
}
