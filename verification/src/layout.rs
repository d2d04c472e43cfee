use vstd::prelude::*;

use crate::geometry::Rectangle;

verus! {

/// Clamps `v` into the closed interval from `lo` to `hi`.
pub open spec fn clamp(v: u32, lo: u32, hi: u32) -> u32
    recommends
        lo <= hi,
{
    if v < lo {
        lo
    } else if v > hi {
        hi
    } else {
        v
    }
}

/// An immutable size-constraint pair handed down a widget tree during layout:
/// a resolved size must lie between the minimum and the maximum, componentwise.
#[derive(Clone, Copy, Debug, PartialEq, Eq, Structural)]
pub struct Limits {
    pub min_width: u32,
    pub min_height: u32,
    pub max_width: u32,
    pub max_height: u32,
}

impl Limits {
    /// A well-formed constraint never demands more than it allows.
    pub open spec fn wf(self) -> bool {
        self.min_width <= self.max_width && self.min_height <= self.max_height
    }

    /// Builds a constraint pair. A minimum above the maximum is a programming
    /// error of the caller, not a recoverable condition, so it is ruled out
    /// here rather than reported back.
    pub fn new(min_width: u32, min_height: u32, max_width: u32, max_height: u32) -> (r: Limits)
        requires
            min_width <= max_width,
            min_height <= max_height,
        ensures
            r == (Limits { min_width, min_height, max_width, max_height }),
            r.wf(),
    {
        Limits { min_width, min_height, max_width, max_height }
    }

    /// The width the constraint resolves a requested width to.
    pub open spec fn spec_constrain_width(self, w: u32) -> u32 {
        clamp(w, self.min_width, self.max_width)
    }

    /// The height the constraint resolves a requested height to.
    pub open spec fn spec_constrain_height(self, h: u32) -> u32 {
        clamp(h, self.min_height, self.max_height)
    }

    /// Resolves a requested width against the constraint.
    pub fn constrain_width(&self, w: u32) -> (r: u32)
        ensures
            r == self.spec_constrain_width(w),
    {
        if w < self.min_width {
            self.min_width
        } else if w > self.max_width {
            self.max_width
        } else {
            w
        }
    }

    /// Resolves a requested height against the constraint.
    pub fn constrain_height(&self, h: u32) -> (r: u32)
        ensures
            r == self.spec_constrain_height(h),
    {
        if h < self.min_height {
            self.min_height
        } else if h > self.max_height {
            self.max_height
        } else {
            h
        }
    }

    /// The constraint a container hands each of its children: the container's
    /// maximum with no lower bound, so a child is free to stay small.
    pub open spec fn spec_loosen(self) -> Limits {
        Limits { min_width: 0u32, min_height: 0u32, max_width: self.max_width, max_height: self.max_height }
    }

    /// Drops the minimum, keeping the maximum.
    pub fn loosen(&self) -> (r: Limits)
        ensures
            r == self.spec_loosen(),
            r.wf(),
    {
        Limits { min_width: 0, min_height: 0, max_width: self.max_width, max_height: self.max_height }
    }
}

/// The output of layout: a resolved region plus the node's children in drawing
/// order. Child regions are expressed relative to the parent's origin; the
/// tree is read during drawing and never changed after construction.
#[derive(Debug, PartialEq, Eq)]
pub struct Node {
    pub bounds: Rectangle,
    pub children: Vec<Node>,
}

impl Node {
    /// A childless node covering the given region.
    pub fn leaf(bounds: Rectangle) -> (r: Node)
        ensures
            r.bounds == bounds,
            r.children@ =~= Seq::<Node>::empty(),
    {
        Node { bounds, children: Vec::new() }
    }

    /// A node covering the given region with the given children, in order.
    pub fn with_children(bounds: Rectangle, children: Vec<Node>) -> (r: Node)
        ensures
            r.bounds == bounds,
            r.children == children,
    {
        Node { bounds, children }
    }
}

} // verus!
