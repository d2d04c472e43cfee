use vstd::prelude::*;

verus! {

/// Saturating addition on `u32`: coordinate arithmetic in this crate clamps at
/// the numeric range instead of overflowing, which is the documented policy for
/// layer bounds that run past their parent's coordinate space.
pub open spec fn sat(a: u32, b: u32) -> u32 {
    if a + b > u32::MAX {
        u32::MAX
    } else {
        (a + b) as u32
    }
}

/// A 2D integer translation between coordinate spaces, also used as a point.
#[derive(Clone, Copy, Debug, PartialEq, Eq, Structural)]
pub struct Vector {
    pub x: u32,
    pub y: u32,
}

impl Vector {
    /// The identity translation.
    pub fn zero() -> (r: Vector)
        ensures
            r == (Vector { x: 0u32, y: 0u32 }),
    {
        Vector { x: 0, y: 0 }
    }

    /// Componentwise translation of the two vectors, clamped at the numeric range.
    pub open spec fn spec_plus(self, other: Vector) -> Vector {
        Vector { x: sat(self.x, other.x), y: sat(self.y, other.y) }
    }

    /// Composes two translations; nested layers accumulate their offsets this way.
    pub fn plus(self, other: Vector) -> (r: Vector)
        ensures
            r == self.spec_plus(other),
    {
        Vector { x: self.x.saturating_add(other.x), y: self.y.saturating_add(other.y) }
    }
}

/// An axis-aligned region: the position of its top-left corner plus a size.
#[derive(Clone, Copy, Debug, PartialEq, Eq, Structural)]
pub struct Rectangle {
    pub x: u32,
    pub y: u32,
    pub width: u32,
    pub height: u32,
}

impl Rectangle {
    pub fn new(x: u32, y: u32, width: u32, height: u32) -> (r: Rectangle)
        ensures
            r == (Rectangle { x, y, width, height }),
    {
        Rectangle { x, y, width, height }
    }

    /// The x coordinate one past the region, clamped at the numeric range.
    pub open spec fn right(self) -> u32 {
        sat(self.x, self.width)
    }

    /// The y coordinate one past the region, clamped at the numeric range.
    pub open spec fn bottom(self) -> u32 {
        sat(self.y, self.height)
    }

    /// A region holds a point when the point lies between its corners.
    pub open spec fn spec_holds(self, p: Vector) -> bool {
        self.x <= p.x < self.right() && self.y <= p.y < self.bottom()
    }

    /// The region moved by `v`, size unchanged; the position clamps at the
    /// numeric range.
    pub open spec fn spec_translate(self, v: Vector) -> Rectangle {
        Rectangle { x: sat(self.x, v.x), y: sat(self.y, v.y), width: self.width, height: self.height }
    }

    /// Moves the region into the coordinate space that `v` translates from.
    pub fn translate(self, v: Vector) -> (r: Rectangle)
        ensures
            r == self.spec_translate(v),
    {
        Rectangle {
            x: self.x.saturating_add(v.x),
            y: self.y.saturating_add(v.y),
            width: self.width,
            height: self.height,
        }
    }

    /// The largest region lying inside both arguments; a disjoint pair leaves a
    /// zero-sized region at the meeting of their near edges.
    pub open spec fn spec_intersect(self, other: Rectangle) -> Rectangle {
        let left = if self.x >= other.x { self.x } else { other.x };
        let top = if self.y >= other.y { self.y } else { other.y };
        let right = if self.right() <= other.right() { self.right() } else { other.right() };
        let bottom = if self.bottom() <= other.bottom() { self.bottom() } else { other.bottom() };
        Rectangle {
            x: left,
            y: top,
            width: if right > left { (right - left) as u32 } else { 0u32 },
            height: if bottom > top { (bottom - top) as u32 } else { 0u32 },
        }
    }

    /// Clips the region to `other`; nested layers narrow the active clip this way.
    pub fn intersect(self, other: Rectangle) -> (r: Rectangle)
        ensures
            r == self.spec_intersect(other),
    {
        let left = if self.x >= other.x { self.x } else { other.x };
        let top = if self.y >= other.y { self.y } else { other.y };
        let self_right = self.x.saturating_add(self.width);
        let other_right = other.x.saturating_add(other.width);
        let self_bottom = self.y.saturating_add(self.height);
        let other_bottom = other.y.saturating_add(other.height);
        let right = if self_right <= other_right { self_right } else { other_right };
        let bottom = if self_bottom <= other_bottom { self_bottom } else { other_bottom };
        Rectangle {
            x: left,
            y: top,
            width: if right > left { right - left } else { 0 },
            height: if bottom > top { bottom - top } else { 0 },
        }
    }
}

/// A point lies in the intersection of two regions exactly when it lies in both:
/// clipping a layer to its parent draws nothing the parent would not show.
pub proof fn lemma_intersect_holds(a: Rectangle, b: Rectangle, p: Vector)
    ensures
        a.spec_intersect(b).spec_holds(p) <==> a.spec_holds(p) && b.spec_holds(p),
{
}

/// Translating by the identity translation leaves a region unchanged.
pub proof fn lemma_translate_zero(a: Rectangle)
    ensures
        a.spec_translate(Vector { x: 0u32, y: 0u32 }) == a,
{
}

} // verus!
