//! Plain geometric value types: points, viewports and bounding boxes.
//!
//! Coordinates are integers in scene units.

use vstd::prelude::*;

verus! {

/// A point or direction in scene space.
#[derive(Clone, Copy, Debug, PartialEq, Eq, Structural)]
pub struct Vec3 {
    pub x: i64,
    pub y: i64,
    pub z: i64,
}

impl Vec3 {
    pub fn new(x: i64, y: i64, z: i64) -> (r: Vec3)
        ensures
            r == (Vec3 { x, y, z }),
    {
        Vec3 { x, y, z }
    }
}

/// A pixel rectangle of the render target.
#[derive(Clone, Copy, Debug, PartialEq, Eq, Structural)]
pub struct Viewport {
    pub x: i32,
    pub y: i32,
    pub width: u32,
    pub height: u32,
}

impl Viewport {
    /// A viewport of the given size anchored at the origin.
    pub fn new_at_origo(width: u32, height: u32) -> (r: Viewport)
        ensures
            r == (Viewport { x: 0, y: 0, width, height }),
    {
        Viewport { x: 0, y: 0, width, height }
    }

    /// The number of pixels the viewport covers.
    pub fn area(&self) -> (r: u64)
        ensures
            r == self.width * self.height,
    {
        proof {
            vstd::arithmetic::mul::lemma_mul_upper_bound(
                self.width as int,
                u32::MAX as int,
                self.height as int,
                u32::MAX as int,
            );
        }
        self.width as u64 * self.height as u64
    }
}

/// `lo <= p <= hi` on every axis.
pub open spec fn le3(lo: Vec3, hi: Vec3) -> bool {
    lo.x <= hi.x && lo.y <= hi.y && lo.z <= hi.z
}

/// The smallest value on each axis.
pub open spec fn min3(a: Vec3, b: Vec3) -> Vec3 {
    Vec3 {
        x: if a.x <= b.x { a.x } else { b.x },
        y: if a.y <= b.y { a.y } else { b.y },
        z: if a.z <= b.z { a.z } else { b.z },
    }
}

/// The largest value on each axis.
pub open spec fn max3(a: Vec3, b: Vec3) -> Vec3 {
    Vec3 {
        x: if a.x >= b.x { a.x } else { b.x },
        y: if a.y >= b.y { a.y } else { b.y },
        z: if a.z >= b.z { a.z } else { b.z },
    }
}

/// An axis-aligned bounding box. The empty box, which holds no point, has
/// its minimum above its maximum on every axis; every other box has
/// `min <= max` on every axis.
#[derive(Clone, Copy, Debug, PartialEq, Eq, Structural)]
pub struct AxisAlignedBoundingBox {
    pub min: Vec3,
    pub max: Vec3,
}

/// The empty box: the identity of `expanded`.
pub open spec fn empty_box() -> AxisAlignedBoundingBox {
    AxisAlignedBoundingBox {
        min: Vec3 { x: i64::MAX, y: i64::MAX, z: i64::MAX },
        max: Vec3 { x: i64::MIN, y: i64::MIN, z: i64::MIN },
    }
}

/// The smallest box that holds every point of `ps`.
pub open spec fn box_of(ps: Seq<Vec3>) -> AxisAlignedBoundingBox
    decreases ps.len(),
{
    if ps.len() == 0 {
        empty_box()
    } else {
        box_of(ps.drop_last()).expanded(ps.last())
    }
}

impl AxisAlignedBoundingBox {
    pub open spec fn contains_spec(self, p: Vec3) -> bool {
        le3(self.min, p) && le3(p, self.max)
    }

    pub open spec fn is_empty_spec(self) -> bool {
        self == empty_box()
    }

    /// Well-formed: empty, or `min <= max` on every axis.
    pub open spec fn wf(self) -> bool {
        self.is_empty_spec() || le3(self.min, self.max)
    }

    pub open spec fn expanded(self, p: Vec3) -> AxisAlignedBoundingBox {
        AxisAlignedBoundingBox { min: min3(self.min, p), max: max3(self.max, p) }
    }

    /// The box that holds no point.
    pub fn empty() -> (r: AxisAlignedBoundingBox)
        ensures
            r == empty_box(),
            r.wf(),
            forall|p: Vec3| !r.contains_spec(p),
    {
        AxisAlignedBoundingBox {
            min: Vec3 { x: i64::MAX, y: i64::MAX, z: i64::MAX },
            max: Vec3 { x: i64::MIN, y: i64::MIN, z: i64::MIN },
        }
    }

    pub fn is_empty(&self) -> (r: bool)
        ensures
            r == self.is_empty_spec(),
    {
        self.min.x == i64::MAX && self.min.y == i64::MAX && self.min.z == i64::MAX
            && self.max.x == i64::MIN && self.max.y == i64::MIN && self.max.z == i64::MIN
    }

    /// Whether `p` lies inside the box, borders included.
    pub fn contains(&self, p: Vec3) -> (r: bool)
        ensures
            r == self.contains_spec(p),
    {
        self.min.x <= p.x && self.min.y <= p.y && self.min.z <= p.z && p.x <= self.max.x
            && p.y <= self.max.y && p.z <= self.max.z
    }

    /// Grows the box so that it holds `p` too.
    pub fn expand(&mut self, p: Vec3)
        ensures
            *final(self) == old(self).expanded(p),
    {
        if p.x < self.min.x {
            self.min.x = p.x;
        }
        if p.y < self.min.y {
            self.min.y = p.y;
        }
        if p.z < self.min.z {
            self.min.z = p.z;
        }
        if p.x > self.max.x {
            self.max.x = p.x;
        }
        if p.y > self.max.y {
            self.max.y = p.y;
        }
        if p.z > self.max.z {
            self.max.z = p.z;
        }
    }

    /// The smallest box that holds every position given.
    pub fn new_with_positions(positions: &Vec<Vec3>) -> (r: AxisAlignedBoundingBox)
        ensures
            r == box_of(positions@),
            r.wf(),
            forall|i: int| 0 <= i < positions@.len() ==> r.contains_spec(#[trigger] positions@[i]),
            positions@.len() == 0 <==> r.is_empty_spec(),
    {
        let mut b = AxisAlignedBoundingBox::empty();
        let mut i: usize = 0;
        while i < positions.len()
            invariant
                i <= positions@.len(),
                b == box_of(positions@.subrange(0, i as int)),
            decreases positions@.len() - i,
        {
            b.expand(positions[i]);
            proof {
                assert(positions@.subrange(0, i + 1).drop_last() =~= positions@.subrange(0, i as int));
            }
            i = i + 1;
        }
        proof {
            assert(positions@.subrange(0, i as int) =~= positions@);
            lemma_box_of_bounds(positions@);
        }
        b
    }
}

/// The box of a sequence is well-formed, holds each of its points, and is
/// empty exactly when the sequence is.
pub proof fn lemma_box_of_bounds(ps: Seq<Vec3>)
    ensures
        box_of(ps).wf(),
        forall|i: int| 0 <= i < ps.len() ==> box_of(ps).contains_spec(#[trigger] ps[i]),
        ps.len() == 0 <==> box_of(ps).is_empty_spec(),
        ps.len() > 0 ==> le3(box_of(ps).min, box_of(ps).max),
    decreases ps.len(),
{
    if ps.len() > 0 {
        let init = ps.drop_last();
        lemma_box_of_bounds(init);
        assert forall|i: int| 0 <= i < ps.len() implies box_of(ps).contains_spec(#[trigger] ps[i]) by {
            if i < ps.len() - 1 {
                assert(ps[i] == init[i]);
                assert(box_of(init).contains_spec(init[i]));
            }
        }
        assert(box_of(ps).contains_spec(ps.last()));
    }
}

} // verus!
