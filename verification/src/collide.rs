use vstd::prelude::*;

verus! {

/// An axis-aligned bounding box: a center point and a box size, both in
/// tenths of a field unit.
pub struct Aabb {
    pub cx: i64,
    pub cy: i64,
    pub sx: i64,
    pub sy: i64,
}

/// Coordinate bound under which the overlap arithmetic cannot leave an i64.
pub const AABB_LIMIT: i64 = 0x1000_0000_0000_0000;

impl Aabb {
    /// Sizes are non-negative and everything is far from the i64 edges.
    pub open spec fn wf(self) -> bool {
        &&& -AABB_LIMIT <= self.cx <= AABB_LIMIT
        &&& -AABB_LIMIT <= self.cy <= AABB_LIMIT
        &&& 0 <= self.sx <= AABB_LIMIT
        &&& 0 <= self.sy <= AABB_LIMIT
    }
}

/// Two boxes overlap exactly when, on each axis, the distance between the
/// centers is less than half the sum of the sizes. The halving is written as
/// a doubling of the distance so the statement is exact in integers.
pub open spec fn spec_overlap(a: Aabb, b: Aabb) -> bool {
    &&& 2 * vstd::math::abs(a.cx - b.cx) < a.sx + b.sx
    &&& 2 * vstd::math::abs(a.cy - b.cy) < a.sy + b.sy
}

/// For boxes whose sizes sum to an even number on each axis — all of this
/// game's boxes do — the doubled form is exactly the textbook test: the
/// centers are closer than half the summed sizes on both axes.
pub proof fn lemma_overlap_formula(a: Aabb, b: Aabb)
    requires
        (a.sx + b.sx) % 2 == 0,
        (a.sy + b.sy) % 2 == 0,
    ensures
        spec_overlap(a, b) <==> {
            &&& vstd::math::abs(a.cx - b.cx) < (a.sx + b.sx) / 2
            &&& vstd::math::abs(a.cy - b.cy) < (a.sy + b.sy) / 2
        },
{
}

/// Axis-aligned bounding-box overlap test.
pub fn aabb_overlap(a: &Aabb, b: &Aabb) -> (r: bool)
    requires
        a.wf(),
        b.wf(),
    ensures
        r == spec_overlap(*a, *b),
{
    let dx = abs_diff(a.cx, b.cx);
    let dy = abs_diff(a.cy, b.cy);
    2 * dx < a.sx + b.sx && 2 * dy < a.sy + b.sy
}

/// The absolute difference of two coordinates that are far from the i64 edges.
fn abs_diff(a: i64, b: i64) -> (r: i64)
    requires
        -AABB_LIMIT <= a <= AABB_LIMIT,
        -AABB_LIMIT <= b <= AABB_LIMIT,
    ensures
        r == vstd::math::abs(a - b),
{
    if a >= b {
        a - b
    } else {
        b - a
    }
}

} // verus!
