//! Points, transforms and the two bounding shapes of the game.

use vstd::prelude::*;
use crate::fixed::{clamp_i64, clamped, in_limit, saturate, saturated, LIMIT, UNIT};

verus! {

/// A point or a displacement of the plane.
#[derive(Clone, Copy, Debug, PartialEq, Eq, Structural)]
pub struct Vec2 {
    pub x: i32,
    pub y: i32,
}

impl Vec2 {
    /// Whether both components are coordinates of the simulation.
    pub open spec fn wf(self) -> bool {
        in_limit(self.x as int) && in_limit(self.y as int)
    }

    /// This point moved by `(dx, dy)`, each coordinate kept in the limit.
    pub open spec fn translated(self, dx: int, dy: int) -> Vec2 {
        Vec2 { x: saturated(self.x + dx) as i32, y: saturated(self.y + dy) as i32 }
    }

    pub fn new(x: i32, y: i32) -> (v: Self)
        ensures
            v == (Vec2 { x, y }),
    {
        Vec2 { x, y }
    }

    /// The origin.
    pub fn zero() -> (v: Self)
        ensures
            v == (Vec2 { x: 0, y: 0 }),
            v.wf(),
    {
        Vec2 { x: 0, y: 0 }
    }

    /// This point moved by `by`, each coordinate kept in the limit.
    pub fn translate(self, by: Vec2) -> (v: Self)
        ensures
            v == self.translated(by.x as int, by.y as int),
            v.wf(),
    {
        Vec2 {
            x: saturate(self.x as i64 + by.x as i64),
            y: saturate(self.y as i64 + by.y as i64),
        }
    }
}

/// Where something is and how large it is drawn: the size of a box in
/// sub-units, or for the ball the factor, in thousandths, by which its circle
/// is enlarged.
#[derive(Clone, Copy, Debug, PartialEq, Eq, Structural)]
pub struct Transform {
    pub translation: Vec2,
    pub scale: Vec2,
}

impl Transform {
    /// Whether the position is in the limit and the scale is not negative.
    pub open spec fn wf(self) -> bool {
        &&& self.translation.wf()
        &&& 0 <= self.scale.x <= LIMIT
        &&& 0 <= self.scale.y <= LIMIT
    }

    /// A transform at `(x, y)` with the scale one.
    pub fn from_xy(x: i32, y: i32) -> (t: Self)
        ensures
            t == (Transform { translation: Vec2 { x, y }, scale: Vec2 { x: UNIT, y: UNIT } }),
    {
        Transform { translation: Vec2 { x, y }, scale: Vec2 { x: UNIT, y: UNIT } }
    }

    /// This transform with another scale.
    pub fn with_scale(self, scale: Vec2) -> (t: Self)
        ensures
            t == (Transform { translation: self.translation, scale }),
    {
        Transform { translation: self.translation, scale }
    }
}

/// An axis-aligned box, given by its lower left and upper right corners.
#[derive(Clone, Copy, Debug, PartialEq, Eq, Structural)]
pub struct Aabb2d {
    pub min: Vec2,
    pub max: Vec2,
}

impl Aabb2d {
    /// Whether the corners are in order.
    pub open spec fn wf(self) -> bool {
        self.min.x <= self.max.x && self.min.y <= self.max.y
    }

    /// The box around `center` that reaches `half_size` to each side.
    pub open spec fn around(center: Vec2, half_size: Vec2) -> Aabb2d {
        Aabb2d {
            min: Vec2 { x: (center.x - half_size.x) as i32, y: (center.y - half_size.y) as i32 },
            max: Vec2 { x: (center.x + half_size.x) as i32, y: (center.y + half_size.y) as i32 },
        }
    }

    /// The point of the box that is nearest to `point`: each coordinate of
    /// `point` moved into the box.
    pub open spec fn nearest(self, point: Vec2) -> Vec2 {
        Vec2 {
            x: clamped(point.x as int, self.min.x as int, self.max.x as int) as i32,
            y: clamped(point.y as int, self.min.y as int, self.max.y as int) as i32,
        }
    }

    /// Whether `point` lies in the box or on its border.
    pub open spec fn contains(self, point: Vec2) -> bool {
        self.min.x <= point.x <= self.max.x && self.min.y <= point.y <= self.max.y
    }

    /// The box around `center` that reaches `half_size` to each side.
    pub fn new(center: Vec2, half_size: Vec2) -> (aabb: Self)
        requires
            center.wf(),
            0 <= half_size.x <= LIMIT,
            0 <= half_size.y <= LIMIT,
        ensures
            aabb == Self::around(center, half_size),
            aabb.min.x == center.x - half_size.x,
            aabb.min.y == center.y - half_size.y,
            aabb.max.x == center.x + half_size.x,
            aabb.max.y == center.y + half_size.y,
            aabb.wf(),
    {
        Aabb2d {
            min: Vec2 { x: center.x - half_size.x, y: center.y - half_size.y },
            max: Vec2 { x: center.x + half_size.x, y: center.y + half_size.y },
        }
    }

    /// The point of the box that is nearest to `point`.
    pub fn closest_point(&self, point: Vec2) -> (p: Vec2)
        requires
            self.wf(),
        ensures
            p == self.nearest(point),
            self.contains(p),
            self.contains(point) ==> p == point,
    {
        Vec2 {
            x: clamp_i64(point.x as i64, self.min.x as i64, self.max.x as i64) as i32,
            y: clamp_i64(point.y as i64, self.min.y as i64, self.max.y as i64) as i32,
        }
    }
}

/// A circle primitive: the shape of the ball before its transform enlarges it.
#[derive(Clone, Copy, Debug, PartialEq, Eq, Structural)]
pub struct Circle {
    pub radius: i32,
}

/// A circle in the plane.
#[derive(Clone, Copy, Debug, PartialEq, Eq, Structural)]
pub struct BoundingCircle {
    pub center: Vec2,
    pub radius: i32,
}

impl BoundingCircle {
    /// Whether the radius is not negative.
    pub open spec fn wf(self) -> bool {
        self.radius >= 0
    }

    /// The square of the distance from the circle's center to the box.
    pub open spec fn distance_squared(self, aabb: Aabb2d) -> int {
        distance_squared(self.center, aabb.nearest(self.center))
    }

    /// Whether circle and box have a point in common: the box's nearest point
    /// is no farther from the center than the radius. Touching counts.
    pub open spec fn overlaps(self, aabb: Aabb2d) -> bool {
        self.distance_squared(aabb) <= self.radius * self.radius
    }

    pub fn new(center: Vec2, radius: i32) -> (c: Self)
        ensures
            c == (BoundingCircle { center, radius }),
    {
        BoundingCircle { center, radius }
    }

    /// Whether circle and box have a point in common.
    pub fn intersects(&self, aabb: &Aabb2d) -> (hit: bool)
        requires
            self.wf(),
            aabb.wf(),
        ensures
            hit == self.overlaps(*aabb),
    {
        let nearest = aabb.closest_point(self.center);
        let dx: i128 = self.center.x as i128 - nearest.x as i128;
        let dy: i128 = self.center.y as i128 - nearest.y as i128;
        let r: i128 = self.radius as i128;
        assert(0 <= dx * dx <= 0x1_0000_0000_0000_0000) by (nonlinear_arith)
            requires
                -0x1_0000_0000 <= dx <= 0x1_0000_0000,
        ;
        assert(0 <= dy * dy <= 0x1_0000_0000_0000_0000) by (nonlinear_arith)
            requires
                -0x1_0000_0000 <= dy <= 0x1_0000_0000,
        ;
        assert(0 <= r * r <= 0x1_0000_0000_0000_0000) by (nonlinear_arith)
            requires
                0 <= r <= 0x1_0000_0000,
        ;
        dx * dx + dy * dy <= r * r
    }
}

/// The square of the distance between two points.
pub open spec fn distance_squared(p: Vec2, q: Vec2) -> int {
    (p.x - q.x) * (p.x - q.x) + (p.y - q.y) * (p.y - q.y)
}

/// No point of a box is nearer to `point` than the one that `nearest` gives,
/// which is a point of the box itself.
pub proof fn lemma_nearest_is_nearest(aabb: Aabb2d, point: Vec2, other: Vec2)
    requires
        aabb.wf(),
        aabb.contains(other),
    ensures
        aabb.contains(aabb.nearest(point)),
        distance_squared(point, aabb.nearest(point)) <= distance_squared(point, other),
{
    let near = aabb.nearest(point);
    let ax = point.x - near.x;
    let bx = point.x - other.x;
    let ay = point.y - near.y;
    let by = point.y - other.y;
    assert(ax * ax <= bx * bx) by (nonlinear_arith)
        requires
            (0 <= ax <= bx) || (bx <= ax <= 0),
    ;
    assert(ay * ay <= by * by) by (nonlinear_arith)
        requires
            (0 <= ay <= by) || (by <= ay <= 0),
    ;
}

/// A circle overlaps a box exactly when some point of the box is no farther
/// from the circle's center than the radius.
pub proof fn lemma_overlap_is_a_common_point(circle: BoundingCircle, aabb: Aabb2d)
    requires
        aabb.wf(),
    ensures
        circle.overlaps(aabb) <==> exists|point: Vec2|
            aabb.contains(point) && #[trigger] distance_squared(circle.center, point)
                <= circle.radius * circle.radius,
{
    let near = aabb.nearest(circle.center);
    if circle.overlaps(aabb) {
        assert(aabb.contains(near));
        assert(distance_squared(circle.center, near) <= circle.radius * circle.radius);
    }
    if exists|point: Vec2|
        aabb.contains(point) && #[trigger] distance_squared(circle.center, point) <= circle.radius
            * circle.radius {
        let point = choose|point: Vec2|
            aabb.contains(point) && #[trigger] distance_squared(circle.center, point)
                <= circle.radius * circle.radius;
        lemma_nearest_is_nearest(aabb, circle.center, point);
    }
}

} // verus!
