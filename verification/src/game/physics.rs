//! How the ball meets a box: the test, the side that was hit, and what the
//! hit does to the ball.

use vstd::prelude::*;
use crate::fixed::{abs_i64, magnitude};
use crate::math::{Aabb2d, BoundingCircle, Transform, Vec2};

verus! {

/// Something the ball bounces off: a box around `transform.translation`, as
/// wide and as high as `transform.scale`. A paddle also changes the ball's
/// vertical speed.
#[derive(Clone, Copy, Debug, PartialEq, Eq, Structural)]
pub struct Collider {
    pub transform: Transform,
    pub paddle: bool,
}

impl Collider {
    /// Half the collider's size; an odd size loses its last sub-unit.
    pub open spec fn half_size(self) -> Vec2 {
        Vec2 { x: (self.transform.scale.x / 2) as i32, y: (self.transform.scale.y / 2) as i32 }
    }

    /// The box that the ball is tested against.
    pub open spec fn aabb(self) -> Aabb2d {
        Aabb2d::around(self.transform.translation, self.half_size())
    }

    /// The box that the ball is tested against.
    pub fn bounding_box(&self) -> (aabb: Aabb2d)
        requires
            self.transform.wf(),
        ensures
            aabb == self.aabb(),
            aabb.wf(),
    {
        Aabb2d::new(
            self.transform.translation,
            Vec2 { x: self.transform.scale.x / 2, y: self.transform.scale.y / 2 },
        )
    }
}

/// The velocity of a body, in sub-units per second.
#[derive(Clone, Copy, Debug, PartialEq, Eq, Structural)]
pub struct LinearVelocity(pub Vec2);

/// The side of a box that the ball hit.
#[derive(Clone, Copy, Debug, PartialEq, Eq, Structural)]
pub enum Collision {
    Left,
    Right,
    Top,
    Bottom,
}

impl Collision {
    /// The side's name in lower case.
    pub open spec fn name(self) -> Seq<char> {
        match self {
            Collision::Left => "left"@,
            Collision::Right => "right"@,
            Collision::Top => "top"@,
            Collision::Bottom => "bottom"@,
        }
    }

    /// The side that a penetration offset points out of. Where the offset is
    /// more vertical than horizontal the hit is on top (offset upward) or
    /// bottom; otherwise, and so on a tie, it is on the right (offset to the
    /// right) or left. The zero offset, of a center inside the box, counts as
    /// left.
    pub open spec fn of_penetration(offset: Vec2) -> Collision {
        if magnitude(offset.y as int) > magnitude(offset.x as int) {
            if offset.y > 0 {
                Collision::Top
            } else {
                Collision::Bottom
            }
        } else {
            if offset.x > 0 {
                Collision::Right
            } else {
                Collision::Left
            }
        }
    }

    /// The velocity after a hit on this side: the component that moved into
    /// the surface is reversed, one that already leaves it is kept.
    pub open spec fn reflect(self, velocity: Vec2) -> Vec2 {
        match self {
            Collision::Left => if velocity.x > 0 {
                Vec2 { x: (-velocity.x) as i32, y: velocity.y }
            } else {
                velocity
            },
            Collision::Right => if velocity.x < 0 {
                Vec2 { x: (-velocity.x) as i32, y: velocity.y }
            } else {
                velocity
            },
            Collision::Top => if velocity.y < 0 {
                Vec2 { x: velocity.x, y: (-velocity.y) as i32 }
            } else {
                velocity
            },
            Collision::Bottom => if velocity.y > 0 {
                Vec2 { x: velocity.x, y: (-velocity.y) as i32 }
            } else {
                velocity
            },
        }
    }

    pub fn as_str(&self) -> (name: &'static str)
        ensures
            name@ == self.name(),
    {
        match *self {
            Collision::Left => "left",
            Collision::Right => "right",
            Collision::Top => "top",
            Collision::Bottom => "bottom",
        }
    }

    /// The side that a penetration offset points out of.
    pub fn from_penetration(offset: Vec2) -> (side: Self)
        ensures
            side == Self::of_penetration(offset),
    {
        if abs_i64(offset.y as i64) > abs_i64(offset.x as i64) {
            if offset.y > 0 {
                Collision::Top
            } else {
                Collision::Bottom
            }
        } else {
            if offset.x > 0 {
                Collision::Right
            } else {
                Collision::Left
            }
        }
    }
}

/// An offset that is more horizontal than vertical is a hit on the left where
/// it points left and on the right where it points right; one that is more
/// vertical than horizontal is a hit on top where it points up and on the
/// bottom where it points down.
pub proof fn lemma_side_follows_larger_component(offset: Vec2)
    ensures
        magnitude(offset.x as int) > magnitude(offset.y as int) && offset.x < 0
            ==> Collision::of_penetration(offset) == Collision::Left,
        magnitude(offset.x as int) > magnitude(offset.y as int) && offset.x > 0
            ==> Collision::of_penetration(offset) == Collision::Right,
        magnitude(offset.y as int) > magnitude(offset.x as int) && offset.y > 0
            ==> Collision::of_penetration(offset) == Collision::Top,
        magnitude(offset.y as int) > magnitude(offset.x as int) && offset.y < 0
            ==> Collision::of_penetration(offset) == Collision::Bottom,
        magnitude(offset.x as int) == magnitude(offset.y as int) ==> Collision::of_penetration(
            offset,
        ) == (if offset.x > 0 {
            Collision::Right
        } else {
            Collision::Left
        }),
{
}

/// The side that is hit is the side on which the ball is: where a ball
/// overlaps a box, a hit on the right means that the ball's center lies to
/// the right of the box, a hit on top that it lies above, a hit on the
/// bottom that it lies below, and a hit on the left that it lies to the left
/// of the box or, the one case of a zero offset, inside it.
pub proof fn lemma_side_is_where_the_ball_is(ball: BoundingCircle, bounding_box: Aabb2d)
    requires
        ball.wf(),
        bounding_box.wf(),
        ball.overlaps(bounding_box),
    ensures
        penetration(ball, bounding_box) is Some,
        ({
            let offset = penetration(ball, bounding_box)->0;
            let side = Collision::of_penetration(offset);
            &&& side == Collision::Right ==> ball.center.x > bounding_box.max.x
            &&& side == Collision::Top ==> ball.center.y > bounding_box.max.y
            &&& side == Collision::Bottom ==> ball.center.y < bounding_box.min.y
            &&& side == Collision::Left ==> ball.center.x < bounding_box.min.x
                || bounding_box.contains(ball.center)
            &&& bounding_box.contains(ball.center) <==> offset == (Vec2 { x: 0, y: 0 })
        }),
{
    let nearest = bounding_box.nearest(ball.center);
    let dx = ball.center.x - nearest.x;
    let dy = ball.center.y - nearest.y;
    let r = ball.radius as int;
    assert(magnitude(dx) <= r && magnitude(dy) <= r) by (nonlinear_arith)
        requires
            dx * dx + dy * dy <= r * r,
            r >= 0,
    ;
}

/// A hit turns back a ball that moves into the side and leaves one that
/// moves away from it as it is: on the right side of a box a ball that moved
/// left moves right afterwards, and so for the other three sides.
pub proof fn lemma_reflection_turns_the_ball_back(velocity: Vec2)
    requires
        velocity.wf(),
    ensures
        velocity.x < 0 ==> Collision::Right.reflect(velocity).x > 0,
        velocity.x > 0 ==> Collision::Left.reflect(velocity).x < 0,
        velocity.y < 0 ==> Collision::Top.reflect(velocity).y > 0,
        velocity.y > 0 ==> Collision::Bottom.reflect(velocity).y < 0,
        velocity.x >= 0 ==> Collision::Right.reflect(velocity) == velocity,
        velocity.x <= 0 ==> Collision::Left.reflect(velocity) == velocity,
        velocity.y >= 0 ==> Collision::Top.reflect(velocity) == velocity,
        velocity.y <= 0 ==> Collision::Bottom.reflect(velocity) == velocity,
        forall|side: Collision| #[trigger]
            side.reflect(side.reflect(velocity)) == side.reflect(velocity),
{
}

/// The offset from the nearest point of `bounding_box` to the center of
/// `ball` where the two overlap, and nothing where they do not.
pub open spec fn penetration(ball: BoundingCircle, bounding_box: Aabb2d) -> Option<Vec2> {
    if ball.overlaps(bounding_box) {
        let nearest = bounding_box.nearest(ball.center);
        Some(
            Vec2 {
                x: (ball.center.x - nearest.x) as i32,
                y: (ball.center.y - nearest.y) as i32,
            },
        )
    } else {
        None
    }
}

/// What a hit with the given offset makes of the ball: moved by the offset,
/// and reflected off the side that the offset names.
pub open spec fn resolved(offset: Vec2, transform: Transform, velocity: LinearVelocity) -> (
    Transform,
    LinearVelocity,
) {
    (
        Transform {
            translation: transform.translation.translated(offset.x as int, offset.y as int),
            scale: transform.scale,
        },
        LinearVelocity(Collision::of_penetration(offset).reflect(velocity.0)),
    )
}

/// Moves the ball out of the box by `offset` and reverses the component of
/// its velocity that moved into the side that was hit.
pub fn resolve_ball_collision(
    offset: Vec2,
    transform: &mut Transform,
    velocity: &mut LinearVelocity,
)
    requires
        old(velocity).0.wf(),
    ensures
        (*final(transform), *final(velocity)) == resolved(offset, *old(transform), *old(velocity)),
        final(velocity).0.wf(),
        final(transform).translation.wf(),
{
    transform.translation = transform.translation.translate(offset);

    let mut reflect_x = false;
    let mut reflect_y = false;

    match Collision::from_penetration(offset) {
        Collision::Left => reflect_x = velocity.0.x > 0,
        Collision::Right => reflect_x = velocity.0.x < 0,
        Collision::Top => reflect_y = velocity.0.y < 0,
        Collision::Bottom => reflect_y = velocity.0.y > 0,
    }

    if reflect_x {
        velocity.0.x = -velocity.0.x;
    }
    if reflect_y {
        velocity.0.y = -velocity.0.y;
    }
}

/// The penetration offset of `ball` into `bounding_box`, if they overlap.
pub fn ball_collision(ball: &BoundingCircle, bounding_box: &Aabb2d) -> (offset: Option<Vec2>)
    requires
        ball.wf(),
        bounding_box.wf(),
    ensures
        offset == penetration(*ball, *bounding_box),
        offset matches Some(by) ==> magnitude(by.x as int) <= ball.radius && magnitude(by.y as int)
            <= ball.radius,
{
    if !ball.intersects(bounding_box) {
        return None;
    }
    let closest = bounding_box.closest_point(ball.center);
    proof {
        let dx = ball.center.x - closest.x;
        let dy = ball.center.y - closest.y;
        let r = ball.radius as int;
        assert(magnitude(dx) <= r && magnitude(dy) <= r) by (nonlinear_arith)
            requires
                dx * dx + dy * dy <= r * r,
                r >= 0,
        ;
    }
    Some(Vec2 { x: ball.center.x - closest.x, y: ball.center.y - closest.y })
}

} // verus!
