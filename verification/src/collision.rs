//! Circle-versus-box collision detection and resolution.
//!
//! The ball is a bounding circle; paddles and gutters are axis-aligned
//! boxes. A hit is classified by the face it struck, and resolution reflects
//! the matching velocity component.

use vstd::prelude::*;

use crate::vec2::{abs_i, within, V2, Vec2i};

verus! {

/// Greatest coordinate magnitude the collision test accepts; squares of
/// offsets between such coordinates still fit comfortably in `i64`.
pub const COORD_MAX: i64 = 4_000_000;

/// Which face of a box the ball struck.
#[derive(Clone, Copy, PartialEq, Eq, Structural, Debug)]
pub enum Collision {
    Left,
    Right,
    Top,
    Bottom,
}

/// The ball as a circle: a center and a radius.
#[derive(Clone, Copy, PartialEq, Eq, Structural, Debug)]
pub struct BoundingCircle {
    pub center: Vec2i,
    pub radius: i64,
}

/// An axis-aligned box: a center and half-extents along each axis.
#[derive(Clone, Copy, PartialEq, Eq, Structural, Debug)]
pub struct Aabb2d {
    pub center: Vec2i,
    pub half_size: Vec2i,
}

impl BoundingCircle {
    pub open spec fn wf(self) -> bool {
        &&& within(self.center@, COORD_MAX as int)
        &&& 0 <= self.radius <= COORD_MAX
    }

    pub fn new(center: Vec2i, radius: i64) -> (r: BoundingCircle)
        ensures
            r.center == center,
            r.radius == radius,
    {
        BoundingCircle { center, radius }
    }

    /// Whether the circle and the box overlap (touching counts).
    pub fn intersects(&self, wall: &Aabb2d) -> (r: bool)
        requires
            self.wf(),
            wall.wf(),
        ensures
            r == circle_box_intersect(
                self.center@,
                self.radius as int,
                wall.center@,
                wall.half_size@,
            ),
    {
        let closest = wall.closest_point(self.center);
        let dx = self.center.x - closest.x;
        let dy = self.center.y - closest.y;
        proof {
            lemma_square_bound(dx as int, 3 * COORD_MAX as int);
            lemma_square_bound(dy as int, 3 * COORD_MAX as int);
            lemma_square_bound(self.radius as int, COORD_MAX as int);
        }
        dx * dx + dy * dy <= self.radius * self.radius
    }
}

impl Aabb2d {
    pub open spec fn wf(self) -> bool {
        &&& within(self.center@, COORD_MAX as int)
        &&& 0 <= self.half_size.x <= COORD_MAX
        &&& 0 <= self.half_size.y <= COORD_MAX
    }

    pub fn new(center: Vec2i, half_size: Vec2i) -> (r: Aabb2d)
        ensures
            r.center == center,
            r.half_size == half_size,
    {
        Aabb2d { center, half_size }
    }

    /// The point of the box closest to `p`: `p` clamped to the box.
    pub fn closest_point(&self, p: Vec2i) -> (r: Vec2i)
        requires
            self.wf(),
            within(p@, COORD_MAX as int),
        ensures
            r@ == closest_on_box(p@, self.center@, self.half_size@),
    {
        let x = clamp(p.x, self.center.x - self.half_size.x, self.center.x + self.half_size.x);
        let y = clamp(p.y, self.center.y - self.half_size.y, self.center.y + self.half_size.y);
        Vec2i { x, y }
    }
}

/// A square grows no faster than the square of a bound on its magnitude.
proof fn lemma_square_bound(a: int, b: int)
    requires
        abs_i(a) <= b,
    ensures
        0 <= a * a <= b * b,
{
    assert(0 <= a * a <= b * b) by (nonlinear_arith)
        requires
            -b <= a <= b,
    ;
}

/// `x` clamped to `lo ..= hi`.
pub open spec fn clamped(x: int, lo: int, hi: int) -> int {
    if x < lo {
        lo
    } else if x > hi {
        hi
    } else {
        x
    }
}

fn clamp(x: i64, lo: i64, hi: i64) -> (r: i64)
    requires
        lo <= hi,
    ensures
        r == clamped(x as int, lo as int, hi as int),
{
    if x < lo {
        lo
    } else if x > hi {
        hi
    } else {
        x
    }
}

/// The point of the box `(bc, bh)` closest to `c`.
pub open spec fn closest_on_box(c: V2, bc: V2, bh: V2) -> V2 {
    V2 { x: clamped(c.x, bc.x - bh.x, bc.x + bh.x), y: clamped(c.y, bc.y - bh.y, bc.y + bh.y) }
}

/// Squared Euclidean distance between two points.
pub open spec fn dist_sq(a: V2, b: V2) -> int {
    (a.x - b.x) * (a.x - b.x) + (a.y - b.y) * (a.y - b.y)
}

/// The circle `(c, r)` and the box `(bc, bh)` overlap: the box's closest
/// point to the circle's center lies within `r` of it.
pub open spec fn circle_box_intersect(c: V2, r: int, bc: V2, bh: V2) -> bool {
    dist_sq(c, closest_on_box(c, bc, bh)) <= r * r
}

/// Which face an offset from the box's closest point points away from.
/// The larger axis of the offset decides; ties fall to the vertical axis,
/// and a zero offset counts as `Bottom`.
pub open spec fn side_of(offset: V2) -> Collision {
    if abs_i(offset.x) > abs_i(offset.y) {
        if offset.x < 0 {
            Collision::Left
        } else {
            Collision::Right
        }
    } else if offset.y > 0 {
        Collision::Top
    } else {
        Collision::Bottom
    }
}

/// The outcome of testing circle `(c, r)` against box `(bc, bh)`:
/// `None` when they do not overlap, otherwise the struck face.
pub open spec fn collision_of(c: V2, r: int, bc: V2, bh: V2) -> Option<Collision> {
    if !circle_box_intersect(c, r, bc, bh) {
        None
    } else {
        Some(side_of(V2 { x: c.x - closest_on_box(c, bc, bh).x, y: c.y - closest_on_box(c, bc, bh).y }))
    }
}

/// `v` with the component on the struck axis negated.
pub open spec fn reflected(v: V2, side: Collision) -> V2 {
    match side {
        Collision::Left => V2 { x: -v.x, y: v.y },
        Collision::Right => V2 { x: -v.x, y: v.y },
        Collision::Top => V2 { x: v.x, y: -v.y },
        Collision::Bottom => V2 { x: v.x, y: -v.y },
    }
}

/// Tests the ball against one box and names the struck face, if any.
pub fn collide_with_side(ball: BoundingCircle, wall: Aabb2d) -> (r: Option<Collision>)
    requires
        ball.wf(),
        wall.wf(),
    ensures
        r == collision_of(ball.center@, ball.radius as int, wall.center@, wall.half_size@),
{
    if !ball.intersects(&wall) {
        return None;
    }
    let closest = wall.closest_point(ball.center);
    let offset_x = ball.center.x - closest.x;
    let offset_y = ball.center.y - closest.y;
    let abs_x = if offset_x < 0 { -offset_x } else { offset_x };
    let abs_y = if offset_y < 0 { -offset_y } else { offset_y };
    let side = if abs_x > abs_y {
        if offset_x < 0 {
            Collision::Left
        } else {
            Collision::Right
        }
    } else if offset_y > 0 {
        Collision::Top
    } else {
        Collision::Bottom
    };
    Some(side)
}

/// Collision resolution is reflective: whatever face was struck, the
/// velocity component on the struck axis comes out with its sign flipped
/// and its magnitude unchanged, and the other component is untouched.
pub proof fn lemma_reflection_is_reflective(v: V2, side: Collision)
    ensures
        side == Collision::Left || side == Collision::Right ==> reflected(v, side)
            == (V2 { x: -v.x, y: v.y }),
        side == Collision::Top || side == Collision::Bottom ==> reflected(v, side)
            == (V2 { x: v.x, y: -v.y }),
        abs_i(reflected(v, side).x) == abs_i(v.x),
        abs_i(reflected(v, side).y) == abs_i(v.y),
{
}

} // verus!
