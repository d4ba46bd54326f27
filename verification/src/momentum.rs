//! Momentum of a moving entity, and the outcome of a resolved move.

use crate::types::{abs_i32, abs_int, clamp_int, max_int, sign_i32, sign_int, ObjectId};
use vstd::prelude::*;

verus! {

/// Calls `num::clamp` on machine integers. The contract repeats what its
/// documentation says: the input where it lies between the bounds, else the
/// bound that it passes. The bounds must be in order, since the function
/// checks that in debug builds.
#[verifier::external_body]
fn clamp_i64(input: i64, min: i64, max: i64) -> (r: i64)
    requires
        min <= max,
    ensures
        r == clamp_int(input as int, min as int, max as int),
{
    num::clamp(input, min, max)
}

/// Velocity that an entity builds up by moving several times the same way.
#[derive(Clone, Copy, Debug, PartialEq, Eq, Structural)]
pub struct Momentum {
    pub mx: i32,
    pub my: i32,
    pub took_half_turn: bool,
    pub max: i32,
}

impl Default for Momentum {
    fn default() -> (m: Momentum)
        ensures
            m == (Momentum { mx: 0, my: 0, took_half_turn: false, max: 2 }),
            m.wf(),
    {
        Momentum { mx: 0, my: 0, took_half_turn: false, max: 2 }
    }
}

/// One axis of momentum after a move by `d` along that axis: lost if the
/// move does not go the way of the momentum, else advanced by one step in
/// the direction of the move, within the limit.
pub open spec fn axis_after_move(m: int, d: int, max: int) -> int {
    if m != 0 && sign_int(d) != sign_int(m) {
        0
    } else {
        clamp_int(m + sign_int(d), -max, max)
    }
}

impl Momentum {
    /// Neither axis exceeds the limit, which is not negative.
    pub open spec fn wf(self) -> bool {
        &&& self.max >= 0
        &&& abs_int(self.mx as int) <= self.max
        &&& abs_int(self.my as int) <= self.max
    }

    /// The larger of the two axes, without sign.
    pub open spec fn magnitude_spec(self) -> int {
        max_int(abs_int(self.mx as int), abs_int(self.my as int))
    }

    /// Whether the entity has any momentum.
    pub fn running(&mut self) -> (r: bool)
        requires
            old(self).mx > i32::MIN,
            old(self).my > i32::MIN,
        ensures
            *final(self) == *old(self),
            r == (old(self).magnitude_spec() != 0),
    {
        return self.magnitude() != 0;
    }

    pub fn magnitude(&self) -> (r: i32)
        requires
            self.mx > i32::MIN,
            self.my > i32::MIN,
        ensures
            r == self.magnitude_spec(),
    {
        if abs_i32(self.mx) > abs_i32(self.my) {
            return abs_i32(self.mx);
        } else {
            return abs_i32(self.my);
        }
    }

    /// Whether the momentum has a part along both axes.
    pub fn diagonal(&self) -> (r: bool)
        ensures
            r == (self.mx != 0 && self.my != 0),
    {
        return self.mx != 0 && self.my != 0;
    }

    /// Updates the momentum after a move by `(dx, dy)`. Whatever the
    /// momentum was, afterwards neither axis exceeds the limit. The limit
    /// must not be negative.
    pub fn moved(&mut self, dx: i32, dy: i32)
        requires
            old(self).max >= 0,
        ensures
            final(self).mx == axis_after_move(
                old(self).mx as int,
                dx as int,
                old(self).max as int,
            ),
            final(self).my == axis_after_move(
                old(self).my as int,
                dy as int,
                old(self).max as int,
            ),
            final(self).took_half_turn == old(self).took_half_turn,
            final(self).max == old(self).max,
            final(self).wf(),
    {
        let max: i64 = self.max as i64;
        if self.mx != 0 && sign_i32(dx) != sign_i32(self.mx) {
            self.mx = 0;
        } else {
            self.mx = clamp_i64(self.mx as i64 + sign_i32(dx) as i64, -max, max) as i32;
        }
        if self.my != 0 && sign_i32(dy) != sign_i32(self.my) {
            self.my = 0;
        } else {
            self.my = clamp_i64(self.my as i64 + sign_i32(dy) as i64, -max, max) as i32;
        }
    }

    pub fn set_momentum(&mut self, mx: i32, my: i32)
        ensures
            *final(self) == (Momentum { mx: mx, my: my, ..*old(self) }),
    {
        self.mx = mx;
        self.my = my;
    }

    pub fn clear(&mut self)
        ensures
            *final(self) == (Momentum { mx: 0, my: 0, ..*old(self) }),
            old(self).max >= 0 ==> final(self).wf(),
    {
        self.mx = 0;
        self.my = 0;
    }
}

/// Setting the momentum keeps it within the limit exactly when the new
/// values are within the limit.
pub proof fn set_momentum_within_limit(m: Momentum, mx: i32, my: i32)
    requires
        m.max >= 0,
    ensures
        (Momentum { mx: mx, my: my, ..m }).wf() <==> (abs_int(mx as int) <= m.max && abs_int(
            my as int,
        ) <= m.max),
{
}

/// The outcome of a move once collisions are resolved.
#[derive(Clone, Copy, Debug, PartialEq, Eq, Structural)]
pub enum Movement {
    /// Go to the tile.
    Move(i32, i32),
    /// Go to the tile and strike the entity.
    Attack(i32, i32, ObjectId),
    /// Stop at the tile after running into something.
    Collide(i32, i32),
    /// Slide to the tile `(x, y)` and turn to the direction `(dir_x, dir_y)`.
    WallKick(i32, i32, i32, i32),
    /// Vault over a wall to the tile.
    JumpWall(i32, i32),
}

impl Movement {
    /// The tile at which the movement ends.
    pub fn xy(&self) -> (p: (i32, i32))
        ensures
            p == match *self {
                Movement::Move(x, y) => (x, y),
                Movement::Attack(x, y, _) => (x, y),
                Movement::Collide(x, y) => (x, y),
                Movement::WallKick(x, y, _, _) => (x, y),
                Movement::JumpWall(x, y) => (x, y),
            },
    {
        match self {
            Movement::Move(x, y) => (*x, *y),
            Movement::Attack(x, y, _) => (*x, *y),
            Movement::Collide(x, y) => (*x, *y),
            Movement::WallKick(x, y, _, _) => (*x, *y),
            Movement::JumpWall(x, y) => (*x, *y),
        }
    }
}

/// An axis-aligned rectangle given by two corners.
#[derive(Clone, Copy, Debug)]
pub struct Rect {
    pub x1: i32,
    pub y1: i32,
    pub x2: i32,
    pub y2: i32,
}

/// Half of `v`, rounded towards zero.
pub open spec fn half_toward_zero(v: int) -> int {
    if v >= 0 {
        v / 2
    } else {
        -((-v) / 2)
    }
}

impl Rect {
    pub fn new(x: i32, y: i32, w: i32, h: i32) -> (r: Rect)
        requires
            i32::MIN <= x + w <= i32::MAX,
            i32::MIN <= y + h <= i32::MAX,
        ensures
            r.x1 == x,
            r.y1 == y,
            r.x2 == x + w,
            r.y2 == y + h,
    {
        Rect { x1: x, y1: y, x2: x + w, y2: y + h }
    }

    /// The middle of the rectangle, each coordinate rounded towards zero.
    pub fn center(&self) -> (c: (i32, i32))
        requires
            i32::MIN <= self.x1 + self.x2 <= i32::MAX,
            i32::MIN <= self.y1 + self.y2 <= i32::MAX,
        ensures
            c.0 == half_toward_zero(self.x1 + self.x2),
            c.1 == half_toward_zero(self.y1 + self.y2),
    {
        let center_x: i32 = (self.x1 + self.x2) / 2;
        let center_y: i32 = (self.y1 + self.y2) / 2;
        (center_x, center_y)
    }

    /// Whether the two rectangles share a point, borders included.
    pub fn intersects_with(&self, other: &Rect) -> (b: bool)
        ensures
            b == (self.x1 <= other.x2 && self.x2 >= other.x1 && self.y1 <= other.y2 && self.y2
                >= other.y1),
    {
        (self.x1 <= other.x2) && (self.x2 >= other.x1) && (self.y1 <= other.y2) && (self.y2
            >= other.y1)
    }
}

} // verus!
