//! The movement resolver: what a move runs into, and what becomes of it.

use crate::data::{DataView, GameData};
use crate::lines::{line_between, line_len, line_point, line_points};
use crate::momentum::{Momentum, Movement};
use crate::store::lookup;
use crate::types::{
    sign_i32, sign_int, EntityId, MoveAction, ObjectId, Position, Reach, MAX_MOMENTUM,
};
use vstd::prelude::*;

verus! {

/// What a move runs into. Each variant but the first names the tile that
/// was still free just before.
#[derive(Clone, Copy, Debug, PartialEq, Eq)]
pub enum Collision {
    /// Nothing: the move ends on the tile.
    NoCollision(i32, i32),
    /// A tile that lets nothing pass, and the free tile before it.
    BlockedTile((i32, i32), (i32, i32)),
    /// A wall: the tile behind it, and the free tile before it.
    Wall((i32, i32), (i32, i32)),
    /// An entity that blocks the way, and the free tile before it.
    Entity(ObjectId, (i32, i32)),
}

impl Collision {
    pub fn no_collsion(&self) -> (b: bool)
        ensures
            b == (*self is NoCollision),
    {
        match self {
            Collision::NoCollision(_, _) => true,
            _ => false,
        }
    }

    /// The tile on which the move can end.
    pub fn move_location(&self) -> (p: (i32, i32))
        ensures
            p == match *self {
                Collision::NoCollision(x, y) => (x, y),
                Collision::BlockedTile(_, last) => last,
                Collision::Wall(_, last) => last,
                Collision::Entity(_, last) => last,
            },
    {
        let last_pos: (i32, i32);
        match *self {
            Collision::NoCollision(x, y) => {
                last_pos = (x, y);
            },
            Collision::BlockedTile(_, (x, y)) => {
                last_pos = (x, y);
            },
            Collision::Wall(_, (x, y)) => {
                last_pos = (x, y);
            },
            Collision::Entity(_, (x, y)) => {
                last_pos = (x, y);
            },
        }
        return last_pos;
    }
}

/// A position as a pair.
pub open spec fn pair_of(p: Position) -> (i32, i32) {
    (p.0, p.1)
}

/// Whether the position moved by the offset still has machine coordinates.
pub open spec fn offset_fits(p: Position, dx: int, dy: int) -> bool {
    i32::MIN <= p.0 + dx <= i32::MAX && i32::MIN <= p.1 + dy <= i32::MAX
}

/// What the entity `id` runs into when it walks the line from `start` to
/// `end` from point `k` on, having come as far as `last`. At each step the
/// next tile itself comes first, then an entity that blocks it, then the
/// wall between the tile it stands on and the next. A line that leaves the
/// map is a wall at the start.
pub open spec fn probe_from(
    d: DataView,
    id: EntityId,
    start: Position,
    end: Position,
    k: int,
    last: Position,
) -> Collision
    decreases line_len(end.0 - start.0, end.1 - start.1) + 1 - k,
{
    if k < 1 || k > line_len(end.0 - start.0, end.1 - start.1) {
        Collision::NoCollision(end.0, end.1)
    } else {
        let next = line_point(start, end, k);
        if !d.map.in_bounds(next) {
            Collision::Wall(pair_of(start), pair_of(start))
        } else if d.map.tile(next).block_move {
            Collision::BlockedTile(pair_of(next), pair_of(last))
        } else if d.entities.blocker_at(next, Some(id)) is Some {
            Collision::Entity(d.entities.blocker_at(next, Some(id))->0, pair_of(last))
        } else if d.map.wall_facing(last, next.0 - last.0, next.1 - last.1) {
            Collision::Wall(pair_of(next), pair_of(last))
        } else {
            probe_from(d, id, start, end, k + 1, next)
        }
    }
}

/// What runs into what on the way from `start` to `end`, for something
/// that passes by the entity `id`. A way to a tile off the map is a wall
/// at the start.
pub open spec fn collision_to(d: DataView, id: EntityId, start: Position, end: Position)
    -> Collision {
    if !d.map.in_bounds(end) {
        Collision::Wall(pair_of(start), pair_of(start))
    } else {
        probe_from(d, id, start, end, 1, start)
    }
}

/// What the entity `id`, standing at `start`, runs into when it moves by
/// `(dx, dy)`. A move to a tile off the map is a wall at the start.
pub open spec fn collision_at(d: DataView, id: EntityId, start: Position, dx: int, dy: int)
    -> Collision {
    if !offset_fits(start, dx, dy) {
        Collision::Wall(pair_of(start), pair_of(start))
    } else {
        collision_to(d, id, start, Position((start.0 + dx) as i32, (start.1 + dy) as i32))
    }
}

/// Whether the entity `id` at `pos` can make the single step `(sx, sy)`.
pub open spec fn step_free(d: DataView, id: EntityId, pos: Position, sx: int, sy: int) -> bool {
    let to = Position((pos.0 + sx) as i32, (pos.1 + sy) as i32);
    &&& offset_fits(pos, sx, sy)
    &&& d.map.in_bounds(to)
    &&& !d.map.wall_facing(pos, sx, sy)
    &&& !d.is_blocked(to, Some(id))
}

/// A move that stops at `last`. A diagonal move that cannot leave its tile
/// becomes a wall kick where exactly one of the two straight steps of the
/// diagonal is free: the entity slides along that step and turns to it.
pub open spec fn stop_or_kick(
    d: DataView,
    id: EntityId,
    pos: Position,
    dx: int,
    dy: int,
    last: (i32, i32),
) -> Movement {
    let sx = sign_int(dx);
    let sy = sign_int(dy);
    if last == pair_of(pos) && dx != 0 && dy != 0 {
        let along_x = step_free(d, id, pos, sx, 0);
        let along_y = step_free(d, id, pos, 0, sy);
        if along_x && !along_y {
            Movement::WallKick((pos.0 + sx) as i32, pos.1, sx as i32, 0)
        } else if along_y && !along_x {
            Movement::WallKick(pos.0, (pos.1 + sy) as i32, 0, sy as i32)
        } else {
            Movement::Move(last.0, last.1)
        }
    } else {
        Movement::Move(last.0, last.1)
    }
}

/// The movement that follows from a collision, for the entity `id` that
/// stands at `pos` and moves by `(dx, dy)`.
pub open spec fn movement_for(
    d: DataView,
    id: EntityId,
    pos: Position,
    dx: int,
    dy: int,
    c: Collision,
) -> Movement {
    match c {
        Collision::NoCollision(nx, ny) => Movement::Move(nx, ny),
        Collision::BlockedTile(_, last) => stop_or_kick(d, id, pos, dx, dy, last),
        Collision::Wall(tile, last) => match lookup(d.entities.momentum, id as int) {
            Some(m) => if m.magnitude_spec() == MAX_MOMENTUM && !d.is_blocked(
                Position(tile.0, tile.1),
                Some(id),
            ) {
                Movement::JumpWall(tile.0, tile.1)
            } else {
                stop_or_kick(d, id, pos, dx, dy, last)
            },
            None => if offset_fits(pos, dx, dy) {
                Movement::Move((pos.0 + dx) as i32, (pos.1 + dy) as i32)
            } else {
                Movement::Move(last.0, last.1)
            },
        },
        Collision::Entity(other, last) => Movement::Attack(last.0, last.1, other),
    }
}

/// The movement of the entity `id`, which has a position, when it makes
/// the move `action` with the reach `reach`; none if the reach does not
/// allow the move.
pub open spec fn movement_plan(d: DataView, id: EntityId, action: MoveAction, reach: Reach)
    -> Option<Movement> {
    let pos = lookup(d.entities.pos, id as int)->0;
    match reach.offset_for(action) {
        None => None,
        Some(delta) => Some(
            movement_for(
                d,
                id,
                pos,
                delta.0 as int,
                delta.1 as int,
                collision_at(d, id, pos, delta.0 as int, delta.1 as int),
            ),
        ),
    }
}

/// The position moved by the offset, if it still has machine coordinates.
pub fn offset_pos(p: Position, dx: i32, dy: i32) -> (r: Option<Position>)
    ensures
        r == if offset_fits(p, dx as int, dy as int) {
            Some(Position((p.0 + dx) as i32, (p.1 + dy) as i32))
        } else {
            None
        },
{
    let x: i64 = p.0 as i64 + dx as i64;
    let y: i64 = p.1 as i64 + dy as i64;
    if x < -0x8000_0000 || x > 0x7fff_ffff || y < -0x8000_0000 || y > 0x7fff_ffff {
        None
    } else {
        Some(Position(x as i32, y as i32))
    }
}

/// What runs into what on the way from `start` to `end`, for something
/// that passes by the entity `id`.
pub fn probe_to(id: EntityId, data: &GameData, start: Position, end: Position) -> (c: Collision)
    requires
        data.wf(),
    ensures
        c == collision_to(data@, id, start, end),
{
    if !data.map.is_within_bounds(end.0, end.1) {
        return Collision::Wall((start.0, start.1), (start.0, start.1));
    }
    let points: Vec<Position> = line_between(start, end);
    let mut last_pos: Position = start;
    let mut i: usize = 0;
    while i < points.len()
        invariant
            data.wf(),
            points@ == line_points(start, end),
            0 <= i <= points@.len(),
            collision_to(data@, id, start, end) == probe_from(
                data@,
                id,
                start,
                end,
                i as int + 1,
                last_pos,
            ),
        decreases points@.len() - i,
    {
        let next: Position = points[i];
        assert(next == line_point(start, end, i as int + 1));
        if !data.map.is_within_bounds(next.0, next.1) {
            return Collision::Wall((start.0, start.1), (start.0, start.1));
        }
        if data.map.tile(next).block_move {
            return Collision::BlockedTile((next.0, next.1), (last_pos.0, last_pos.1));
        }
        match data.entities.blocking_entity_at(next, Some(id)) {
            Some(other) => {
                return Collision::Entity(other, (last_pos.0, last_pos.1));
            },
            None => {},
        }
        let sx: i32 = sign_i32(step_of(next.0, last_pos.0));
        let sy: i32 = sign_i32(step_of(next.1, last_pos.1));
        proof {
            wall_facing_by_sign(data@, last_pos, next);
        }
        if data.map.is_blocked_by_wall(last_pos.0, last_pos.1, sx, sy) {
            return Collision::Wall((next.0, next.1), (last_pos.0, last_pos.1));
        }
        last_pos = next;
        i = i + 1;
    }
    Collision::NoCollision(end.0, end.1)
}

/// What the entity runs into when it moves by `(dx, dy)` from where it
/// stands.
pub fn check_collision(object_id: ObjectId, data: &GameData, dx: i32, dy: i32) -> (c: Collision)
    requires
        data.wf(),
        lookup(data@.entities.pos, object_id as int) is Some,
    ensures
        c == collision_at(
            data@,
            object_id,
            lookup(data@.entities.pos, object_id as int)->0,
            dx as int,
            dy as int,
        ),
{
    let start: Position = match data.entities.pos.get(object_id) {
        Some(p) => p,
        None => vstd::pervasive::unreached(),
    };
    match offset_pos(start, dx, dy) {
        Some(end) => probe_to(object_id, data, start, end),
        None => Collision::Wall((start.0, start.1), (start.0, start.1)),
    }
}

/// The difference of two coordinates, limited to machine range; its sign
/// is that of the true difference.
pub fn step_of(a: i32, b: i32) -> (r: i32)
    ensures
        r == sign_int(a - b),
{
    if a > b {
        1
    } else if a < b {
        -1
    } else {
        0
    }
}

/// A wall faces a step according to the signs of the step alone.
pub proof fn wall_facing_by_sign(d: DataView, last: Position, next: Position)
    ensures
        d.map.wall_facing(last, next.0 - last.0, next.1 - last.1) == d.map.wall_facing(
            last,
            sign_int(next.0 - last.0),
            sign_int(next.1 - last.1),
        ),
{
}

/// Whether the entity can move by `(dx, dy)` without running into
/// anything.
pub fn move_valid(object_id: ObjectId, data: &GameData, dx: i32, dy: i32) -> (b: bool)
    requires
        data.wf(),
        lookup(data@.entities.pos, object_id as int) is Some,
    ensures
        b == (collision_at(
            data@,
            object_id,
            lookup(data@.entities.pos, object_id as int)->0,
            dx as int,
            dy as int,
        ) is NoCollision),
{
    return check_collision(object_id, data, dx, dy).no_collsion();
}

/// The points of the line through `(x, y)` that starts at the offset
/// `(dx, dy)` behind it and ends at the same offset ahead of it, without
/// its start.
pub fn line_inclusive(x: i32, y: i32, dx: i32, dy: i32) -> (v: Vec<(i32, i32)>)
    requires
        offset_fits(Position(x, y), dx as int, dy as int),
        offset_fits(Position(x, y), -dx, -dy),
    ensures
        v@.len() == line_points(
            Position((x - dx) as i32, (y - dy) as i32),
            Position((x + dx) as i32, (y + dy) as i32),
        ).len(),
        forall|i: int|
            0 <= i < v@.len() ==> #[trigger] v@[i] == pair_of(
                line_points(
                    Position((x - dx) as i32, (y - dy) as i32),
                    Position((x + dx) as i32, (y + dy) as i32),
                )[i],
            ),
{
    let start_loc: Position = Position(x - dx, y - dy);
    let end_loc: Position = Position(x + dx, y + dy);
    let points: Vec<Position> = line_between(start_loc, end_loc);
    let mut v: Vec<(i32, i32)> = Vec::new();
    let mut i: usize = 0;
    while i < points.len()
        invariant
            0 <= i <= points@.len(),
            v@.len() == i,
            forall|j: int| 0 <= j < i ==> #[trigger] v@[j] == pair_of(points@[j]),
        decreases points@.len() - i,
    {
        v.push((points[i].0, points[i].1));
        i = i + 1;
    }
    v
}

/// The last free tile before what the move runs into, if the move runs
/// into something and the entity can advance at all before it does.
pub fn move_just_before(object_id: ObjectId, data: &GameData, dx: i32, dy: i32) -> (r: Option<
    (i32, i32),
>)
    requires
        data.wf(),
        lookup(data@.entities.pos, object_id as int) is Some,
    ensures
        ({
            let start = lookup(data@.entities.pos, object_id as int)->0;
            r == match collision_at(data@, object_id, start, dx as int, dy as int) {
                Collision::NoCollision(_, _) => None,
                Collision::BlockedTile(_, last) => if last == pair_of(start) {
                    None
                } else {
                    Some(last)
                },
                Collision::Wall(_, last) => if last == pair_of(start) {
                    None
                } else {
                    Some(last)
                },
                Collision::Entity(_, last) => if last == pair_of(start) {
                    None
                } else {
                    Some(last)
                },
            }
        }),
{
    let start: Position = match data.entities.pos.get(object_id) {
        Some(p) => p,
        None => vstd::pervasive::unreached(),
    };
    let c: Collision = check_collision(object_id, data, dx, dy);
    if c.no_collsion() {
        return None;
    }
    let last: (i32, i32) = c.move_location();
    if last.0 == start.0 && last.1 == start.1 {
        None
    } else {
        Some(last)
    }
}

/// The larger of the two axes of a momentum, without sign.
pub fn magnitude_of(m: &Momentum) -> (r: i64)
    ensures
        r == m.magnitude_spec(),
{
    let ax: i64 = if m.mx < 0 {
        -(m.mx as i64)
    } else {
        m.mx as i64
    };
    let ay: i64 = if m.my < 0 {
        -(m.my as i64)
    } else {
        m.my as i64
    };
    if ax > ay {
        ax
    } else {
        ay
    }
}

/// Whether the entity can make the single step `(sx, sy)` from `pos`.
fn is_step_free(data: &GameData, id: EntityId, pos: Position, sx: i32, sy: i32) -> (b: bool)
    requires
        data.wf(),
    ensures
        b == step_free(data@, id, pos, sx as int, sy as int),
{
    match offset_pos(pos, sx, sy) {
        Some(to) => data.map.is_within_bounds(to.0, to.1) && !data.map.is_blocked_by_wall(
            pos.0,
            pos.1,
            sx,
            sy,
        ) && !data.is_blocked(to, Some(id)),
        None => false,
    }
}

fn stop_or_kick_at(
    data: &GameData,
    id: EntityId,
    pos: Position,
    dx: i32,
    dy: i32,
    last: (i32, i32),
) -> (m: Movement)
    requires
        data.wf(),
    ensures
        m == stop_or_kick(data@, id, pos, dx as int, dy as int, last),
{
    let sx: i32 = sign_i32(dx);
    let sy: i32 = sign_i32(dy);
    if last.0 == pos.0 && last.1 == pos.1 && dx != 0 && dy != 0 {
        let along_x: bool = is_step_free(data, id, pos, sx, 0);
        let along_y: bool = is_step_free(data, id, pos, 0, sy);
        if along_x && !along_y {
            Movement::WallKick(pos.0 + sx, pos.1, sx, 0)
        } else if along_y && !along_x {
            Movement::WallKick(pos.0, pos.1 + sy, 0, sy)
        } else {
            Movement::Move(last.0, last.1)
        }
    } else {
        Movement::Move(last.0, last.1)
    }
}

/// The movement of the entity when it makes the move `action` with the
/// reach `reach`; none if the reach does not allow the move.
pub fn calculate_move(action: MoveAction, reach: Reach, object_id: ObjectId, data: &GameData) -> (r:
    Option<Movement>)
    requires
        data.wf(),
        reach.valid(),
        lookup(data@.entities.pos, object_id as int) is Some,
    ensures
        r == movement_plan(data@, object_id, action, reach),
{
    let movement: Option<Movement>;
    let pos: Position = match data.entities.pos.get(object_id) {
        Some(p) => p,
        None => vstd::pervasive::unreached(),
    };
    if let Some(delta_pos) = reach.move_with_reach(&action) {
        let (dx, dy) = delta_pos.into_pair();
        match check_collision(object_id, data, dx, dy) {
            Collision::NoCollision(new_x, new_y) => {
                movement = Some(Movement::Move(new_x, new_y));
            },
            Collision::BlockedTile(_tile, last) => {
                movement = Some(stop_or_kick_at(data, object_id, pos, dx, dy, last));
            },
            Collision::Wall((tile_x, tile_y), last) => {
                match data.entities.momentum.get(object_id) {
                    Some(momentum) => {
                        if magnitude_of(&momentum) == MAX_MOMENTUM as i64 && !data.is_blocked(
                            Position(tile_x, tile_y),
                            Some(object_id),
                        ) {
                            movement = Some(Movement::JumpWall(tile_x, tile_y));
                        } else {
                            movement = Some(stop_or_kick_at(data, object_id, pos, dx, dy, last));
                        }
                    },
                    None => {
                        match offset_pos(pos, dx, dy) {
                            Some(to) => {
                                movement = Some(Movement::Move(to.0, to.1));
                            },
                            None => {
                                movement = Some(Movement::Move(last.0, last.1));
                            },
                        }
                    },
                }
            },
            Collision::Entity(other_object_id, (new_x, new_y)) => {
                movement = Some(Movement::Attack(new_x, new_y, other_object_id));
            },
        }
    } else {
        movement = None;
    }
    return movement;
}

} // verus!
