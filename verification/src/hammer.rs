//! The messages of sound and of the hammer.

use crate::data::{DataView, GameData};
use crate::effect::{Effect, Outcome};
use crate::entities::EntitiesView;
use crate::handlers::rubbled;
use crate::map::{Surface, Tile};
use crate::messaging::Msg;
use crate::object::Item;
use crate::settings::GameSettings;
use crate::store::lookup;
use crate::types::{abs_int, dist_sq, max_int, EntityId, Pos, Position};
use vstd::prelude::*;

verus! {

/// Whether `a` lies no further from `b` than `radius`.
pub open spec fn within_radius(a: Position, b: Position, radius: usize) -> bool {
    dist_sq(a, b) <= radius * radius
}

pub fn is_within_radius(a: Position, b: Position, radius: usize) -> (r: bool)
    ensures
        r == within_radius(a, b, radius),
{
    let dx: i64 = a.0 as i64 - b.0 as i64;
    let dy: i64 = a.1 as i64 - b.1 as i64;
    assert(0 <= dx * dx <= 0x1_0000_0000 * 0x1_0000_0000) by (nonlinear_arith)
        requires
            -0x1_0000_0000 <= dx <= 0x1_0000_0000,
    ;
    assert(0 <= dy * dy <= 0x1_0000_0000 * 0x1_0000_0000) by (nonlinear_arith)
        requires
            -0x1_0000_0000 <= dy <= 0x1_0000_0000,
    ;
    let d2: u128 = (dx as i128 * dx as i128) as u128 + (dy as i128 * dy as i128) as u128;
    if radius as u128 >= 0x2_0000_0000 {
        assert(radius * radius >= 0x2_0000_0000 * 0x2_0000_0000) by (nonlinear_arith)
            requires
                radius >= 0x2_0000_0000,
        ;
        true
    } else {
        assert(radius * radius <= 0x2_0000_0000 * 0x2_0000_0000) by (nonlinear_arith)
            requires
                0 <= radius <= 0x2_0000_0000,
        ;
        d2 <= radius as u128 * radius as u128
    }
}

/// Whether the entity `e` hears a sound that `src` makes at `pos`: it is
/// another entity that keeps what it hears and stands within the radius.
pub open spec fn hears(v: EntitiesView, e: int, src: EntityId, pos: Position, radius: usize)
    -> bool {
    &&& e != src
    &&& lookup(v.messages, e) is Some
    &&& lookup(v.pos, e) matches Some(q) && within_radius(q, pos, radius)
}

/// What the entities have heard once the sound `msg` has reached those
/// with an id below `i`.
pub open spec fn heard_upto(
    v: EntitiesView,
    msg: Msg,
    src: EntityId,
    pos: Position,
    radius: usize,
    i: int,
) -> Seq<Option<Seq<Msg>>>
    decreases i,
{
    if i <= 0 {
        v.messages
    } else {
        let before = heard_upto(v, msg, src, pos, radius, i - 1);
        if hears(v, i - 1, src, pos, radius) {
            before.update(i - 1, Some(v.messages[i - 1]->0.push(msg)))
        } else {
            before
        }
    }
}

/// A sound that has reached the entities below `i` has changed nothing
/// for the others.
pub proof fn heard_upto_rest(
    v: EntitiesView,
    msg: Msg,
    src: EntityId,
    pos: Position,
    radius: usize,
    i: int,
)
    requires
        0 <= i <= v.messages.len(),
    ensures
        heard_upto(v, msg, src, pos, radius, i).len() == v.messages.len(),
        forall|j: int|
            i <= j < v.messages.len() ==> #[trigger] heard_upto(v, msg, src, pos, radius, i)[j]
                == v.messages[j],
    decreases i,
{
    if i > 0 {
        heard_upto_rest(v, msg, src, pos, radius, i - 1);
    }
}

/// A sound is kept by every entity that hears it.
pub open spec fn on_sound(
    d: DataView,
    s: GameSettings,
    src: EntityId,
    pos: Pos,
    radius: usize,
    animate: bool,
) -> Effect {
    Effect::none(
        d.with_entities(
            EntitiesView {
                messages: heard_upto(
                    d.entities,
                    Msg::Sound(src, pos, radius, animate),
                    src,
                    pos,
                    radius,
                    d.entities.messages.len() as int,
                ),
                ..d.entities
            },
        ),
        s,
    )
}

pub fn handle_sound(
    data: &mut GameData,
    settings: &GameSettings,
    src: EntityId,
    pos: Pos,
    radius: usize,
    animate: bool,
) -> (out: Outcome)
    requires
        old(data).wf(),
    ensures
        final(data).wf(),
        out.is(on_sound(old(data)@, *settings, src, pos, radius, animate)),
        final(data)@ == on_sound(old(data)@, *settings, src, pos, radius, animate).data,
{
    assert(old(data).entities@.wf());
    let msg = Msg::Sound(src, pos, radius, animate);
    let ghost v = old(data)@.entities;
    let n: usize = data.entities.count();
    let mut e: usize = 0;
    while e < n
        invariant
            0 <= e <= n,
            n == v.messages.len(),
            v == old(data)@.entities,
            v.wf(),
            data.wf(),
            data@.map == old(data)@.map,
            data@.entities == (EntitiesView {
                messages: heard_upto(v, msg, src, pos, radius, e as int),
                ..v
            }),
        decreases n - e,
    {
        proof {
            heard_upto_rest(v, msg, src, pos, radius, e as int);
        }
        let near: bool = match data.entities.pos.get(e) {
            Some(q) => is_within_radius(q, pos, radius),
            None => false,
        };
        if e != src && near && data.entities.messages.contains(e) {
            data.entities.messages.push_back(e, msg);
        }
        e = e + 1;
    }
    Outcome::none()
}

/// Whether the two tiles touch, by a side or by a corner.
pub open spec fn adjacent(a: Position, b: Position) -> bool {
    max_int(abs_int(a.0 - b.0), abs_int(a.1 - b.1)) == 1
}

pub fn is_adjacent(a: Position, b: Position) -> (r: bool)
    ensures
        r == adjacent(a, b),
{
    let dx: i64 = a.0 as i64 - b.0 as i64;
    let dy: i64 = a.1 as i64 - b.1 as i64;
    -1 <= dx && dx <= 1 && -1 <= dy && dy <= 1 && (dx != 0 || dy != 0)
}

/// What a blow of the hammer at the tile `pos` sends out: it hits the
/// wall that stands in its way, or else the entity that blocks the tile.
pub open spec fn hammer_blow(d: DataView, eff: Effect, ent: EntityId, from: Position, pos: Position)
    -> Effect {
    if d.map.wall_facing(from, pos.0 - from.0, pos.1 - from.1) {
        eff.emit(Msg::HammerHitWall(ent, pos))
    } else {
        match d.entities.blocker_at(pos, Some(ent)) {
            Some(target) => eff.emit(Msg::HammerHitEntity(ent, target)),
            None => eff,
        }
    }
}

/// A swing of the hammer at a tile next to the entity uses the hammer up
/// and hits what is there. It is dropped if the entity holds no hammer,
/// stands nowhere, or aims at a tile that does not touch its own.
pub open spec fn on_hammer_swing(d: DataView, s: GameSettings, ent: EntityId, pos: Pos) -> Effect {
    match (d.entities.in_inventory(ent, Item::Hammer), lookup(d.entities.pos, ent as int)) {
        (Some(hammer), Some(from)) => if adjacent(from, pos) {
            let used = d.with_entities(d.entities.item_removed(ent, hammer).removed(hammer));
            hammer_blow(used, Effect::none(used, s), ent, from, pos)
        } else {
            Effect::dropped(d, s, ent)
        },
        _ => Effect::dropped(d, s, ent),
    }
}

pub fn handle_hammer_swing(data: &mut GameData, settings: &GameSettings, ent: EntityId, pos: Pos)
    -> (out: Outcome)
    requires
        old(data).wf(),
    ensures
        final(data).wf(),
        out.is(on_hammer_swing(old(data)@, *settings, ent, pos)),
        final(data)@ == on_hammer_swing(old(data)@, *settings, ent, pos).data,
{
    assert(old(data).entities@.wf());
    let hammer: EntityId = match data.entities.is_in_inventory(ent, Item::Hammer) {
        Some(h) => h,
        None => {
            return Outcome::dropped(ent);
        },
    };
    let from: Position = match data.entities.pos.get(ent) {
        Some(p) => p,
        None => {
            return Outcome::dropped(ent);
        },
    };
    if !is_adjacent(from, pos) {
        return Outcome::dropped(ent);
    }
    data.entities.remove_item(ent, hammer);
    data.entities.remove(hammer);
    let mut out = Outcome::none();
    let sx: i32 = crate::movement::step_of(pos.0, from.0);
    let sy: i32 = crate::movement::step_of(pos.1, from.1);
    proof {
        crate::movement::wall_facing_by_sign(data@, from, pos);
    }
    if data.map.is_blocked_by_wall(from.0, from.1, sx, sy) {
        out.emit(Msg::HammerHitWall(ent, pos));
    } else {
        match data.entities.blocking_entity_at(pos, Some(ent)) {
            Some(target) => {
                out.emit(Msg::HammerHitEntity(ent, target));
            },
            None => {},
        }
    }
    out
}

/// The hammer breaks the wall between the entity and the tile `pos`,
/// which touches its own: the wall is gone, rubble covers the tile, and
/// the entity that blocks the tile is hit.
pub open spec fn on_hammer_hit_wall(d: DataView, s: GameSettings, ent: EntityId, pos: Pos)
    -> Effect {
    match lookup(d.entities.pos, ent as int) {
        Some(from) => if adjacent(from, pos) && d.map.in_bounds(pos) {
            let opened = d.map.walls_cleared(from, pos.0 - from.0, pos.1 - from.1);
            let broken = DataView {
                map: opened.with_tile(pos, rubbled(opened.tile(pos))),
                entities: d.entities,
            };
            match d.entities.blocker_at(pos, Some(ent)) {
                Some(target) => Effect::none(broken, s).emit(Msg::HammerHitEntity(ent, target)),
                None => Effect::none(broken, s),
            }
        } else {
            Effect::dropped(d, s, ent)
        },
        None => Effect::dropped(d, s, ent),
    }
}

pub fn handle_hammer_hit_wall(data: &mut GameData, settings: &GameSettings, ent: EntityId, pos: Pos)
    -> (out: Outcome)
    requires
        old(data).wf(),
    ensures
        final(data).wf(),
        out.is(on_hammer_hit_wall(old(data)@, *settings, ent, pos)),
        final(data)@ == on_hammer_hit_wall(old(data)@, *settings, ent, pos).data,
{
    assert(old(data).entities@.wf());
    let from: Position = match data.entities.pos.get(ent) {
        Some(p) => p,
        None => {
            return Outcome::dropped(ent);
        },
    };
    if !is_adjacent(from, pos) || !data.map.is_within_bounds(pos.0, pos.1) {
        return Outcome::dropped(ent);
    }
    let sx: i32 = crate::movement::step_of(pos.0, from.0);
    let sy: i32 = crate::movement::step_of(pos.1, from.1);
    assert(sx == pos.0 - from.0 && sy == pos.1 - from.1);
    data.map.clear_walls_facing(from.0, from.1, sx, sy);
    let tile: Tile = data.map.tile(pos);
    data.map.set_tile(pos, Tile { surface: Surface::Rubble, ..tile });
    let mut out = Outcome::none();
    match data.entities.blocking_entity_at(pos, Some(ent)) {
        Some(target) => {
            out.emit(Msg::HammerHitEntity(ent, target));
        },
        None => {},
    }
    out
}

} // verus!
