//! The messages that put entities and items on tiles: a move, and picking
//! up, dropping and throwing an item.

use crate::action::MoveMode;
use crate::data::{DataView, GameData};
use crate::effect::{Effect, Outcome};
use crate::entities::EntitiesView;
use crate::handlers::THROW_SOUND_RADIUS;
use crate::messaging::Msg;
use crate::momentum::{axis_after_move, Momentum, Movement};
use crate::movement::{collision_to, magnitude_of, probe_to, step_of, Collision};
use crate::object::Trap;
use crate::settings::GameSettings;
use crate::store::lookup;
use crate::types::{clamp_int, EntityId, Pos, Position};
use vstd::prelude::*;

verus! {

/// How far the sound of a step carries at each tempo.
pub open spec fn sound_radius(mode: MoveMode) -> usize {
    match mode {
        MoveMode::Sneak => 1,
        MoveMode::Walk => 3,
        MoveMode::Run => 5,
    }
}

pub fn sound_radius_of(mode: MoveMode) -> (r: usize)
    ensures
        r == sound_radius(mode),
{
    match mode {
        MoveMode::Sneak => 1,
        MoveMode::Walk => 3,
        MoveMode::Run => 5,
    }
}

/// Where held items are kept: off the map.
pub open spec fn held_pos() -> Position {
    Position(-1i32, -1i32)
}

/// Whether the momentum can take another step: its limit is not
/// negative.
pub open spec fn can_accumulate(m: Momentum) -> bool {
    m.max >= 0
}

/// The momentum without any part along either axis, at the start of a
/// whole turn.
pub open spec fn momentum_cleared(m: Momentum) -> Momentum {
    Momentum { mx: 0, my: 0, took_half_turn: false, ..m }
}

/// The momentum after a step by `(dx, dy)`. A step that leaves more than
/// one unit of momentum takes half a turn, unless the step before did.
pub open spec fn momentum_stepped(m: Momentum, dx: int, dy: int) -> Momentum {
    let moved = Momentum {
        mx: axis_after_move(m.mx as int, dx, m.max as int) as i32,
        my: axis_after_move(m.my as int, dy, m.max as int) as i32,
        ..m
    };
    Momentum { took_half_turn: moved.magnitude_spec() > 1 && !m.took_half_turn, ..moved }
}

/// The momentum of an entity after the movement `movement` took it from
/// `from` to `to`: a move or a jump builds momentum up, a wall kick turns
/// it to the new direction, a collision clears it, and so does an attack
/// from where the entity stands.
pub open spec fn momentum_after(m: Momentum, movement: Movement, from: Position, to: Position)
    -> Momentum {
    match movement {
        Movement::Move(_, _) => if can_accumulate(m) {
            momentum_stepped(m, to.0 - from.0, to.1 - from.1)
        } else {
            m
        },
        Movement::JumpWall(_, _) => if can_accumulate(m) {
            momentum_stepped(m, to.0 - from.0, to.1 - from.1)
        } else {
            m
        },
        Movement::WallKick(_, _, dir_x, dir_y) => if m.max >= 0 {
            Momentum {
                mx: clamp_int(dir_x as int, -(m.max as int), m.max as int) as i32,
                my: clamp_int(dir_y as int, -(m.max as int), m.max as int) as i32,
                took_half_turn: false,
                ..m
            }
        } else {
            m
        },
        Movement::Collide(_, _) => momentum_cleared(m),
        Movement::Attack(_, _, _) => if to == from {
            momentum_cleared(m)
        } else {
            Momentum { took_half_turn: false, ..m }
        },
    }
}

/// The momentum attribute after a movement.
pub open spec fn momentum_option_after(
    m: Option<Momentum>,
    movement: Movement,
    from: Position,
    to: Position,
) -> Option<Momentum> {
    match m {
        Some(m) => Some(momentum_after(m, movement, from, to)),
        None => None,
    }
}

/// A movement keeps a momentum within its limit.
pub proof fn momentum_after_wf(m: Momentum, movement: Movement, from: Position, to: Position)
    requires
        m.wf(),
    ensures
        momentum_after(m, movement, from, to).wf(),
{
}

/// Whether the entity `id` cannot be put on the tile `to`: the tile lies
/// off the map or lets nothing pass, or the entity blocks movement and
/// so does another on that tile.
pub open spec fn cannot_enter(d: DataView, id: EntityId, to: Position) -> bool {
    ||| !d.map.in_bounds(to)
    ||| d.map.tile(to).block_move
    ||| (lookup(d.entities.blocks, id as int) == Some(true) && d.entities.blocker_at(to, Some(id))
        is Some)
}

/// The message that a trap sends when the entity `id` steps on it.
pub open spec fn trap_message(d: DataView, id: EntityId, to: Position) -> Option<Msg> {
    match d.entities.trap_at(to) {
        Some(t) => if t == id {
            None
        } else {
            match lookup(d.entities.trap, t as int) {
                Some(Trap::Spikes) => Some(Msg::SpikeTrapTriggered(t, id)),
                Some(Trap::Sound) => Some(Msg::SoundTrapTriggered(t, id)),
                None => None,
            }
        },
        None => None,
    }
}

/// A move puts the entity on its new tile and updates its momentum. An
/// entity with a tempo that changed tile makes a sound, and a trap on the
/// new tile goes off. An entity without a position cannot move at all;
/// a move to a tile that the entity cannot enter is dropped.
pub open spec fn on_moved(d: DataView, s: GameSettings, id: EntityId, movement: Movement, to: Pos)
    -> Effect {
    match lookup(d.entities.pos, id as int) {
        None => Effect::violated(d, s),
        Some(from) => if cannot_enter(d, id, to) {
            Effect::dropped(d, s, id)
        } else {
            let entities = EntitiesView {
                pos: d.entities.pos.update(id as int, Some(to)),
                momentum: d.entities.momentum.update(
                    id as int,
                    momentum_option_after(d.entities.momentum[id as int], movement, from, to),
                ),
                ..d.entities
            };
            let moved = Effect::none(d.with_entities(entities), s);
            let heard = match lookup(d.entities.move_mode, id as int) {
                Some(mode) => if to != from {
                    moved.emit(Msg::Sound(id, to, sound_radius(mode), true))
                } else {
                    moved
                },
                None => moved,
            };
            match trap_message(d, id, to) {
                Some(msg) => heard.emit(msg),
                None => heard,
            }
        },
    }
}

/// The momentum of an entity after a movement took it from `from` to
/// `to`.
pub fn momentum_after_of(m: Momentum, movement: Movement, from: Position, to: Position) -> (r:
    Momentum)
    ensures
        r == momentum_after(m, movement, from, to),
{
    let can: bool = m.max >= 0;
    let cleared = Momentum { mx: 0, my: 0, took_half_turn: false, ..m };
    match movement {
        Movement::Move(_, _) => if can {
            step_momentum(m, from, to)
        } else {
            m
        },
        Movement::JumpWall(_, _) => if can {
            step_momentum(m, from, to)
        } else {
            m
        },
        Movement::WallKick(_, _, dir_x, dir_y) => if m.max >= 0 {
            let mx: i32 = if dir_x < -m.max {
                -m.max
            } else if dir_x > m.max {
                m.max
            } else {
                dir_x
            };
            let my: i32 = if dir_y < -m.max {
                -m.max
            } else if dir_y > m.max {
                m.max
            } else {
                dir_y
            };
            Momentum { mx: mx, my: my, took_half_turn: false, ..m }
        } else {
            m
        },
        Movement::Collide(_, _) => cleared,
        Movement::Attack(_, _, _) => if to == from {
            cleared
        } else {
            Momentum { took_half_turn: false, ..m }
        },
    }
}

fn step_momentum(m: Momentum, from: Position, to: Position) -> (r: Momentum)
    requires
        can_accumulate(m),
    ensures
        r == momentum_stepped(m, to.0 - from.0, to.1 - from.1),
{
    let mut moved: Momentum = m;
    moved.moved(step_of(to.0, from.0), step_of(to.1, from.1));
    let half: bool = magnitude_of(&moved) > 1 && !m.took_half_turn;
    Momentum { took_half_turn: half, ..moved }
}

pub fn handle_moved(
    data: &mut GameData,
    settings: &GameSettings,
    id: EntityId,
    movement: Movement,
    to: Pos,
) -> (out: Outcome)
    requires
        old(data).wf(),
    ensures
        final(data).wf(),
        out.is(on_moved(old(data)@, *settings, id, movement, to)),
        final(data)@ == on_moved(old(data)@, *settings, id, movement, to).data,
{
    assert(old(data).entities@.wf());
    let from: Position = match data.entities.pos.get(id) {
        None => {
            return Outcome::violated();
        },
        Some(p) => p,
    };
    if !data.map.is_within_bounds(to.0, to.1) || data.map.tile(to).block_move || (
    data.entities.blocks.get(id) == Some(true) && data.entities.blocking_entity_at(to, Some(id))
        .is_some()) {
        return Outcome::dropped(id);
    }
    let mut out = Outcome::none();
    match data.entities.move_mode.get(id) {
        Some(mode) => {
            if to != from {
                out.emit(Msg::Sound(id, to, sound_radius_of(mode), true));
            }
        },
        None => {},
    }
    match data.entities.trap_at(to) {
        Some(t) => {
            if t != id {
                match data.entities.trap.get(t) {
                    Some(Trap::Spikes) => {
                        out.emit(Msg::SpikeTrapTriggered(t, id));
                    },
                    Some(Trap::Sound) => {
                        out.emit(Msg::SoundTrapTriggered(t, id));
                    },
                    None => {},
                }
            }
        },
        None => {},
    }
    data.entities.pos.insert(id, to);
    match data.entities.momentum.get(id) {
        Some(m) => {
            data.entities.momentum.insert(id, momentum_after_of(m, movement, from, to));
        },
        None => {
            assert(data.entities.momentum@ =~= old(data).entities.momentum@.update(
                id as int,
                None,
            ));
        },
    }
    out
}

/// The inventory with one more item: a tool goes to the front, anything
/// else to the back.
pub open spec fn inventory_with(inv: Seq<EntityId>, item: EntityId, tool: bool) -> Seq<EntityId> {
    if tool {
        seq![item] + inv
    } else {
        inv.push(item)
    }
}

/// Whether `ent` can take hold of `item`: it has an inventory that does
/// not hold the item yet, and the item is an item, not the entity itself,
/// and does not block movement.
pub open spec fn can_pick_up(d: DataView, ent: EntityId, item: EntityId) -> bool {
    &&& lookup(d.entities.inventory, ent as int) is Some
    &&& lookup(d.entities.item, item as int) is Some
    &&& item != ent
    &&& !d.entities.holds(ent, item)
    &&& lookup(d.entities.blocks, item as int) != Some(true)
}

/// Picking up takes the item off the map and into the inventory of the
/// entity.
pub open spec fn on_picked_up(d: DataView, s: GameSettings, ent: EntityId, item: EntityId)
    -> Effect {
    if !can_pick_up(d, ent, item) {
        Effect::dropped(d, s, ent)
    } else {
        let inv = d.entities.inventory[ent as int]->0;
        let kind = d.entities.item[item as int]->0;
        Effect::none(
            d.with_entities(
                EntitiesView {
                    inventory: d.entities.inventory.update(
                        ent as int,
                        Some(inventory_with(inv, item, kind.is_tool_spec())),
                    ),
                    pos: d.entities.pos.update(item as int, Some(held_pos())),
                    ..d.entities
                },
            ),
            s,
        )
    }
}

pub fn handle_picked_up(data: &mut GameData, settings: &GameSettings, ent: EntityId, item: EntityId)
    -> (out: Outcome)
    requires
        old(data).wf(),
    ensures
        final(data).wf(),
        out.is(on_picked_up(old(data)@, *settings, ent, item)),
        final(data)@ == on_picked_up(old(data)@, *settings, ent, item).data,
{
    assert(old(data).entities@.wf());
    let kind = match data.entities.item.get(item) {
        Some(k) => k,
        None => {
            return Outcome::dropped(ent);
        },
    };
    if !data.entities.inventory.contains(ent) || item == ent || data.entities.inventory_index(
        ent,
        item,
    ).is_some() || data.entities.blocks.get(item) == Some(true) {
        return Outcome::dropped(ent);
    }
    if kind.is_tool() {
        data.entities.inventory.push_front(ent, item);
    } else {
        data.entities.inventory.push_back(ent, item);
    }
    data.entities.pos.insert(item, Position(-1, -1));
    Outcome::none()
}

/// Whether `ent` can put `item` down: it holds the item and stands
/// somewhere, and the item does not block movement.
pub open spec fn can_drop(d: DataView, ent: EntityId, item: EntityId) -> bool {
    &&& d.entities.holds(ent, item)
    &&& item < d.entities.pos.len()
    &&& lookup(d.entities.pos, ent as int) is Some
    &&& lookup(d.entities.blocks, item as int) != Some(true)
}

/// Dropping takes the item out of the inventory and puts it on the tile
/// of the entity that held it.
pub open spec fn on_drop_item(d: DataView, s: GameSettings, ent: EntityId, item: EntityId)
    -> Effect {
    if !can_drop(d, ent, item) {
        Effect::dropped(d, s, ent)
    } else {
        let removed = d.entities.item_removed(ent, item);
        Effect::none(
            d.with_entities(
                EntitiesView {
                    pos: removed.pos.update(item as int, d.entities.pos[ent as int]),
                    ..removed
                },
            ),
            s,
        )
    }
}

pub fn handle_drop_item(data: &mut GameData, settings: &GameSettings, ent: EntityId, item: EntityId)
    -> (out: Outcome)
    requires
        old(data).wf(),
    ensures
        final(data).wf(),
        out.is(on_drop_item(old(data)@, *settings, ent, item)),
        final(data)@ == on_drop_item(old(data)@, *settings, ent, item).data,
{
    assert(old(data).entities@.wf());
    let place: Position = match data.entities.pos.get(ent) {
        Some(p) => p,
        None => {
            return Outcome::dropped(ent);
        },
    };
    if data.entities.inventory_index(ent, item).is_none() || item >= data.entities.count()
        || data.entities.blocks.get(item) == Some(true) {
        return Outcome::dropped(ent);
    }
    data.entities.remove_item(ent, item);
    data.entities.pos.insert(item, place);
    Outcome::none()
}

/// Where something thrown from `start` towards `end` comes down: on the
/// last free tile of the way.
pub open spec fn landing(d: DataView, thrower: EntityId, start: Position, end: Position)
    -> Position {
    match collision_to(d, thrower, start, end) {
        Collision::NoCollision(x, y) => Position(x, y),
        Collision::BlockedTile(_, last) => Position(last.0, last.1),
        Collision::Wall(_, last) => Position(last.0, last.1),
        Collision::Entity(_, last) => Position(last.0, last.1),
    }
}

/// A throw takes the item out of the inventory of the thrower and puts
/// it where it comes down, with a sound.
pub open spec fn on_item_throw(
    d: DataView,
    s: GameSettings,
    thrower: EntityId,
    item: EntityId,
    start: Pos,
    end: Pos,
) -> Effect {
    if !can_drop(d, thrower, item) {
        Effect::dropped(d, s, thrower)
    } else {
        let removed = d.entities.item_removed(thrower, item);
        let lands = landing(d, thrower, start, end);
        Effect::none(
            d.with_entities(
                EntitiesView { pos: removed.pos.update(item as int, Some(lands)), ..removed },
            ),
            s,
        ).emit(Msg::Sound(thrower, lands, THROW_SOUND_RADIUS, true))
    }
}

pub fn handle_item_throw(
    data: &mut GameData,
    settings: &GameSettings,
    thrower: EntityId,
    item: EntityId,
    start: Pos,
    end: Pos,
) -> (out: Outcome)
    requires
        old(data).wf(),
    ensures
        final(data).wf(),
        out.is(on_item_throw(old(data)@, *settings, thrower, item, start, end)),
        final(data)@ == on_item_throw(old(data)@, *settings, thrower, item, start, end).data,
{
    assert(old(data).entities@.wf());
    if data.entities.pos.get(thrower).is_none() || data.entities.inventory_index(thrower, item)
        .is_none() || item >= data.entities.count() || data.entities.blocks.get(item) == Some(
        true,
    ) {
        return Outcome::dropped(thrower);
    }
    let lands: (i32, i32) = probe_to(thrower, data, start, end).move_location();
    let lands_at: Position = Position(lands.0, lands.1);
    data.entities.remove_item(thrower, item);
    data.entities.pos.insert(item, lands_at);
    let mut out = Outcome::none();
    out.emit(Msg::Sound(thrower, lands_at, THROW_SOUND_RADIUS, true));
    out
}

} // verus!
