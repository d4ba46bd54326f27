//! How the intent of an entity becomes the messages that carry it out.

use crate::action::{Action, MoveMode};
use crate::data::{DataView, GameData};
use crate::effect::{Effect, Outcome};
use crate::entities::EntitiesView;
use crate::map::TileType;
use crate::messaging::Msg;
use crate::momentum::{Momentum, Movement};
use crate::movement::{calculate_move, movement_plan, offset_pos, step_free, step_of};
use crate::messaging::MsgLog;
use crate::moving::{momentum_after, momentum_after_of};
use crate::object::{blow_damage, Item, ObjType, PlayerAction};
use crate::settings::GameSettings;
use crate::store::lookup;
use crate::types::{sign_int, Direction, EntityId, Hp, MoveAction, Pos, Position};
use vstd::prelude::*;

verus! {

/// The move of a direction.
pub open spec fn move_of(dir: Direction) -> MoveAction {
    match dir {
        Direction::Left => MoveAction::Left,
        Direction::Right => MoveAction::Right,
        Direction::Up => MoveAction::Up,
        Direction::Down => MoveAction::Down,
        Direction::DownLeft => MoveAction::DownLeft,
        Direction::DownRight => MoveAction::DownRight,
        Direction::UpLeft => MoveAction::UpLeft,
        Direction::UpRight => MoveAction::UpRight,
    }
}

fn move_for(dir: Direction) -> (m: MoveAction)
    ensures
        m == move_of(dir),
{
    match dir {
        Direction::Left => MoveAction::Left,
        Direction::Right => MoveAction::Right,
        Direction::Up => MoveAction::Up,
        Direction::Down => MoveAction::Down,
        Direction::DownLeft => MoveAction::DownLeft,
        Direction::DownRight => MoveAction::DownRight,
        Direction::UpLeft => MoveAction::UpLeft,
        Direction::UpRight => MoveAction::UpRight,
    }
}

/// The damage that `attacker` does to `target` with one blow: its power
/// less the defense of the target, and never less than nothing.
pub open spec fn attack_damage(d: DataView, attacker: EntityId, target: EntityId) -> Hp {
    let raw = blow_damage(
        lookup(d.entities.fighter, attacker as int),
        lookup(d.entities.fighter, target as int),
    );
    if raw < 0 {
        0
    } else if raw > i32::MAX {
        i32::MAX
    } else {
        raw as i32
    }
}

fn attack_damage_of(data: &GameData, attacker: EntityId, target: EntityId) -> (r: Hp)
    ensures
        r == attack_damage(data@, attacker, target),
{
    let power: i64 = match data.entities.fighter.get(attacker) {
        Some(f) => f.power as i64,
        None => 0,
    };
    let defense: i64 = match data.entities.fighter.get(target) {
        Some(f) => f.defense as i64,
        None => 0,
    };
    let raw: i64 = power - defense;
    if raw < 0 {
        0
    } else if raw > 0x7fff_ffff {
        0x7fff_ffff
    } else {
        raw as i32
    }
}

/// The broad kind of an entity; `Other` if it has none.
pub open spec fn kind_of(d: DataView, id: EntityId) -> ObjType {
    match lookup(d.entities.typ, id as int) {
        Some(t) => t,
        None => ObjType::Other,
    }
}

/// Whether the entity `target` at `at` can be pushed one step `(sx, sy)`:
/// the step is free for it and does not end in water.
pub open spec fn push_free(d: DataView, target: EntityId, at: Position, sx: int, sy: int) -> bool {
    step_free(d, target, at, sx, sy) && d.map.tile(
        Position((at.0 + sx) as i32, (at.1 + sy) as i32),
    ).tile_type != TileType::Water
}

/// What happens when the running entity `id` comes from `from` upon the
/// entity `target`: where there is room behind it, the target is pushed
/// one step on, and else it is crushed; either way the runner takes its
/// tile.
pub open spec fn run_into(d: DataView, eff: Effect, id: EntityId, from: Position, target: EntityId)
    -> Effect {
    match lookup(d.entities.pos, target as int) {
        None => eff,
        Some(at) => {
            let sx = sign_int(at.0 - from.0);
            let sy = sign_int(at.1 - from.1);
            let take = Msg::Moved(id, Movement::Move(at.0, at.1), at);
            if push_free(d, target, at, sx, sy) {
                let beyond = Position((at.0 + sx) as i32, (at.1 + sy) as i32);
                eff.emit(Msg::Moved(target, Movement::Move(beyond.0, beyond.1), beyond)).emit(take)
            } else {
                eff.emit(Msg::Crushed(id, at, kind_of(d, target))).emit(take)
            }
        },
    }
}

/// The messages that carry out the movement `m` of the entity `id`,
/// which stands at `from`.
pub open spec fn move_messages(d: DataView, s: GameSettings, id: EntityId, from: Position, m: Movement)
    -> Effect {
    let eff = Effect::none(d, s);
    match m {
        Movement::Move(x, y) => eff.emit(Msg::Moved(id, m, Position(x, y))),
        Movement::JumpWall(x, y) => eff.emit(Msg::JumpWall(id, from, Position(x, y))).emit(
            Msg::Moved(id, m, Position(x, y)),
        ),
        Movement::WallKick(x, y, _, _) => eff.emit(Msg::WallKick(id, Position(x, y))).emit(
            Msg::Moved(id, m, Position(x, y)),
        ),
        Movement::Collide(x, y) => eff.emit(Msg::Collided(id, Position(x, y))).emit(
            Msg::Moved(id, m, Position(x, y)),
        ),
        Movement::Attack(x, y, target) => if lookup(d.entities.move_mode, id as int) == Some(
            MoveMode::Run,
        ) {
            run_into(d, eff, id, from, target)
        } else {
            eff.emit(Msg::Attack(id, target, attack_damage(d, id, target))).emit(
                Msg::Moved(id, m, Position(x, y)),
            )
        },
    }
}

/// An intended move: the movement resolver says what becomes of it. The
/// intent is dropped if the entity stands nowhere, cannot move, or cannot
/// move that way.
pub open spec fn on_move(d: DataView, s: GameSettings, id: EntityId, action: MoveAction) -> Effect {
    match (lookup(d.entities.pos, id as int), lookup(d.entities.movement, id as int)) {
        (Some(from), Some(reach)) => if !reach.valid() {
            Effect::dropped(d, s, id)
        } else {
            match movement_plan(d, id, action, reach) {
                Some(m) => move_messages(d, s, id, from, m),
                None => Effect::dropped(d, s, id),
            }
        },
        _ => Effect::dropped(d, s, id),
    }
}

/// A move in a direction.
pub open spec fn on_move_intent(d: DataView, s: GameSettings, id: EntityId, dir: Direction)
    -> Effect {
    on_move(d, s, id, move_of(dir))
}

/// The share of its turn that an intended move takes of the entity if it
/// takes effect as planned: none if the intent is dropped, half a turn if
/// the step leaves more than one unit of momentum and the step before
/// did not take half a turn, and else the whole turn.
pub open spec fn move_share(d: DataView, s: GameSettings, id: EntityId, action: MoveAction)
    -> PlayerAction {
    let eff = on_move(d, s, id, action);
    if eff.unavailable is Some {
        PlayerAction::DidntTakeTurn
    } else if eff.back.len() > 0 && eff.back.last() is Moved {
        match lookup(d.entities.momentum, id as int) {
            Some(m) => if momentum_after(
                m,
                eff.back.last()->Moved_1,
                lookup(d.entities.pos, id as int)->0,
                eff.back.last()->Moved_2,
            ).took_half_turn {
                PlayerAction::TookHalfTurn
            } else {
                PlayerAction::TookTurn
            },
            None => PlayerAction::TookTurn,
        }
    } else {
        PlayerAction::TookTurn
    }
}

/// The momentum attribute at the start of a whole turn.
pub open spec fn rested_momentum(m: Option<Momentum>) -> Option<Momentum> {
    match m {
        Some(m) => Some(Momentum { took_half_turn: false, ..m }),
        None => None,
    }
}

/// The world in which the entity `id` does something other than moving:
/// that ends a turn made of two half steps.
pub open spec fn rested(d: DataView, id: EntityId) -> DataView {
    if id < d.entities.momentum.len() {
        d.with_entities(
            EntitiesView {
                momentum: d.entities.momentum.update(
                    id as int,
                    rested_momentum(d.entities.momentum[id as int]),
                ),
                ..d.entities
            },
        )
    } else {
        d
    }
}

/// Picking up: the first item on the tile of the entity is picked up.
pub open spec fn on_pickup_intent(d: DataView, s: GameSettings, id: EntityId) -> Effect {
    match lookup(d.entities.pos, id as int) {
        Some(at) => match d.entities.item_at(at) {
            Some(item) => if item != id {
                Effect::none(d, s).emit(Msg::PickedUp(id, item))
            } else {
                Effect::dropped(d, s, id)
            },
            None => Effect::dropped(d, s, id),
        },
        None => Effect::dropped(d, s, id),
    }
}

/// Dropping: the first item of the inventory is dropped.
pub open spec fn on_drop_intent(d: DataView, s: GameSettings, id: EntityId) -> Effect {
    match lookup(d.entities.inventory, id as int) {
        Some(inv) => if inv.len() > 0 {
            Effect::none(d, s).emit(Msg::DropItem(id, inv[0]))
        } else {
            Effect::dropped(d, s, id)
        },
        None => Effect::dropped(d, s, id),
    }
}

/// Using an item on a tile: the first item of the inventory is used. A
/// hammer is swung at the tile and a stone is thrown at it; nothing else
/// can be used, and neither can an empty inventory.
pub open spec fn on_use_intent(d: DataView, s: GameSettings, id: EntityId, target: Pos) -> Effect {
    match (lookup(d.entities.inventory, id as int), lookup(d.entities.pos, id as int)) {
        (Some(inv), Some(from)) => if inv.len() > 0 {
            match lookup(d.entities.item, inv[0] as int) {
                Some(Item::Hammer) => Effect::none(d, s).emit(Msg::HammerSwing(id, target)),
                Some(Item::Stone) => Effect::none(d, s).emit(
                    Msg::ItemThrow(id, inv[0], from, target),
                ),
                _ => Effect::dropped(d, s, id),
            }
        } else {
            Effect::dropped(d, s, id)
        },
        _ => Effect::dropped(d, s, id),
    }
}

/// A change of tempo by one step up or down.
pub open spec fn on_tempo_intent(d: DataView, s: GameSettings, id: EntityId, up: bool) -> Effect {
    match lookup(d.entities.move_mode, id as int) {
        Some(mode) => Effect::none(d, s).emit(
            Msg::MoveMode(
                if up {
                    mode.increased()
                } else {
                    mode.decreased()
                },
            ),
        ),
        None => Effect::dropped(d, s, id),
    }
}

/// What an intent other than a move sends out.
pub open spec fn on_intent(d: DataView, s: GameSettings, id: EntityId, action: Action) -> Effect {
    match action {
        Action::Attack(target, _) => Effect::none(d, s).emit(
            Msg::Attack(id, target, attack_damage(d, id, target)),
        ),
        Action::StateChange(b) => Effect::none(d, s).emit(Msg::StateChange(id, b)),
        Action::Pass => Effect::none(d, s).emit(Msg::Pass()),
        Action::Pickup => on_pickup_intent(d, s, id),
        Action::DropItem => on_drop_intent(d, s, id),
        Action::UseItem(target) => on_use_intent(d, s, id, target),
        Action::Yell => match lookup(d.entities.pos, id as int) {
            Some(at) => Effect::none(d, s).emit(Msg::Yell(at)),
            None => Effect::dropped(d, s, id),
        },
        Action::IncreaseMoveMode => on_tempo_intent(d, s, id, true),
        Action::DecreaseMoveMode => on_tempo_intent(d, s, id, false),
        _ => Effect::none(d, s),
    }
}

/// An intent becomes the messages that carry it out. Any intent other
/// than a move, if it is not dropped, ends a turn made of two half steps.
pub open spec fn on_action(d: DataView, s: GameSettings, id: EntityId, action: Action) -> Effect {
    match action {
        Action::Move(dir) => on_move_intent(d, s, id, dir),
        Action::NoAction => Effect::none(d, s),
        _ => {
            let eff = on_intent(d, s, id, action);
            if eff.unavailable is Some {
                eff
            } else {
                Effect { data: rested(d, id), ..eff }
            }
        },
    }
}

fn run_into_exec(data: &GameData, out: &mut Outcome, id: EntityId, from: Position, target: EntityId)
    requires
        data.wf(),
        !old(out).violation,
        old(out).unavailable is None,
    ensures
        forall|eff: Effect|
            #![trigger run_into(data@, eff, id, from, target)]
            old(out).is(eff) ==> final(out).is(run_into(data@, eff, id, from, target)),
{
    match data.entities.pos.get(target) {
        None => {},
        Some(at) => {
            let sx: i32 = step_of(at.0, from.0);
            let sy: i32 = step_of(at.1, from.1);
            let take = Msg::Moved(id, Movement::Move(at.0, at.1), at);
            let beyond: Option<Position> = offset_pos(at, sx, sy);
            let mut free: bool = false;
            match beyond {
                Some(to) => {
                    if data.map.is_within_bounds(to.0, to.1) && !data.map.is_blocked_by_wall(
                        at.0,
                        at.1,
                        sx,
                        sy,
                    ) && !data.is_blocked(to, Some(target)) && data.map.tile(to).tile_type
                        != TileType::Water {
                        free = true;
                    }
                },
                None => {},
            }
            if free {
                let to: Position = beyond.unwrap();
                out.emit(Msg::Moved(target, Movement::Move(to.0, to.1), to));
                out.emit(take);
            } else {
                let kind: ObjType = match data.entities.typ.get(target) {
                    Some(t) => t,
                    None => ObjType::Other,
                };
                out.emit(Msg::Crushed(id, at, kind));
                out.emit(take);
            }
        },
    }
}

fn handle_move_intent(data: &GameData, settings: &GameSettings, id: EntityId, dir: Direction) -> (out:
    Outcome)
    requires
        data.wf(),
    ensures
        out.is(on_move_intent(data@, *settings, id, dir)),
{
    handle_move(data, settings, id, move_for(dir))
}

/// What becomes of the intended move `action` of the entity `id`: the
/// messages that carry it out.
pub fn handle_move(data: &GameData, settings: &GameSettings, id: EntityId, action: MoveAction) -> (out:
    Outcome)
    requires
        data.wf(),
    ensures
        out.is(on_move(data@, *settings, id, action)),
{
    let from: Position = match data.entities.pos.get(id) {
        Some(p) => p,
        None => {
            return Outcome::dropped(id);
        },
    };
    let reach = match data.entities.movement.get(id) {
        Some(r) => r,
        None => {
            return Outcome::dropped(id);
        },
    };
    if !reach.is_valid() {
        return Outcome::dropped(id);
    }
    let m: Movement = match calculate_move(action, reach, id, data) {
        Some(m) => m,
        None => {
            return Outcome::dropped(id);
        },
    };
    let mut out = Outcome::none();
    let ghost eff = Effect::none(data@, *settings);
    match m {
        Movement::Move(x, y) => {
            out.emit(Msg::Moved(id, m, Position(x, y)));
        },
        Movement::JumpWall(x, y) => {
            out.emit(Msg::JumpWall(id, from, Position(x, y)));
            out.emit(Msg::Moved(id, m, Position(x, y)));
        },
        Movement::WallKick(x, y, _, _) => {
            out.emit(Msg::WallKick(id, Position(x, y)));
            out.emit(Msg::Moved(id, m, Position(x, y)));
        },
        Movement::Collide(x, y) => {
            out.emit(Msg::Collided(id, Position(x, y)));
            out.emit(Msg::Moved(id, m, Position(x, y)));
        },
        Movement::Attack(x, y, target) => {
            if data.entities.move_mode.get(id) == Some(MoveMode::Run) {
                assert(out.is(eff));
                run_into_exec(data, &mut out, id, from, target);
            } else {
                out.emit(Msg::Attack(id, target, attack_damage_of(data, id, target)));
                out.emit(Msg::Moved(id, m, Position(x, y)));
            }
        },
    }
    out
}

fn handle_intent(data: &GameData, settings: &GameSettings, id: EntityId, action: Action) -> (out:
    Outcome)
    requires
        data.wf(),
    ensures
        out.is(on_intent(data@, *settings, id, action)),
{
    let mut out = Outcome::none();
    match action {
        Action::Attack(target, _) => {
            out.emit(Msg::Attack(id, target, attack_damage_of(data, id, target)));
        },
        Action::StateChange(b) => {
            out.emit(Msg::StateChange(id, b));
        },
        Action::Pass => {
            out.emit(Msg::Pass());
        },
        Action::Pickup => {
            match data.entities.pos.get(id) {
                Some(at) => match data.entities.item_at(at) {
                    Some(item) => {
                        if item != id {
                            out.emit(Msg::PickedUp(id, item));
                        } else {
                            return Outcome::dropped(id);
                        }
                    },
                    None => {
                        return Outcome::dropped(id);
                    },
                },
                None => {
                    return Outcome::dropped(id);
                },
            }
        },
        Action::DropItem => {
            if data.entities.inventory.queue_len(id) > 0 {
                out.emit(Msg::DropItem(id, data.entities.inventory.item(id, 0)));
            } else {
                return Outcome::dropped(id);
            }
        },
        Action::UseItem(target) => {
            let from: Position = match data.entities.pos.get(id) {
                Some(p) => p,
                None => {
                    return Outcome::dropped(id);
                },
            };
            if data.entities.inventory.queue_len(id) > 0 {
                let first: EntityId = data.entities.inventory.item(id, 0);
                match data.entities.item.get(first) {
                    Some(Item::Hammer) => {
                        out.emit(Msg::HammerSwing(id, target));
                    },
                    Some(Item::Stone) => {
                        out.emit(Msg::ItemThrow(id, first, from, target));
                    },
                    _ => {
                        return Outcome::dropped(id);
                    },
                }
            } else {
                return Outcome::dropped(id);
            }
        },
        Action::Yell => {
            match data.entities.pos.get(id) {
                Some(at) => {
                    out.emit(Msg::Yell(at));
                },
                None => {
                    return Outcome::dropped(id);
                },
            }
        },
        Action::IncreaseMoveMode => {
            match data.entities.move_mode.get(id) {
                Some(mode) => {
                    out.emit(Msg::MoveMode(mode.increase()));
                },
                None => {
                    return Outcome::dropped(id);
                },
            }
        },
        Action::DecreaseMoveMode => {
            match data.entities.move_mode.get(id) {
                Some(mode) => {
                    out.emit(Msg::MoveMode(mode.decrease()));
                },
                None => {
                    return Outcome::dropped(id);
                },
            }
        },
        _ => {},
    }
    out
}

/// Handles the intent `action` of the entity `id`.
pub fn handle_action(data: &mut GameData, settings: &GameSettings, id: EntityId, action: Action)
    -> (out: Outcome)
    requires
        old(data).wf(),
    ensures
        final(data).wf(),
        out.is(on_action(old(data)@, *settings, id, action)),
        final(data)@ == on_action(old(data)@, *settings, id, action).data,
{
    assert(old(data).entities@.wf());
    match action {
        Action::Move(dir) => {
            return handle_move_intent(data, settings, id, dir);
        },
        Action::NoAction => {
            return Outcome::none();
        },
        _ => {},
    }
    let out: Outcome = handle_intent(data, settings, id, action);
    if out.unavailable.is_none() && id < data.entities.momentum.len() {
        match data.entities.momentum.get(id) {
            Some(m) => {
                data.entities.momentum.insert(id, Momentum { took_half_turn: false, ..m });
            },
            None => {
                assert(data.entities.momentum@ =~= old(data).entities.momentum@.update(
                    id as int,
                    None,
                ));
            },
        }
    }
    out
}

/// Lets the entity `player` intend the move `move_action`: the messages
/// that carry the move, or the attack that it runs into, out are put on
/// the log, and the result says which share of its turn the move takes.
pub fn player_move_or_attack(
    move_action: MoveAction,
    player: EntityId,
    data: &GameData,
    settings: &GameSettings,
    msg_log: &mut MsgLog,
) -> (player_action: PlayerAction)
    requires
        data.wf(),
    ensures
        final(msg_log)@ == on_move(data@, *settings, player, move_action).logged(old(msg_log)@),
        player_action == move_share(data@, *settings, player, move_action),
{
    let out: Outcome = handle_move(data, settings, player, move_action);
    msg_log.absorb(&out);
    let player_action: PlayerAction;
    if out.unavailable.is_some() {
        player_action = PlayerAction::DidntTakeTurn;
    } else if out.back.len() > 0 {
        match (out.back[out.back.len() - 1], data.entities.momentum.get(player)) {
            (Msg::Moved(_, movement, to), Some(momentum)) => {
                let from: Position = match data.entities.pos.get(player) {
                    Some(p) => p,
                    None => Position(0, 0),
                };
                if momentum_after_of(momentum, movement, from, to).took_half_turn {
                    player_action = PlayerAction::TookHalfTurn;
                } else {
                    player_action = PlayerAction::TookTurn;
                }
            },
            _ => {
                player_action = PlayerAction::TookTurn;
            },
        }
    } else {
        player_action = PlayerAction::TookTurn;
    }
    return player_action;
}

} // verus!
