//! What each message does to the world once it is taken off the queue.

use crate::action::{GameState, MoveMode};
use crate::data::{DataView, GameData};
use crate::effect::{Effect, Outcome};
use crate::entities::EntitiesView;
use crate::map::{Surface, Tile};
use crate::messaging::Msg;
use crate::momentum::Momentum;
use crate::object::{Behavior, EntityName, Fighter, ObjType, Status};
use crate::settings::GameSettings;
use crate::store::lookup;
use crate::types::{clamp_int, EntityId, Hp, Pos};
use vstd::prelude::*;

verus! {

/// How far the sound of a trap carries.
pub const TRAP_SOUND_RADIUS: usize = 8;

/// How far a yell carries.
pub const YELL_RADIUS: usize = 6;

/// The damage of a spike trap.
pub const SPIKE_DAMAGE: Hp = 2;

/// How far the sound of a thrown item carries where it lands.
pub const THROW_SOUND_RADIUS: usize = 4;

impl DataView {
    /// The same world with other entities.
    pub open spec fn with_entities(self, entities: EntitiesView) -> DataView {
        DataView { entities: entities, ..self }
    }
}

/// The part of a damage that counts: nothing of a negative damage.
pub open spec fn counted_damage(hp: Hp) -> int {
    if hp > 0 {
        hp as int
    } else {
        0
    }
}

/// An attack takes the damage from the hit points of the target. A
/// target left without hit points is killed before anything else
/// happens. The attack is dropped if the target cannot fight.
pub open spec fn on_attack(
    d: DataView,
    s: GameSettings,
    attacker: EntityId,
    target: EntityId,
    hp: Hp,
) -> Effect {
    match lookup(d.entities.fighter, target as int) {
        None => Effect::dropped(d, s, attacker),
        Some(f) => {
            let damage = counted_damage(hp);
            if f.hp - damage < i32::MIN {
                Effect::dropped(d, s, attacker)
            } else {
                let hit = Fighter { hp: (f.hp - damage) as i32, ..f };
                let entities = EntitiesView {
                    fighter: d.entities.fighter.update(target as int, Some(hit)),
                    ..d.entities
                };
                let eff = Effect::none(d.with_entities(entities), s);
                if hit.hp <= 0 {
                    eff.emit_front(Msg::Killed(attacker, target, damage as i32))
                } else {
                    eff
                }
            }
        },
    }
}

pub fn handle_attack(data: &mut GameData, settings: &GameSettings, attacker: EntityId, target: EntityId, hp: Hp) -> (out:
    Outcome)
    requires
        old(data).wf(),
    ensures
        final(data).wf(),
        out.is(on_attack(old(data)@, *settings, attacker, target, hp)) && final(data)@ == on_attack(
                old(data)@,
                *settings,
                attacker,
                target,
                hp,
            ).data,
{
    assert(old(data).entities@.wf());
    match data.entities.fighter.get(target) {
        None => Outcome::dropped(attacker),
        Some(f) => {
            let damage: i32 = if hp > 0 {
                hp
            } else {
                0
            };
            if (f.hp as i64) - (damage as i64) < -0x8000_0000 {
                Outcome::dropped(attacker)
            } else {
                let hit = Fighter { hp: f.hp - damage, ..f };
                data.entities.fighter.insert(target, hit);
                let mut out = Outcome::none();
                if hit.hp <= 0 {
                    out.emit_front(Msg::Killed(attacker, target, damage));
                }
                out
            }
        },
    }
}

/// The status of an entity that died.
pub open spec fn dead_status(st: Option<Status>) -> Option<Status> {
    match st {
        Some(s) => Some(Status { alive: false, ..s }),
        None => None,
    }
}

/// A killed entity is no longer alive, no longer blocks its tile, shows
/// as a corpse and stops planning. The death of the player is announced
/// and loses the game.
pub open spec fn on_killed(d: DataView, s: GameSettings, target: EntityId) -> Effect {
    if target >= d.entities.pos.len() {
        Effect::dropped(d, s, target)
    } else {
        let t = target as int;
        let entities = EntitiesView {
            status: d.entities.status.update(t, dead_status(d.entities.status[t])),
            blocks: d.entities.blocks.update(t, Some(false)),
            chr: d.entities.chr.update(t, Some('%')),
            ai: d.entities.ai.update(t, None),
            ..d.entities
        };
        if d.entities.name[t] == Some(EntityName::Player) {
            Effect::none(d.with_entities(entities), GameSettings { state: GameState::Lose, ..s }).emit(
                Msg::PlayerDeath,
            )
        } else {
            Effect::none(d.with_entities(entities), s)
        }
    }
}

pub fn handle_killed(data: &mut GameData, settings: &mut GameSettings, target: EntityId) -> (out:
    Outcome)
    requires
        old(data).wf(),
    ensures
        final(data).wf(),
        out.is(on_killed(old(data)@, *old(settings), target)),
        final(data)@ == on_killed(old(data)@, *old(settings), target).data,
        *final(settings) == on_killed(old(data)@, *old(settings), target).settings,
{
    assert(old(data).entities@.wf());
    if target >= data.entities.count() {
        return Outcome::dropped(target);
    }
    match data.entities.status.get(target) {
        Some(st) => {
            data.entities.status.insert(target, Status { alive: false, ..st });
        },
        None => {
            assert(data.entities.status@ =~= old(data).entities.status@.update(
                target as int,
                None,
            ));
        },
    }
    data.entities.blocks.insert(target, false);
    data.entities.chr.insert(target, '%');
    data.entities.ai.remove(target);
    let mut out = Outcome::none();
    if data.entities.name.get(target) == Some(EntityName::Player) {
        settings.state = GameState::Lose;
        out.emit(Msg::PlayerDeath);
    }
    out
}

/// The tile with rubble on it.
pub open spec fn rubbled(t: Tile) -> Tile {
    Tile { surface: Surface::Rubble, ..t }
}

/// The entity that blocks the tile is crushed: it dies whatever its
/// hit points, stops blocking, and is marked for removal. A crushed
/// monster leaves rubble. The message is dropped if nothing but the
/// crusher blocks the tile.
pub open spec fn on_crushed(d: DataView, s: GameSettings, by: EntityId, pos: Pos, kind: ObjType)
    -> Effect {
    match d.entities.blocker_at(pos, Some(by)) {
        None => Effect::dropped(d, s, by),
        Some(target) => {
            let t = target as int;
            let entities = EntitiesView {
                status: d.entities.status.update(t, dead_status(d.entities.status[t])),
                blocks: d.entities.blocks.update(t, Some(false)),
                needs_removal: d.entities.needs_removal.update(t, Some(true)),
                chr: d.entities.chr.update(t, Some('%')),
                ..d.entities
            };
            let map = if kind == ObjType::Enemy && d.map.in_bounds(pos) {
                d.map.with_tile(pos, rubbled(d.map.tile(pos)))
            } else {
                d.map
            };
            Effect::none(DataView { map: map, entities: entities }, s)
        },
    }
}

pub fn handle_crushed(data: &mut GameData, settings: &GameSettings, by: EntityId, pos: Pos, kind: ObjType) -> (out: Outcome)
    requires
        old(data).wf(),
    ensures
        final(data).wf(),
        out.is(on_crushed(old(data)@, *settings, by, pos, kind)) && final(data)@ == on_crushed(
                old(data)@,
                *settings,
                by,
                pos,
                kind,
            ).data,
{
    assert(old(data).entities@.wf());
    proof {
        crate::entities::blocker_from_finds(old(data)@.entities, pos, Some(by), 0);
    }
    match data.entities.blocking_entity_at(pos, Some(by)) {
        None => Outcome::dropped(by),
        Some(target) => {
            match data.entities.status.get(target) {
                Some(st) => {
                    data.entities.status.insert(target, Status { alive: false, ..st });
                },
                None => {
                    assert(data.entities.status@ =~= old(data).entities.status@.update(
                        target as int,
                        None,
                    ));
                },
            }
            data.entities.blocks.insert(target, false);
            data.entities.needs_removal.insert(target, true);
            data.entities.chr.insert(target, '%');
            if kind == ObjType::Enemy && data.map.is_within_bounds(pos.0, pos.1) {
                let tile: Tile = data.map.tile(pos);
                data.map.set_tile(pos, Tile { surface: Surface::Rubble, ..tile });
            }
            Outcome::none()
        },
    }
}

/// A behavior change sets the behavior of the entity.
pub open spec fn on_state_change(d: DataView, s: GameSettings, ent: EntityId, b: Behavior)
    -> Effect {
    if ent >= d.entities.pos.len() {
        Effect::dropped(d, s, ent)
    } else {
        Effect::none(
            d.with_entities(
                EntitiesView {
                    behavior: d.entities.behavior.update(ent as int, Some(b)),
                    ..d.entities
                },
            ),
            s,
        )
    }
}

pub fn handle_state_change(data: &mut GameData, settings: &GameSettings, ent: EntityId, b: Behavior) -> (out: Outcome)
    requires
        old(data).wf(),
    ensures
        final(data).wf(),
        out.is(on_state_change(old(data)@, *settings, ent, b)) && final(data)@ == on_state_change(
                old(data)@,
                *settings,
                ent,
                b,
            ).data,
{
    assert(old(data).entities@.wf());
    if ent >= data.entities.count() {
        Outcome::dropped(ent)
    } else {
        data.entities.behavior.insert(ent, b);
        Outcome::none()
    }
}

/// The states that a message can set: playing and the menus. Winning
/// and losing come about in other ways.
pub open spec fn settable_state(state: GameState) -> bool {
    state != GameState::Win && state != GameState::Lose
}

/// A state message sets the state of the game if it names a state that
/// can be set, and does nothing otherwise.
pub open spec fn on_game_state(d: DataView, s: GameSettings, state: GameState) -> Effect {
    if settable_state(state) {
        Effect::none(d, GameSettings { state: state, ..s })
    } else {
        Effect::none(d, s)
    }
}

pub fn handle_game_state(data: &GameData, settings: &mut GameSettings, state: GameState) -> (out: Outcome)
    ensures
        out.is(on_game_state(data@, *old(settings), state)) && *final(settings) == on_game_state(
                data@,
                *old(settings),
                state,
            ).settings,
{
    match state {
        GameState::Win => {},
        GameState::Lose => {},
        _ => {
            settings.state = state;
        },
    }
    Outcome::none()
}

/// The momentum of an entity that changes to the tempo `mode`: the limit
/// of the tempo, and what it had within that limit.
pub open spec fn momentum_at_mode(m: Momentum, mode: MoveMode) -> Momentum {
    let limit = mode.max_momentum();
    Momentum {
        max: limit as i32,
        mx: clamp_int(m.mx as int, -limit, limit) as i32,
        my: clamp_int(m.my as int, -limit, limit) as i32,
        ..m
    }
}

/// The momentum attribute after a change of tempo.
pub open spec fn momentum_option_at_mode(m: Option<Momentum>, mode: MoveMode) -> Option<
    Momentum,
> {
    match m {
        Some(m) => Some(momentum_at_mode(m, mode)),
        None => None,
    }
}

/// A tempo message sets the tempo of the player and limits the momentum
/// of the player accordingly.
pub open spec fn on_move_mode(d: DataView, s: GameSettings, mode: MoveMode) -> Effect {
    match d.entities.find_by_name(EntityName::Player) {
        None => Effect::none(d, s),
        Some(player) => {
            let p = player as int;
            Effect::none(
                d.with_entities(
                    EntitiesView {
                        move_mode: d.entities.move_mode.update(p, Some(mode)),
                        momentum: d.entities.momentum.update(
                            p,
                            momentum_option_at_mode(lookup(d.entities.momentum, p), mode),
                        ),
                        ..d.entities
                    },
                ),
                s,
            )
        },
    }
}

fn clamp_to(v: i32, limit: i32) -> (r: i32)
    requires
        0 <= limit,
    ensures
        r == clamp_int(v as int, -(limit as int), limit as int),
{
    if v < -limit {
        -limit
    } else if v > limit {
        limit
    } else {
        v
    }
}

/// What a search for a name finds is an id of the store.
pub proof fn find_name_in_range(v: EntitiesView, name: EntityName, i: int)
    requires
        v.wf(),
        0 <= i,
    ensures
        v.find_name_from(name, i) matches Some(k) ==> i <= k < v.pos.len() && v.name[k as int]
            == Some(name),
    decreases v.name.len() - i,
{
    if i < v.name.len() && v.name[i] != Some(name) {
        find_name_in_range(v, name, i + 1);
    }
}

pub fn handle_move_mode(data: &mut GameData, settings: &GameSettings, mode: MoveMode) -> (out: Outcome)
    requires
        old(data).wf(),
    ensures
        final(data).wf(),
        out.is(on_move_mode(old(data)@, *settings, mode)) && final(data)@ == on_move_mode(
                old(data)@,
                *settings,
                mode,
            ).data,
{
    assert(old(data).entities@.wf());
    proof {
        find_name_in_range(old(data)@.entities, EntityName::Player, 0);
    }
    match data.entities.find_player() {
        None => {},
        Some(player) => {
            data.entities.move_mode.insert(player, mode);
            match data.entities.momentum.get(player) {
                Some(m) => {
                    let limit: i32 = mode.momentum_limit();
                    data.entities.momentum.insert(
                        player,
                        Momentum {
                            max: limit,
                            mx: clamp_to(m.mx, limit),
                            my: clamp_to(m.my, limit),
                            ..m
                        },
                    );
                },
                None => {
                    assert(data.entities.momentum@ =~= old(data).entities.momentum@.update(
                        player as int,
                        None,
                    ));
                },
            }
        },
    }
    Outcome::none()
}

/// A spike trap sounds from where it lies, if it lies anywhere, and
/// attacks the entity that set it off.
pub open spec fn on_spike_trap(d: DataView, s: GameSettings, trap: EntityId, ent: EntityId)
    -> Effect {
    match lookup(d.entities.pos, trap as int) {
        Some(p) => Effect::none(d, s).emit(Msg::Sound(ent, p, TRAP_SOUND_RADIUS, true)).emit(
            Msg::Attack(trap, ent, SPIKE_DAMAGE),
        ),
        None => Effect::none(d, s).emit(Msg::Attack(trap, ent, SPIKE_DAMAGE)),
    }
}

/// A sound trap sounds from where it lies; the message is dropped if
/// the trap lies nowhere.
pub open spec fn on_sound_trap(d: DataView, s: GameSettings, trap: EntityId, ent: EntityId)
    -> Effect {
    match lookup(d.entities.pos, trap as int) {
        Some(p) => Effect::none(d, s).emit(Msg::Sound(ent, p, TRAP_SOUND_RADIUS, true)),
        None => Effect::dropped(d, s, ent),
    }
}

/// A yell is a sound that the player makes.
pub open spec fn on_yell(d: DataView, s: GameSettings, pos: Pos) -> Effect {
    match d.entities.find_by_name(EntityName::Player) {
        Some(player) => Effect::none(d, s).emit(Msg::Sound(player, pos, YELL_RADIUS, true)),
        None => Effect::none(d, s),
    }
}

/// An entity hit by the hammer is killed.
pub open spec fn on_hammer_hit_entity(d: DataView, s: GameSettings, ent: EntityId, target: EntityId)
    -> Effect {
    Effect::none(d, s).emit(Msg::Killed(ent, target, 0))
}

pub fn handle_spike_trap(data: &GameData, settings: &GameSettings, trap: EntityId, ent: EntityId) -> (out: Outcome)
    ensures
        out.is(on_spike_trap(data@, *settings, trap, ent)),
{
    let mut out = Outcome::none();
    match data.entities.pos.get(trap) {
        Some(p) => {
            out.emit(Msg::Sound(ent, p, TRAP_SOUND_RADIUS, true));
        },
        None => {},
    }
    out.emit(Msg::Attack(trap, ent, SPIKE_DAMAGE));
    out
}

pub fn handle_sound_trap(data: &GameData, settings: &GameSettings, trap: EntityId, ent: EntityId) -> (out: Outcome)
    ensures
        out.is(on_sound_trap(data@, *settings, trap, ent)),
{
    match data.entities.pos.get(trap) {
        Some(p) => {
            let mut out = Outcome::none();
            out.emit(Msg::Sound(ent, p, TRAP_SOUND_RADIUS, true));
            out
        },
        None => Outcome::dropped(ent),
    }
}

pub fn handle_yell(data: &GameData, settings: &GameSettings, pos: Pos) -> (out: Outcome)
    ensures
        out.is(on_yell(data@, *settings, pos)),
{
    let mut out = Outcome::none();
    match data.entities.find_player() {
        Some(player) => {
            out.emit(Msg::Sound(player, pos, YELL_RADIUS, true));
        },
        None => {},
    }
    out
}

pub fn handle_hammer_hit_entity(data: &GameData, settings: &GameSettings, ent: EntityId, target: EntityId) -> (out: Outcome)
    ensures
        out.is(on_hammer_hit_entity(data@, *settings, ent, target)),
{
    let mut out = Outcome::none();
    out.emit(Msg::Killed(ent, target, 0));
    out
}

} // verus!
