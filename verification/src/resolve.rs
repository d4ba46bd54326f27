//! The effect resolver: it takes the messages off the log one by one, lets
//! each take effect, and goes on until none is left.

use crate::act::{handle_action, on_action, on_intent, on_move_intent};
use crate::action::Action;
use crate::entities::EntitiesView;
use crate::handlers::{counted_damage, THROW_SOUND_RADIUS};
use crate::momentum::Movement;
use crate::moving::{can_drop, cannot_enter, landing};
use crate::object::{EntityName, Fighter};
use crate::store::lookup;
use crate::types::{Direction, EntityId, Pos};
use crate::data::{DataView, GameData};
use crate::effect::{
    emit_weight, msg_weight, note_unavailable, queue_weight, queue_weight_concat, silent_weight,
    Effect, GameError, Outcome,
};
use crate::hammer::{
    handle_hammer_hit_wall, handle_hammer_swing, handle_sound, on_hammer_hit_wall, on_hammer_swing,
    on_sound,
};
use crate::handlers::{
    handle_attack, handle_crushed, handle_game_state, handle_hammer_hit_entity, handle_killed,
    handle_move_mode, handle_sound_trap, handle_spike_trap, handle_state_change, handle_yell,
    on_attack, on_crushed, on_game_state, on_hammer_hit_entity, on_killed, on_move_mode,
    on_sound_trap, on_spike_trap, on_state_change, on_yell,
};
use crate::messaging::{Msg, MsgLog, MsgLogView};
use crate::moving::{
    handle_drop_item, handle_item_throw, handle_moved, handle_picked_up, on_drop_item,
    on_item_throw, on_moved, on_picked_up,
};
use crate::settings::GameSettings;
use vstd::prelude::*;

verus! {

/// What the message `msg` does in the world `d` with the settings `s`.
/// Messages that only report something do nothing.
#[verifier::opaque]
pub open spec fn on_msg(d: DataView, s: GameSettings, msg: Msg) -> Effect {
    match msg {
        Msg::Action(id, action) => on_action(d, s, id, action),
        Msg::Moved(id, movement, pos) => on_moved(d, s, id, movement, pos),
        Msg::Attack(attacker, target, hp) => on_attack(d, s, attacker, target, hp),
        Msg::Killed(_, target, _) => on_killed(d, s, target),
        Msg::Crushed(by, pos, kind) => on_crushed(d, s, by, pos, kind),
        Msg::SoundTrapTriggered(trap, ent) => on_sound_trap(d, s, trap, ent),
        Msg::SpikeTrapTriggered(trap, ent) => on_spike_trap(d, s, trap, ent),
        Msg::PickedUp(ent, item) => on_picked_up(d, s, ent, item),
        Msg::DropItem(ent, item) => on_drop_item(d, s, ent, item),
        Msg::ItemThrow(thrower, item, start, end) => on_item_throw(d, s, thrower, item, start, end),
        Msg::StateChange(ent, behavior) => on_state_change(d, s, ent, behavior),
        Msg::Sound(src, pos, radius, animate) => on_sound(d, s, src, pos, radius, animate),
        Msg::Yell(pos) => on_yell(d, s, pos),
        Msg::GameState(state) => on_game_state(d, s, state),
        Msg::MoveMode(mode) => on_move_mode(d, s, mode),
        Msg::HammerSwing(ent, pos) => on_hammer_swing(d, s, ent, pos),
        Msg::HammerHitEntity(ent, target) => on_hammer_hit_entity(d, s, ent, target),
        Msg::HammerHitWall(ent, pos) => on_hammer_hit_wall(d, s, ent, pos),
        _ => Effect::none(d, s),
    }
}

/// Lets one message take effect.
pub fn handle_msg(data: &mut GameData, settings: &mut GameSettings, msg: Msg) -> (out: Outcome)
    requires
        old(data).wf(),
    ensures
        final(data).wf(),
        out.is(on_msg(old(data)@, *old(settings), msg)),
        final(data)@ == on_msg(old(data)@, *old(settings), msg).data,
        *final(settings) == on_msg(old(data)@, *old(settings), msg).settings,
{
    reveal(on_msg);
    match msg {
        Msg::Action(id, action) => handle_action(data, settings, id, action),
        Msg::Moved(id, movement, pos) => handle_moved(data, settings, id, movement, pos),
        Msg::Attack(attacker, target, hp) => handle_attack(data, settings, attacker, target, hp),
        Msg::Killed(_, target, _) => handle_killed(data, settings, target),
        Msg::Crushed(by, pos, kind) => handle_crushed(data, settings, by, pos, kind),
        Msg::SoundTrapTriggered(trap, ent) => handle_sound_trap(data, settings, trap, ent),
        Msg::SpikeTrapTriggered(trap, ent) => handle_spike_trap(data, settings, trap, ent),
        Msg::PickedUp(ent, item) => handle_picked_up(data, settings, ent, item),
        Msg::DropItem(ent, item) => handle_drop_item(data, settings, ent, item),
        Msg::ItemThrow(thrower, item, start, end) => handle_item_throw(
            data,
            settings,
            thrower,
            item,
            start,
            end,
        ),
        Msg::StateChange(ent, behavior) => handle_state_change(data, settings, ent, behavior),
        Msg::Sound(src, pos, radius, animate) => handle_sound(
            data,
            settings,
            src,
            pos,
            radius,
            animate,
        ),
        Msg::Yell(pos) => handle_yell(data, settings, pos),
        Msg::GameState(state) => handle_game_state(data, settings, state),
        Msg::MoveMode(mode) => handle_move_mode(data, settings, mode),
        Msg::HammerSwing(ent, pos) => handle_hammer_swing(data, settings, ent, pos),
        Msg::HammerHitEntity(ent, target) => handle_hammer_hit_entity(data, settings, ent, target),
        Msg::HammerHitWall(ent, pos) => handle_hammer_hit_wall(data, settings, ent, pos),
        _ => Outcome::none(),
    }
}

impl MsgLog {
    /// Takes in what a handler sends out: the messages for the front of
    /// the queues, those for their end, and the note of a dropped
    /// message.
    pub fn absorb(&mut self, out: &Outcome)
        ensures
            forall|eff: Effect| #![trigger eff.logged(old(self)@)] out.is(eff) ==> final(self)@
                == eff.logged(old(self)@),
    {
        let mut i: usize = out.front.len();
        while i > 0
            invariant
                0 <= i <= out.front@.len(),
                self@.messages == out.front@.subrange(i as int, out.front@.len() as int) + old(
                    self,
                )@.messages,
                self@.turn_messages == out.front@.subrange(i as int, out.front@.len() as int)
                    + old(self)@.turn_messages,
            decreases i,
        {
            i = i - 1;
            let ghost before = self@;
            self.log_front(out.front[i]);
            proof {
                let tail = out.front@.subrange(i as int + 1, out.front@.len() as int);
                let more = out.front@.subrange(i as int, out.front@.len() as int);
                assert(more =~= seq![out.front@[i as int]] + tail);
                assert(self@.messages =~= more + old(self)@.messages);
                assert(self@.turn_messages =~= more + old(self)@.turn_messages);
            }
        }
        assert(out.front@.subrange(0, out.front@.len() as int) =~= out.front@);
        let mut j: usize = 0;
        while j < out.back.len()
            invariant
                0 <= j <= out.back@.len(),
                self@.messages == out.front@ + old(self)@.messages + out.back@.subrange(
                    0,
                    j as int,
                ),
                self@.turn_messages == out.front@ + old(self)@.turn_messages + out.back@.subrange(
                    0,
                    j as int,
                ),
            decreases out.back@.len() - j,
        {
            self.log(out.back[j]);
            proof {
                let done = out.back@.subrange(0, j as int);
                let more = out.back@.subrange(0, j as int + 1);
                assert(more =~= done.push(out.back@[j as int]));
                assert(self@.messages =~= out.front@ + old(self)@.messages + more);
                assert(self@.turn_messages =~= out.front@ + old(self)@.turn_messages + more);
            }
            j = j + 1;
        }
        assert(out.back@.subrange(0, out.back@.len() as int) =~= out.back@);
        match out.unavailable {
            Some(id) => {
                note_unavailable(self, id);
                assert(self@.turn_messages =~= out.front@ + old(self)@.turn_messages + out.back@
                    + seq![Msg::Unavailable(id)]);
            },
            None => {
                assert(self@.turn_messages =~= out.front@ + old(self)@.turn_messages + out.back@
                    + Seq::<Msg>::empty());
            },
        }
    }
}

/// The world together with the settings and the log.
pub struct WorldView {
    pub data: DataView,
    pub settings: GameSettings,
    pub log: MsgLogView,
}

impl WorldView {
    /// The world after the message at the head of its queue has taken
    /// effect.
    pub open spec fn stepped(self) -> WorldView {
        let eff = on_msg(self.data, self.settings, self.log.messages[0]);
        WorldView { data: eff.data, settings: eff.settings, log: eff.logged(self.log.popped()) }
    }

    /// Whether the message at the head of the queue names what cannot be.
    pub open spec fn head_violates(self) -> bool {
        on_msg(self.data, self.settings, self.log.messages[0]).violation
    }

    /// The world after its messages have been resolved: each message in
    /// turn takes effect, those that it sends out included, until the
    /// queue is empty or a message names what cannot be.
    pub open spec fn resolved(self) -> WorldView
        decreases queue_weight(self.log.messages),
    {
        if self.log.messages.len() == 0 {
            self
        } else if self.head_violates() {
            self.stepped()
        } else {
            proof {
                stepped_weighs_less(self);
            }
            self.stepped().resolved()
        }
    }

    /// Whether resolving the messages ends because the queue is empty,
    /// not because a message names what cannot be.
    pub open spec fn resolves(self) -> bool
        decreases queue_weight(self.log.messages),
    {
        if self.log.messages.len() == 0 {
            true
        } else if self.head_violates() {
            false
        } else {
            proof {
                stepped_weighs_less(self);
            }
            self.stepped().resolves()
        }
    }
}

/// A move sends out at most fifteen units of weight.
pub proof fn move_intent_weight(d: DataView, s: GameSettings, id: EntityId, dir: Direction)
    ensures
        on_move_intent(d, s, id, dir).weight() <= 15,
{
    let none = Effect::none(d, s);
    silent_weight(d, s, id);
    assert forall|a: Msg| #![trigger none.emit(a)] none.emit(a).weight() == msg_weight(a) by {
        emit_weight(none, a);
    }
    assert forall|a: Msg, b: Msg|
        #![trigger none.emit(a).emit(b)]
        none.emit(a).emit(b).weight() == msg_weight(a) + msg_weight(b) by {
        emit_weight(none, a);
        emit_weight(none.emit(a), b);
    }
}

/// Handling an intent sends out less weight than the intent has.
pub proof fn action_weight(d: DataView, s: GameSettings, id: EntityId, action: Action)
    ensures
        on_action(d, s, id, action).weight() <= 15,
{
    let none = Effect::none(d, s);
    silent_weight(d, s, id);
    move_intent_weight(d, s, id, action->Move_0);
    assert forall|a: Msg| #![trigger none.emit(a)] none.emit(a).weight() == msg_weight(a) by {
        emit_weight(none, a);
    }
    let eff = on_intent(d, s, id, action);
    assert(on_action(d, s, id, action).weight() == eff.weight() || action is Move
        || action is NoAction);
}

/// Handling a message sends out less weight than the message has.
pub proof fn effect_weighs_less(d: DataView, s: GameSettings, msg: Msg)
    ensures
        on_msg(d, s, msg).weight() < msg_weight(msg),
{
    reveal(on_msg);
    let none = Effect::none(d, s);
    silent_weight(d, s, 0);
    assert forall|id: EntityId| #![trigger Effect::dropped(d, s, id)] Effect::dropped(d, s, id).weight()
        == 0 by {
        silent_weight(d, s, id);
    }
    match msg {
        Msg::Action(id, action) => {
            action_weight(d, s, id, action);
        },
        Msg::Moved(id, movement, to) => {
            moved_weight(d, s, id, movement, to);
        },
        Msg::Attack(attacker, target, hp) => {
            let f = lookup(d.entities.fighter, target as int);
            if f is Some && f->0.hp - counted_damage(hp) >= i32::MIN {
                let hit = Fighter { hp: (f->0.hp - counted_damage(hp)) as i32, ..f->0 };
                let entities = EntitiesView {
                    fighter: d.entities.fighter.update(target as int, Some(hit)),
                    ..d.entities
                };
                let eff = Effect::none(d.with_entities(entities), s);
                silent_weight(d.with_entities(entities), s, 0);
                emit_weight(eff, Msg::Killed(attacker, target, counted_damage(hp) as i32));
            }
        },
        Msg::Killed(_, target, _) => {
            let eff = on_killed(d, s, target);
            if target < d.entities.pos.len() && d.entities.name[target as int] == Some(
                EntityName::Player,
            ) {
                let base = Effect { back: Seq::empty(), ..eff };
                assert(eff == base.emit(Msg::PlayerDeath));
                assert(base.weight() == 0);
                emit_weight(base, Msg::PlayerDeath);
            }
        },
        Msg::Crushed(by, pos, kind) => {},
        Msg::SoundTrapTriggered(trap, ent) => {
            assert forall|a: Msg| #![trigger none.emit(a)] none.emit(a).weight() == msg_weight(
                a,
            ) by {
                emit_weight(none, a);
            }
        },
        Msg::SpikeTrapTriggered(trap, ent) => {
            assert forall|a: Msg| #![trigger none.emit(a)] none.emit(a).weight() == msg_weight(
                a,
            ) by {
                emit_weight(none, a);
            }
            assert forall|a: Msg, b: Msg|
                #![trigger none.emit(a).emit(b)]
                none.emit(a).emit(b).weight() == msg_weight(a) + msg_weight(b) by {
                emit_weight(none, a);
                emit_weight(none.emit(a), b);
            }
        },
        Msg::PickedUp(ent, item) => {},
        Msg::DropItem(ent, item) => {},
        Msg::ItemThrow(thrower, item, start, end) => {
            let eff = on_item_throw(d, s, thrower, item, start, end);
            if can_drop(d, thrower, item) {
                let base = Effect { back: Seq::empty(), ..eff };
                let lands = landing(d, thrower, start, end);
                assert(eff == base.emit(Msg::Sound(thrower, lands, THROW_SOUND_RADIUS, true)));
                assert(base.weight() == 0);
                emit_weight(base, Msg::Sound(thrower, lands, THROW_SOUND_RADIUS, true));
            }
        },
        Msg::StateChange(ent, behavior) => {},
        Msg::Sound(src, pos, radius, animate) => {},
        Msg::Yell(pos) => {
            assert forall|a: Msg| #![trigger none.emit(a)] none.emit(a).weight() == msg_weight(
                a,
            ) by {
                emit_weight(none, a);
            }
        },
        Msg::GameState(state) => {},
        Msg::MoveMode(mode) => {},
        Msg::HammerSwing(ent, pos) => {
            hammer_swing_weight(d, s, ent, pos);
        },
        Msg::HammerHitEntity(ent, target) => {
            emit_weight(none, Msg::Killed(ent, target, 0));
        },
        Msg::HammerHitWall(ent, pos) => {
            let eff = on_hammer_hit_wall(d, s, ent, pos);
            let base = Effect { back: Seq::empty(), ..eff };
            assert(base.weight() == 0);
            assert forall|a: Msg| #![trigger base.emit(a)] base.emit(a).weight() == msg_weight(
                a,
            ) by {
                emit_weight(base, a);
            }
            if eff.back.len() > 0 {
                assert(eff == base.emit(eff.back[0]));
            }
        },
        _ => {},
    }
}

/// A move that takes effect sends out at most six units of weight.
pub proof fn moved_weight(d: DataView, s: GameSettings, id: EntityId, movement: Movement, to: Pos)
    ensures
        on_moved(d, s, id, movement, to).weight() <= 6,
{
    let eff = on_moved(d, s, id, movement, to);
    silent_weight(d, s, id);
    if lookup(d.entities.pos, id as int) is Some && !cannot_enter(d, id, to) {
        let base = Effect { back: Seq::empty(), ..eff };
        assert(base.weight() == 0);
        assert forall|a: Msg| #![trigger base.emit(a)] base.emit(a).weight() == msg_weight(a) by {
            emit_weight(base, a);
        }
        assert forall|a: Msg, b: Msg|
            #![trigger base.emit(a).emit(b)]
            base.emit(a).emit(b).weight() == msg_weight(a) + msg_weight(b) by {
            emit_weight(base, a);
            emit_weight(base.emit(a), b);
        }
        if eff.back.len() == 1 {
            assert(eff == base.emit(eff.back[0]));
        } else if eff.back.len() == 2 {
            assert(eff == base.emit(eff.back[0]).emit(eff.back[1]));
        }
    }
}

/// A swing of the hammer sends out at most four units of weight.
pub proof fn hammer_swing_weight(d: DataView, s: GameSettings, ent: EntityId, pos: Pos)
    ensures
        on_hammer_swing(d, s, ent, pos).weight() <= 4,
{
    let eff = on_hammer_swing(d, s, ent, pos);
    silent_weight(d, s, ent);
    let base = Effect { back: Seq::empty(), ..eff };
    assert(base.weight() == 0);
    assert forall|a: Msg| #![trigger base.emit(a)] base.emit(a).weight() == msg_weight(a) by {
        emit_weight(base, a);
    }
    if eff.back.len() > 0 {
        assert(eff == base.emit(eff.back[0]));
    }
}

/// Each step of the resolver lowers the weight of the queue.
pub proof fn stepped_weighs_less(w: WorldView)
    requires
        w.log.messages.len() > 0,
    ensures
        queue_weight(w.stepped().log.messages) < queue_weight(w.log.messages),
{
    let msg = w.log.messages[0];
    let eff = on_msg(w.data, w.settings, msg);
    let rest = w.log.messages.drop_first();
    effect_weighs_less(w.data, w.settings, msg);
    queue_weight_concat(eff.front, rest);
    queue_weight_concat(eff.front + rest, eff.back);
}

/// Resolves the messages of the log until none is left. A message that
/// cannot take effect is dropped with a note in the messages of the turn.
/// A message that names what cannot be ends the resolving at once.
///
/// The messages hold what the world has, each on its own: if before no
/// two entities that block movement stand on one tile, none do
/// afterwards; if each of them stands on the map before, each does
/// afterwards; and if every momentum is within its limit before, every
/// one is afterwards. If every entity without hit points that is alive has
/// its death at the head of the queue before, afterwards no entity
/// without hit points is alive, however the resolving ended; and the same
/// with "alive or blocking its tile" in place of "alive". Every entity
/// keeps its name, unless it is an item that is used up: if before
/// exactly one entity is named as the player is, and it is no item, the
/// same is true afterwards.
pub fn resolve_messages(data: &mut GameData, msg_log: &mut MsgLog, settings: &mut GameSettings)
    -> (r: Result<(), GameError>)
    requires
        old(data).wf(),
    ensures
        final(data).wf(),
        ({
            let before = WorldView {
                data: old(data)@,
                settings: *old(settings),
                log: old(msg_log)@,
            };
            &&& final(data)@ == before.resolved().data
            &&& *final(settings) == before.resolved().settings
            &&& final(msg_log)@ == before.resolved().log
            &&& before.resolves() ==> r is Ok && final(msg_log)@.messages.len() == 0
            &&& !before.resolves() ==> r == Err::<(), GameError>(GameError::InvariantViolation)
            &&& before.data.holds(final(data)@)
            &&& before.deaths_pending(false) ==> final(data)@.entities.dead_when_spent(false)
            &&& before.deaths_pending(true) ==> final(data)@.entities.dead_when_spent(true)
            &&& before.data.entities.keeps_names(final(data)@.entities)
            &&& before.data.entities.one_player() ==> final(data)@.entities.one_player()
        }),
{
    let ghost before = WorldView { data: data@, settings: *settings, log: msg_log@ };
    proof {
        crate::bounds::resolved_holds(before, false);
        crate::bounds::resolved_holds(before, true);
        crate::names::resolved_keeps_names(before);
    }
    loop
        invariant
            data.wf(),
            before.data.holds(before.resolved().data),
            before.deaths_pending(false) ==> before.resolved().data.entities.dead_when_spent(false),
            before.deaths_pending(true) ==> before.resolved().data.entities.dead_when_spent(true),
            before.data.entities.keeps_names(before.resolved().data.entities),
            before.data.entities.one_player() ==> before.resolved().data.entities.one_player(),
            before == (WorldView {
                data: old(data)@,
                settings: *old(settings),
                log: old(msg_log)@,
            }),
            (WorldView { data: data@, settings: *settings, log: msg_log@ }).resolved()
                == before.resolved(),
            (WorldView { data: data@, settings: *settings, log: msg_log@ }).resolves()
                == before.resolves(),
        decreases queue_weight(msg_log@.messages),
    {
        let ghost now = WorldView { data: data@, settings: *settings, log: msg_log@ };
        match msg_log.pop() {
            None => {
                return Ok(());
            },
            Some(msg) => {
                let out = handle_msg(data, settings, msg);
                let ghost eff = on_msg(now.data, now.settings, msg);
                msg_log.absorb(&out);
                proof {
                    assert(msg_log@ == eff.logged(now.log.popped()));
                    stepped_weighs_less(now);
                }
                if out.violation {
                    return Err(GameError::InvariantViolation);
                }
            },
        }
    }
}

} // verus!
