//! What stays true of the world while messages take effect.

use crate::act::{on_action, rested};
use crate::action::Action;
use crate::data::DataView;
use crate::effect::{emit_weight, queue_weight, Effect};
use crate::entities::{blockers_apart_after_move, blocker_from_finds, EntitiesView};
use crate::hammer::{heard_upto_rest, on_hammer_hit_wall, on_hammer_swing, on_sound};
use crate::handlers::{
    find_name_in_range, on_attack, on_crushed, on_killed, on_move_mode, on_state_change,
};
use crate::messaging::Msg;
use crate::momentum::Movement;
use crate::moving::{
    can_drop, can_pick_up, cannot_enter, held_pos, landing, momentum_after_wf, on_drop_item,
    on_item_throw, on_moved, on_picked_up,
};
use crate::object::{EntityName, ObjType};
use crate::resolve::{on_msg, stepped_weighs_less, WorldView};
use crate::settings::GameSettings;
use crate::store::lookup;
use crate::types::{EntityId, Pos};
use vstd::prelude::*;

verus! {

/// A well-formed store that differs from another in neither the
/// positions, nor what blocks, nor the momenta keeps what the other has.
pub proof fn valid_frame(a: EntitiesView, b: EntitiesView)
    requires
        a.wf(),
        b.wf(),
        b.pos == a.pos,
        b.blocks == a.blocks,
        b.momentum == a.momentum,
    ensures
        a.keeps(b),
{
}

/// A move keeps what the store has.
pub proof fn moved_keeps_valid(d: DataView, s: GameSettings, id: EntityId, m: Movement, to: Pos)
    requires
        d.entities.wf(),
    ensures
        d.entities.keeps(on_moved(d, s, id, m, to).data.entities),
        on_moved(d, s, id, m, to).data.map == d.map,
{
    let v = d.entities;
    if lookup(v.pos, id as int) is Some && !cannot_enter(d, id, to) {
        let from = v.pos[id as int]->0;
        let after = on_moved(d, s, id, m, to).data.entities;
        if v.blockers_apart() {
            blockers_apart_after_move(v, id, to);
            let placed = EntitiesView { pos: v.pos.update(id as int, Some(to)), ..v };
            assert(after.pos == placed.pos && after.blocks == placed.blocks);
        }
        if v.momentum_bounded() && v.momentum[id as int] is Some {
            momentum_after_wf(v.momentum[id as int]->0, m, from, to);
        }
    }
}

/// Picking up, dropping and throwing an item keep what the store has.
pub proof fn items_keep_valid(d: DataView, s: GameSettings, ent: EntityId, item: EntityId)
    requires
        d.entities.wf(),
    ensures
        d.entities.keeps(on_picked_up(d, s, ent, item).data.entities),
        d.entities.keeps(on_drop_item(d, s, ent, item).data.entities),
        forall|start: Pos, end: Pos|
            d.entities.keeps((#[trigger] on_item_throw(d, s, ent, item, start, end)).data.entities),
        on_picked_up(d, s, ent, item).data.map == d.map,
        on_drop_item(d, s, ent, item).data.map == d.map,
        forall|start: Pos, end: Pos|
            (#[trigger] on_item_throw(d, s, ent, item, start, end)).data.map == d.map,
{
    let v = d.entities;
    if can_pick_up(d, ent, item) {
        let after = on_picked_up(d, s, ent, item).data.entities;
        if v.blockers_apart() {
            blockers_apart_after_move(v, item, held_pos());
            let placed = EntitiesView { pos: v.pos.update(item as int, Some(held_pos())), ..v };
            assert(after.pos == placed.pos && after.blocks == placed.blocks);
        }
    }
    if can_drop(d, ent, item) {
        let at = v.pos[ent as int]->0;
        let after = on_drop_item(d, s, ent, item).data.entities;
        if v.blockers_apart() {
            blockers_apart_after_move(v, item, at);
            let placed = EntitiesView { pos: v.pos.update(item as int, Some(at)), ..v };
            assert(after.pos == placed.pos && after.blocks == placed.blocks);
        }
        assert forall|start: Pos, end: Pos|
            d.entities.keeps(
                (#[trigger] on_item_throw(d, s, ent, item, start, end)).data.entities,
            ) by {
            let lands = landing(d, ent, start, end);
            let thrown = on_item_throw(d, s, ent, item, start, end).data.entities;
            if v.blockers_apart() {
                blockers_apart_after_move(v, item, lands);
                let put = EntitiesView { pos: v.pos.update(item as int, Some(lands)), ..v };
                assert(thrown.pos == put.pos && thrown.blocks == put.blocks);
            }
        }
    }
}

/// An entity that stops blocking leaves the others apart.
pub proof fn unblocked_keeps_apart(v: EntitiesView, w: EntitiesView, t: int)
    requires
        v.wf(),
        0 <= t < v.pos.len(),
        w.wf(),
        w.pos == v.pos,
        w.blocks == v.blocks.update(t, Some(false)),
        w.momentum == v.momentum,
    ensures
        v.keeps(w),
{
    if v.blockers_apart() {
        assert forall|a: int, b: int|
            #![trigger w.blocks[a], w.blocks[b]]
            0 <= a < w.pos.len() && 0 <= b < w.pos.len() && a != b && w.blocks[a] == Some(true)
                && w.blocks[b] == Some(true) && w.pos[a] is Some implies w.pos[a]
            != w.pos[b] by {
            assert(v.blocks[a] == Some(true) && v.blocks[b] == Some(true));
        }
    }
}

/// Death keeps what the store has.
pub proof fn deaths_keep_valid(d: DataView, s: GameSettings, target: EntityId)
    requires
        d.entities.wf(),
    ensures
        d.entities.keeps(on_killed(d, s, target).data.entities),
        on_killed(d, s, target).data.map == d.map,
        forall|by: EntityId, pos: Pos, kind: ObjType|
            d.entities.keeps((#[trigger] on_crushed(d, s, by, pos, kind)).data.entities),
{
    let v = d.entities;
    if target < v.pos.len() {
        unblocked_keeps_apart(v, on_killed(d, s, target).data.entities, target as int);
    }
    assert forall|by: EntityId, pos: Pos, kind: ObjType|
        d.entities.keeps((#[trigger] on_crushed(d, s, by, pos, kind)).data.entities) by {
        blocker_from_finds(v, pos, Some(by), 0);
        if v.blocker_at(pos, Some(by)) is Some {
            unblocked_keeps_apart(
                v,
                on_crushed(d, s, by, pos, kind).data.entities,
                v.blocker_at(pos, Some(by))->0 as int,
            );
        }
    }
}

/// A removed entity leaves the store with what it has.
pub proof fn removed_keeps_valid(v: EntitiesView, id: EntityId)
    requires
        v.wf(),
    ensures
        v.keeps(v.removed(id)),
{
    let w = v.removed(id);
    crate::entities::removed_keeps_wf(v, id);
    if v.blockers_apart() {
        assert forall|a: int, b: int|
            #![trigger w.blocks[a], w.blocks[b]]
            0 <= a < w.pos.len() && 0 <= b < w.pos.len() && a != b && w.blocks[a] == Some(true)
                && w.blocks[b] == Some(true) && w.pos[a] is Some implies w.pos[a]
            != w.pos[b] by {
            assert(v.blocks[a] == Some(true) && v.blocks[b] == Some(true));
        }
    }
    if v.momentum_bounded() {
        assert forall|a: int| 0 <= a < w.momentum.len() implies (#[trigger] w.momentum[a] matches Some(
            m,
        ) ==> m.wf()) by {
            if w.momentum[a] is Some {
                assert(v.momentum[a] == w.momentum[a]);
            }
        }
    }
}

/// A swing of the hammer keeps what the store has.
pub proof fn hammer_keeps_valid(d: DataView, s: GameSettings, ent: EntityId, pos: Pos)
    requires
        d.entities.wf(),
    ensures
        d.entities.keeps(on_hammer_swing(d, s, ent, pos).data.entities),
        on_hammer_swing(d, s, ent, pos).data.map == d.map,
        on_hammer_hit_wall(d, s, ent, pos).data.entities == d.entities,
{
    let v = d.entities;
    let eff = on_hammer_swing(d, s, ent, pos);
    if eff.data.entities != v {
        let hammer = v.in_inventory(ent, crate::object::Item::Hammer)->0;
        let unheld = v.item_removed(ent, hammer);
        valid_frame(v, unheld);
        removed_keeps_valid(unheld, hammer);
        let used = d.with_entities(unheld.removed(hammer));
        let none = Effect::none(used, s);
        assert forall|a: Msg| #![trigger none.emit(a)] none.emit(a).data == used by {
            emit_weight(none, a);
        }
    }
}

/// A change of tempo keeps what the store has.
pub proof fn move_mode_keeps_valid(d: DataView, s: GameSettings, mode: crate::action::MoveMode)
    requires
        d.entities.wf(),
    ensures
        d.entities.keeps(on_move_mode(d, s, mode).data.entities),
        on_move_mode(d, s, mode).data.map == d.map,
{
    find_name_in_range(d.entities, EntityName::Player, 0);
    let w = on_move_mode(d, s, mode).data.entities;
    if d.entities.momentum_bounded() {
        assert forall|a: int| 0 <= a < w.momentum.len() implies (#[trigger] w.momentum[a] matches Some(
            m,
        ) ==> m.wf()) by {
            if d.entities.momentum[a] is Some {
                assert(d.entities.momentum[a]->0.wf());
            }
        }
    }
}

/// A sound keeps what the store has.
pub proof fn sound_keeps_valid(
    d: DataView,
    s: GameSettings,
    src: EntityId,
    pos: Pos,
    radius: usize,
    animate: bool,
)
    requires
        d.entities.wf(),
    ensures
        d.entities.keeps(on_sound(d, s, src, pos, radius, animate).data.entities),
        on_sound(d, s, src, pos, radius, animate).data.map == d.map,
{
    heard_upto_rest(
        d.entities,
        Msg::Sound(src, pos, radius, animate),
        src,
        pos,
        radius,
        d.entities.messages.len() as int,
    );
}

/// An intent keeps what the store has.
pub proof fn action_keeps_valid(d: DataView, s: GameSettings, id: EntityId, action: Action)
    requires
        d.entities.wf(),
    ensures
        d.entities.keeps(on_action(d, s, id, action).data.entities),
        on_action(d, s, id, action).data.map == d.map,
{
    let r = rested(d, id);
    assert(r.entities.wf());
    if d.entities.momentum_bounded() {
        assert forall|a: int| 0 <= a < r.entities.momentum.len() implies (
        #[trigger] r.entities.momentum[a] matches Some(m) ==> m.wf()) by {
            if d.entities.momentum[a] is Some {
                assert(d.entities.momentum[a]->0.wf());
            }
        }
    }
    assert(d.entities.blockers_apart() ==> r.entities.blockers_apart());
    let eff = on_action(d, s, id, action);
    assert(crate::act::on_intent(d, s, id, action).data == d);
    assert(eff.data == d || eff.data == r);
}

/// Whatever message takes effect, the store keeps what it has: it stays
/// well formed; if no two entities that block movement stood on one tile,
/// none do afterwards; and if every momentum was within its limit, every
/// one is afterwards.
pub proof fn effect_keeps_valid(d: DataView, s: GameSettings, msg: Msg)
    requires
        d.entities.wf(),
    ensures
        d.entities.keeps(on_msg(d, s, msg).data.entities),
{
    reveal(on_msg);
    match msg {
        Msg::Action(id, action) => {
            action_keeps_valid(d, s, id, action);
        },
        Msg::Moved(id, movement, to) => {
            moved_keeps_valid(d, s, id, movement, to);
        },
        Msg::Attack(attacker, target, hp) => {
            let eff = on_attack(d, s, attacker, target, hp);
            if eff.data.entities != d.entities {
                valid_frame(d.entities, eff.data.entities);
            }
        },
        Msg::Killed(_, target, _) => {
            deaths_keep_valid(d, s, target);
        },
        Msg::Crushed(by, pos, kind) => {
            deaths_keep_valid(d, s, by);
        },
        Msg::PickedUp(ent, item) => {
            items_keep_valid(d, s, ent, item);
        },
        Msg::DropItem(ent, item) => {
            items_keep_valid(d, s, ent, item);
        },
        Msg::ItemThrow(thrower, item, start, end) => {
            items_keep_valid(d, s, thrower, item);
        },
        Msg::StateChange(ent, behavior) => {
            let eff = on_state_change(d, s, ent, behavior);
            if eff.data.entities != d.entities {
                valid_frame(d.entities, eff.data.entities);
            }
        },
        Msg::Sound(src, pos, radius, animate) => {
            sound_keeps_valid(d, s, src, pos, radius, animate);
        },
        Msg::MoveMode(mode) => {
            move_mode_keeps_valid(d, s, mode);
        },
        Msg::HammerSwing(ent, pos) => {
            hammer_keeps_valid(d, s, ent, pos);
        },
        Msg::HammerHitWall(ent, pos) => {
            hammer_keeps_valid(d, s, ent, pos);
        },
        _ => {},
    }
}

/// Whether the message is the death of the entity `id`.
pub open spec fn kills(msg: Msg, id: int) -> bool {
    msg matches Msg::Killed(_, t, _) && t == id
}

/// What [`effect_spends`] states of the message `msg`.
pub open spec fn spends_rightly(d: DataView, s: GameSettings, msg: Msg, blocking: bool) -> bool {
    let eff = on_msg(d, s, msg);
    &&& forall|id: int|
        0 <= id < eff.data.entities.fighter.len() && #[trigger] eff.data.entities.spent(id, blocking) ==> (
        d.entities.spent(id, blocking) && !kills(msg, id)) || (eff.front.len() > 0 && kills(
            eff.front[0],
            id,
        ))
    &&& !(msg is Attack) ==> eff.front.len() == 0
}

proof fn spends_by_action(d: DataView, s: GameSettings, msg: Msg, blocking: bool)
    requires
        d.entities.wf(),
        msg is Action,
    ensures
        spends_rightly(d, s, msg, blocking),
{
    reveal(on_msg);
    let eff = on_msg(d, s, msg);
    let v = d.entities;
    let w = eff.data.entities;
    action_sends_back(d, s, msg->Action_0, msg->Action_1);
    assert forall|a: int| w.spent(a, blocking) implies v.spent(a, blocking) by {}
}

proof fn spends_by_blow(d: DataView, s: GameSettings, msg: Msg, blocking: bool)
    requires
        d.entities.wf(),
        msg is Attack || msg is Killed || msg is Crushed,
    ensures
        spends_rightly(d, s, msg, blocking),
{
    reveal(on_msg);
    let eff = on_msg(d, s, msg);
    let v = d.entities;
    let w = eff.data.entities;
    match msg {
        Msg::Attack(attacker, target, hp) => {
            assert forall|a: int| a != target && w.spent(a, blocking) implies v.spent(a, blocking) by {}
        },
        Msg::Killed(_, target, _) => {
            assert forall|a: int| a != target && w.spent(a, blocking) implies v.spent(a, blocking) by {}
        },
        Msg::Crushed(by, pos, kind) => {
            blocker_from_finds(v, pos, Some(by), 0);
            assert forall|a: int| w.spent(a, blocking) implies v.spent(a, blocking) by {}
        },
        _ => {},
    }
}

proof fn spends_by_hammer(d: DataView, s: GameSettings, msg: Msg, blocking: bool)
    requires
        d.entities.wf(),
        msg is HammerSwing || msg is HammerHitWall || msg is HammerHitEntity,
    ensures
        spends_rightly(d, s, msg, blocking),
{
    reveal(on_msg);
    let eff = on_msg(d, s, msg);
    let v = d.entities;
    let w = eff.data.entities;
    match msg {
        Msg::HammerSwing(ent, pos) => {
            hammer_keeps_fronts(d, s, ent, pos);
            assert forall|a: int| w.spent(a, blocking) implies v.spent(a, blocking) by {}
        },
        _ => {
            assert(w == v);
        },
    }
}

proof fn spends_by_placing(d: DataView, s: GameSettings, msg: Msg, blocking: bool)
    requires
        d.entities.wf(),
        msg is Moved || msg is PickedUp || msg is DropItem || msg is ItemThrow,
    ensures
        spends_rightly(d, s, msg, blocking),
{
    reveal(on_msg);
    let eff = on_msg(d, s, msg);
    let v = d.entities;
    let w = eff.data.entities;
    assert(w.fighter == v.fighter && w.status == v.status && w.blocks == v.blocks);
    assert forall|a: int| w.spent(a, blocking) implies v.spent(a, blocking) by {}
}

proof fn spends_by_rest(d: DataView, s: GameSettings, msg: Msg, blocking: bool)
    requires
        d.entities.wf(),
        !(msg is Action || msg is Attack || msg is Killed || msg is Crushed || msg is HammerSwing
            || msg is HammerHitWall || msg is HammerHitEntity || msg is Moved || msg is PickedUp
            || msg is DropItem || msg is ItemThrow),
    ensures
        spends_rightly(d, s, msg, blocking),
{
    reveal(on_msg);
    let eff = on_msg(d, s, msg);
    let v = d.entities;
    let w = eff.data.entities;
    assert(w.fighter == v.fighter && w.status == v.status && w.blocks == v.blocks);
    assert forall|a: int| w.spent(a, blocking) implies v.spent(a, blocking) by {}
}

/// After a message has taken effect, an entity without hit points that is
/// alive or blocks its tile was so before, unless its death now stands at
/// the head of what the effect sends out first. The message that is the
/// death of an entity leaves that entity neither alive nor blocking. No
/// message but an attack sends anything to the front of the queue.
pub proof fn effect_spends(d: DataView, s: GameSettings, msg: Msg, blocking: bool)
    requires
        d.entities.wf(),
    ensures
        spends_rightly(d, s, msg, blocking),
{
    if msg is Action {
        spends_by_action(d, s, msg, blocking);
    } else if msg is Attack || msg is Killed || msg is Crushed {
        spends_by_blow(d, s, msg, blocking);
    } else if msg is HammerSwing || msg is HammerHitWall || msg is HammerHitEntity {
        spends_by_hammer(d, s, msg, blocking);
    } else if msg is Moved || msg is PickedUp || msg is DropItem || msg is ItemThrow {
        spends_by_placing(d, s, msg, blocking);
    } else {
        spends_by_rest(d, s, msg, blocking);
    }
}

/// An intent sends nothing to the front of the queue, and changes
/// neither who fights, nor who is alive, nor what blocks.
pub proof fn action_sends_back(d: DataView, s: GameSettings, id: EntityId, action: Action)
    ensures
        on_action(d, s, id, action).front.len() == 0,
        on_action(d, s, id, action).data.entities.fighter == d.entities.fighter,
        on_action(d, s, id, action).data.entities.status == d.entities.status,
        on_action(d, s, id, action).data.entities.blocks == d.entities.blocks,
{
    let eff = on_action(d, s, id, action);
    assert(crate::act::on_intent(d, s, id, action).data == d);
    assert(eff.data == d || eff.data == rested(d, id));
}

/// A swing of the hammer sends nothing to the front of the queue.
pub proof fn hammer_keeps_fronts(d: DataView, s: GameSettings, ent: EntityId, pos: Pos)
    ensures
        on_hammer_swing(d, s, ent, pos).front.len() == 0,
{
}

impl WorldView {
    /// The store of the world is valid.
    pub open spec fn valid(self) -> bool {
        self.data.entities.valid()
    }

    /// Every entity that is alive without hit points has its death at the
    /// head of the queue.
    pub open spec fn deaths_pending(self, blocking: bool) -> bool {
        forall|id: int|
            0 <= id < self.data.entities.fighter.len() && #[trigger] self.data.entities.spent(id, blocking)
                ==> self.log.messages.len() > 0 && kills(self.log.messages[0], id)
    }
}

/// A message that names what cannot be changes nothing and sends nothing
/// out, and it is a move, not a death.
pub proof fn violation_changes_nothing(d: DataView, s: GameSettings, msg: Msg)
    ensures
        on_msg(d, s, msg).violation ==> {
            &&& on_msg(d, s, msg).data == d
            &&& on_msg(d, s, msg).front.len() == 0
            &&& msg is Moved
        },
{
    reveal(on_msg);
    if msg is Action {
        action_sends_back(d, s, msg->Action_0, msg->Action_1);
        action_never_violates(d, s, msg->Action_0, msg->Action_1);
    }
    if msg is HammerSwing {
        hammer_keeps_fronts(d, s, msg->HammerSwing_0, msg->HammerSwing_1);
    }
}

/// An intent never names what cannot be.
pub proof fn action_never_violates(d: DataView, s: GameSettings, id: EntityId, action: Action)
    ensures
        !on_action(d, s, id, action).violation,
{
}

/// One step of the resolver keeps what the store has, and every due death
/// at the head of the queue. A step that names what cannot be leaves no
/// entity without hit points alive or blocking, if every due death stood
/// at the head of the queue.
pub proof fn stepped_keeps(w: WorldView, blocking: bool)
    requires
        w.data.entities.wf(),
        w.log.messages.len() > 0,
    ensures
        w.data.entities.keeps(w.stepped().data.entities),
        w.deaths_pending(blocking) ==> w.stepped().deaths_pending(blocking),
        w.deaths_pending(blocking) && w.head_violates() ==> w.stepped().data.entities.dead_when_spent(blocking),
{
    let msg = w.log.messages[0];
    let eff = on_msg(w.data, w.settings, msg);
    effect_keeps_valid(w.data, w.settings, msg);
    effect_spends(w.data, w.settings, msg, blocking);
    violation_changes_nothing(w.data, w.settings, msg);
    let after = w.stepped();
    if w.deaths_pending(blocking) {
        assert forall|id: int|
            0 <= id < after.data.entities.fighter.len() && #[trigger] after.data.entities.spent(
                id,
                blocking,
            ) implies after.log.messages.len() > 0 && kills(after.log.messages[0], id) by {
            if w.data.entities.spent(id, blocking) && !kills(msg, id) {
                assert(kills(w.log.messages[0], id));
            }
            assert(after.log.messages[0] == eff.front[0]);
        }
        if w.head_violates() {
            assert forall|id: int|
                0 <= id < after.data.entities.fighter.len()
                implies !#[trigger] after.data.entities.spent(id, blocking) by {
                if w.data.entities.spent(id, blocking) {
                    assert(kills(w.log.messages[0], id));
                }
            }
        }
    }
}

/// Resolving the messages keeps what the store has: it stays well formed;
/// if no two entities that block movement stood on one tile, none do
/// afterwards; and if every momentum was within its limit, every one is
/// afterwards. Where the resolving comes to its end, the queue is empty.
/// If every entity without hit points that was alive or blocking had its
/// death at the head of the queue, afterwards no entity without hit
/// points is alive or blocks its tile, however the resolving ended.
pub proof fn resolved_keeps(w: WorldView, blocking: bool)
    requires
        w.data.entities.wf(),
    ensures
        w.data.entities.keeps(w.resolved().data.entities),
        w.resolves() ==> w.resolved().log.messages.len() == 0,
        w.deaths_pending(blocking) ==> w.resolved().data.entities.dead_when_spent(blocking),
    decreases queue_weight(w.log.messages),
{
    if w.log.messages.len() == 0 {
        if w.deaths_pending(blocking) {
            assert forall|id: int|
                0 <= id < w.data.entities.fighter.len() implies !#[trigger] w.data.entities.spent(id, blocking) by {}
        }
    } else {
        stepped_keeps(w, blocking);
        if !w.head_violates() {
            stepped_weighs_less(w);
            resolved_keeps(w.stepped(), blocking);
        }
    }
}

} // verus!
