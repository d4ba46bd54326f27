//! The intents of the entities that plan: an entity that plans in a turn
//! has its intent among the messages of the turn.

use crate::action::Action;
use crate::data::DataView;
use crate::effect::queue_weight;
use crate::entities::EntitiesView;
use crate::frost::{intent_of, planners_plan};
use crate::messaging::Msg;
use crate::object::EntityName;
use crate::order::{pass_one_keeps, pass_two_keeps, settle_keeps, with_action_keeps};
use crate::resolve::{on_msg, stepped_weighs_less, WorldView};
use crate::settings::{Config, GameSettings};
use crate::store::lookup;
use crate::turn::{
    act_one, ai_list, ai_turns, begin, deafened, exit_met, lives, pass_one, pass_three, pass_two,
    plan_action, plan_one, replan_one, roll_at, turn_of, whole_turn, Turn,
};
use crate::types::EntityId;
use vstd::prelude::*;

verus! {

/// Whether the entity `e` is no item.
pub open spec fn plain(v: EntitiesView, e: EntityId) -> bool {
    lookup(v.item, e as int) is None
}

/// Whether the entity `e` is no item and has an action noted.
pub open spec fn has_noted(v: EntitiesView, e: EntityId) -> bool {
    plain(v, e) && lookup(v.action, e as int) is Some
}

/// Whether the store `b` keeps what the store `a` has of the entity `e`:
/// that it is no item, and that it has an action noted. The store has as
/// many places as it had.
pub open spec fn keeps_note(a: EntitiesView, b: EntitiesView, e: EntityId) -> bool {
    &&& b.action.len() == a.action.len()
    &&& plain(a, e) ==> plain(b, e)
    &&& has_noted(a, e) ==> has_noted(b, e)
}

/// Whether a message of the queue is an intent of the entity `e`.
pub open spec fn has_intent(q: Seq<Msg>, e: EntityId) -> bool {
    exists|k: int| 0 <= k < q.len() && intent_of(#[trigger] q[k], e)
}

/// The first item of a kind from `j` on in an inventory is of that kind.
pub proof fn kind_from_finds(v: EntitiesView, inv: Seq<EntityId>, kind: crate::object::Item, j: int)
    requires
        0 <= j,
    ensures
        v.kind_from(inv, kind, j) matches Some(k) ==> j <= k < inv.len() && lookup(
            v.item,
            inv[k] as int,
        ) == Some(kind),
    decreases inv.len() - j,
{
    if j < inv.len() && lookup(v.item, inv[j] as int) != Some(kind) {
        kind_from_finds(v, inv, kind, j + 1);
    }
}

proof fn note_by_placing(d: DataView, s: GameSettings, msg: Msg, e: EntityId)
    requires
        d.entities.wf(),
        msg is Moved || msg is PickedUp || msg is DropItem || msg is ItemThrow,
    ensures
        keeps_note(d.entities, on_msg(d, s, msg).data.entities, e),
{
    reveal(on_msg);
}

proof fn note_by_death(d: DataView, s: GameSettings, msg: Msg, e: EntityId)
    requires
        d.entities.wf(),
        msg is Killed || msg is Crushed,
    ensures
        keeps_note(d.entities, on_msg(d, s, msg).data.entities, e),
{
    reveal(on_msg);
    let v = on_msg(d, s, msg).data.entities;
    if msg is Crushed {
        crate::entities::blocker_from_finds(d.entities, msg->Crushed_1, Some(msg->Crushed_0), 0);
    }
    assert(v.action == d.entities.action && v.item == d.entities.item);
}

proof fn note_by_blow(d: DataView, s: GameSettings, msg: Msg, e: EntityId)
    requires
        d.entities.wf(),
        msg is Attack || msg is HammerHitWall || msg is HammerHitEntity,
    ensures
        keeps_note(d.entities, on_msg(d, s, msg).data.entities, e),
{
    reveal(on_msg);
    let v = on_msg(d, s, msg).data.entities;
    assert(v.action == d.entities.action && v.item == d.entities.item);
}

proof fn note_by_hammer(d: DataView, s: GameSettings, msg: Msg, e: EntityId)
    requires
        d.entities.wf(),
        msg is HammerSwing,
    ensures
        keeps_note(d.entities, on_msg(d, s, msg).data.entities, e),
{
    reveal(on_msg);
    let ent = msg->HammerSwing_0;
    match lookup(d.entities.inventory, ent as int) {
        Some(inv) => {
            kind_from_finds(d.entities, inv, crate::object::Item::Hammer, 0);
        },
        None => {},
    }
}

proof fn note_by_rest(d: DataView, s: GameSettings, msg: Msg, e: EntityId)
    requires
        d.entities.wf(),
        !(msg is Moved || msg is PickedUp || msg is DropItem || msg is ItemThrow || msg is Killed
            || msg is Crushed || msg is Attack || msg is HammerHitWall || msg is HammerHitEntity
            || msg is HammerSwing),
    ensures
        keeps_note(d.entities, on_msg(d, s, msg).data.entities, e),
{
    reveal(on_msg);
    let v = on_msg(d, s, msg).data.entities;
    if msg is Action || msg is Sound {
        assert(v.action == d.entities.action && v.item == d.entities.item);
    }
}

/// Whatever message takes effect, an entity that is no item stays none,
/// and keeps the action that is noted for it.
pub proof fn effect_keeps_note(d: DataView, s: GameSettings, msg: Msg, e: EntityId)
    requires
        d.entities.wf(),
    ensures
        keeps_note(d.entities, on_msg(d, s, msg).data.entities, e),
{
    if msg is Moved || msg is PickedUp || msg is DropItem || msg is ItemThrow {
        note_by_placing(d, s, msg, e);
    } else if msg is Killed || msg is Crushed {
        note_by_death(d, s, msg, e);
    } else if msg is Attack || msg is HammerHitWall || msg is HammerHitEntity {
        note_by_blow(d, s, msg, e);
    } else if msg is HammerSwing {
        note_by_hammer(d, s, msg, e);
    } else {
        note_by_rest(d, s, msg, e);
    }
}

/// Resolving the messages keeps what is noted for an entity that is no
/// item, and every intent among the messages of the turn.
pub proof fn resolved_keeps_note(w: WorldView, e: EntityId)
    requires
        w.data.entities.wf(),
    ensures
        keeps_note(w.data.entities, w.resolved().data.entities, e),
        has_intent(w.log.turn_messages, e) ==> has_intent(w.resolved().log.turn_messages, e),
    decreases queue_weight(w.log.messages),
{
    if w.log.messages.len() > 0 {
        effect_keeps_note(w.data, w.settings, w.log.messages[0], e);
        crate::invariants::stepped_keeps(w, true);
        let eff = on_msg(w.data, w.settings, w.log.messages[0]);
        let next = w.stepped();
        if has_intent(w.log.turn_messages, e) {
            let k = choose|k: int|
                0 <= k < w.log.turn_messages.len() && intent_of(#[trigger] w.log.turn_messages[k], e);
            assert(next.log.turn_messages[eff.front.len() + k] == w.log.turn_messages[k]);
        }
        if !w.head_violates() {
            stepped_weighs_less(w);
            resolved_keeps_note(next, e);
        }
    }
}

/// A message logged and resolved keeps what is noted for an entity that
/// is no item, and every intent among the messages of the turn; an
/// intent that is logged is among them.
pub proof fn settle_keeps_note(w: WorldView, msg: Msg, e: EntityId)
    requires
        w.data.entities.wf(),
    ensures
        keeps_note(w.data.entities, w.logged(msg).settle().world.data.entities, e),
        has_intent(w.log.turn_messages, e) || intent_of(msg, e) ==> has_intent(
            w.logged(msg).settle().world.log.turn_messages,
            e,
        ),
{
    let told = w.logged(msg);
    if has_intent(w.log.turn_messages, e) {
        let k = choose|k: int|
            0 <= k < w.log.turn_messages.len() && intent_of(#[trigger] w.log.turn_messages[k], e);
        assert(told.log.turn_messages[k] == w.log.turn_messages[k]);
    } else if intent_of(msg, e) {
        assert(told.log.turn_messages[w.log.turn_messages.len() as int] == msg);
    }
    resolved_keeps_note(told, e);
}

/// The first pass for one entity keeps what is noted for an entity that
/// is no item, and every intent among the messages of the turn. The
/// entity that plans has an action noted, if it is no item.
pub proof fn plan_one_keeps_note(
    t: Turn,
    config: Config,
    id: EntityId,
    first: usize,
    second: usize,
    e: EntityId,
)
    requires
        t.world.data.entities.wf(),
    ensures
        plan_one(t, config, id, first, second).ok ==> t.ok,
        keeps_note(
            t.world.data.entities,
            plan_one(t, config, id, first, second).world.data.entities,
            e,
        ),
        has_intent(t.world.log.turn_messages, e) ==> has_intent(
            plan_one(t, config, id, first, second).world.log.turn_messages,
            e,
        ),
        plan_one(t, config, id, first, second).ok && id == e && plain(t.world.data.entities, e)
            && e < t.world.data.entities.action.len() ==> has_noted(
            plan_one(t, config, id, first, second).world.data.entities,
            e,
        ),
{
    if t.ok {
        let action = plan_action(t.world, config, id, first);
        let noted = t.world.with_action(id, action);
        with_action_keeps(t.world, id, action, true);
        if action is StateChange {
            settle_keeps_note(noted, Msg::Action(id, action), e);
            settle_keeps(noted, Msg::Action(id, action), true);
        }
    }
}

/// The first pass keeps what is noted for an entity that is no item, and
/// every intent among the messages of the turn. Each entity that has
/// planned has an action noted, if it is no item.
pub proof fn pass_one_keeps_note(
    t: Turn,
    config: Config,
    ais: Seq<EntityId>,
    rolls: Seq<usize>,
    k: int,
    e: EntityId,
)
    requires
        t.world.data.entities.wf(),
        k <= ais.len(),
    ensures
        pass_one(t, config, ais, rolls, k).ok ==> t.ok,
        keeps_note(t.world.data.entities, pass_one(t, config, ais, rolls, k).world.data.entities, e),
        has_intent(t.world.log.turn_messages, e) ==> has_intent(
            pass_one(t, config, ais, rolls, k).world.log.turn_messages,
            e,
        ),
        pass_one(t, config, ais, rolls, k).ok && plain(t.world.data.entities, e) && e
            < t.world.data.entities.action.len() && (exists|j: int| 0 <= j < k && ais[j] == e)
            ==> has_noted(
            pass_one(t, config, ais, rolls, k).world.data.entities,
            e,
        ),
    decreases k,
{
    if k > 0 {
        pass_one_keeps_note(t, config, ais, rolls, k - 1, e);
        pass_one_keeps(t, config, ais, rolls, k - 1, true);
        plan_one_keeps_note(
            pass_one(t, config, ais, rolls, k - 1),
            config,
            ais[k - 1],
            roll_at(rolls, k - 1),
            roll_at(rolls, ais.len() + k - 1),
            e,
        );
    }
}

/// The second pass for one entity keeps what is noted for an entity that
/// is no item, and every intent among the messages of the turn. The
/// intent of the entity that acts is among them, if an action is noted
/// for it.
pub proof fn act_one_keeps_note(t: Turn, id: EntityId, e: EntityId)
    requires
        t.world.data.entities.wf(),
    ensures
        act_one(t, id).ok ==> t.ok,
        keeps_note(t.world.data.entities, act_one(t, id).world.data.entities, e),
        has_intent(t.world.log.turn_messages, e) ==> has_intent(
            act_one(t, id).world.log.turn_messages,
            e,
        ),
        act_one(t, id).ok && id == e && has_noted(t.world.data.entities, e) ==> has_intent(
            act_one(t, id).world.log.turn_messages,
            e,
        ),
{
    if t.ok && lookup(t.world.data.entities.action, id as int) is Some {
        let action = t.world.data.entities.action[id as int]->0;
        settle_keeps_note(t.world, Msg::Action(id, action), e);
        settle_keeps(t.world, Msg::Action(id, action), true);
    }
}

/// The second pass keeps what is noted for an entity that is no item,
/// and every intent among the messages of the turn. The intent of each
/// entity that has acted is among them, if an action was noted for it.
pub proof fn pass_two_keeps_note(t: Turn, ais: Seq<EntityId>, k: int, e: EntityId)
    requires
        t.world.data.entities.wf(),
        k <= ais.len(),
    ensures
        pass_two(t, ais, k).ok ==> t.ok,
        keeps_note(t.world.data.entities, pass_two(t, ais, k).world.data.entities, e),
        has_intent(t.world.log.turn_messages, e) ==> has_intent(
            pass_two(t, ais, k).world.log.turn_messages,
            e,
        ),
        pass_two(t, ais, k).ok && has_noted(t.world.data.entities, e) && (exists|j: int|
            0 <= j < k && ais[j] == e) ==> has_intent(
            pass_two(t, ais, k).world.log.turn_messages,
            e,
        ),
    decreases k,
{
    if k > 0 {
        pass_two_keeps_note(t, ais, k - 1, e);
        pass_two_keeps(t, ais, k - 1, true);
        act_one_keeps_note(pass_two(t, ais, k - 1), ais[k - 1], e);
    }
}

/// The last pass for one entity keeps every intent among the messages of
/// the turn.
pub proof fn replan_one_keeps_intent(t: Turn, config: Config, id: EntityId, roll: usize, e: EntityId)
    requires
        t.world.data.entities.wf(),
    ensures
        replan_one(t, config, id, roll).ok ==> t.ok,
        has_intent(t.world.log.turn_messages, e) ==> has_intent(
            replan_one(t, config, id, roll).world.log.turn_messages,
            e,
        ),
{
    if t.ok {
        let quiet = deafened(t.world, id);
        if id < t.world.data.entities.messages.len() {
            crate::order::frame_keeps(t.world.data, quiet.data.entities, true);
        }
        let action = plan_action(quiet, config, id, roll);
        if action is StateChange {
            with_action_keeps(quiet, id, action, true);
            settle_keeps_note(quiet.with_action(id, action), Msg::Action(id, action), e);
        }
    }
}

/// The last pass keeps every intent among the messages of the turn.
pub proof fn pass_three_keeps_intent(
    t: Turn,
    config: Config,
    ais: Seq<EntityId>,
    rolls: Seq<usize>,
    k: int,
    e: EntityId,
)
    requires
        t.world.data.entities.wf(),
        k <= ais.len(),
    ensures
        pass_three(t, config, ais, rolls, k).ok ==> t.ok,
        has_intent(t.world.log.turn_messages, e) ==> has_intent(
            pass_three(t, config, ais, rolls, k).world.log.turn_messages,
            e,
        ),
    decreases k,
{
    if k > 0 {
        pass_three_keeps_intent(t, config, ais, rolls, k - 1, e);
        crate::order::pass_three_keeps(t, config, ais, rolls, k - 1, true);
        replan_one_keeps_intent(
            pass_three(t, config, ais, rolls, k - 1),
            config,
            ais[k - 1],
            roll_at(rolls, 2 * ais.len() + k - 1),
            e,
        );
    }
}

/// An entity that plans sends its intent: in a turn that ends in order,
/// in which the action of the player takes a whole turn, does not win
/// the level and leaves the player alive, each entity that is no item
/// and plans once the player has acted has an intent among the messages
/// of the turn.
pub proof fn planner_sends_intent(
    w: WorldView,
    config: Config,
    action: Action,
    rolls: Seq<usize>,
    e: EntityId,
)
    requires
        w.data.entities.wf(),
        turn_of(w, config, action, rolls).ok,
        lookup(w.data.entities.item, e as int) is None,
        w.data.entities.find_by_name(EntityName::Player) matches Some(player) && ({
            let begun = begin(w, player, action);
            &&& !exit_met(begun.world.data)
            &&& whole_turn(begun.world, player, action)
            &&& lives(begun.world.data.entities, player)
            &&& ai_list(begun.world.data.entities).contains(e)
        }),
    ensures
        has_intent(turn_of(w, config, action, rolls).world.log.turn_messages, e),
{
    let player = w.data.entities.find_by_name(EntityName::Player)->0;
    let cleared = WorldView { log: crate::messaging::MsgLogView::empty(), ..w };
    let noted = cleared.with_action(player, action);
    with_action_keeps(cleared, player, action, true);
    settle_keeps_note(noted, Msg::Action(player, action), e);
    settle_keeps(noted, Msg::Action(player, action), true);
    let begun = begin(w, player, action);
    let v = begun.world.data.entities;
    let ais = ai_list(v);
    let n = ais.len() as int;
    planners_plan(v, v.pos.len() as int);
    let j = choose|j: int| 0 <= j < ais.len() && ais[j] == e;
    assert(ais[j] < v.pos.len());
    assert(plain(v, e));
    let one = pass_one(begun, config, ais, rolls, n);
    let two = pass_two(one, ais, n);
    let three = pass_three(two, config, ais, rolls, n);
    assert(ai_turns(begun, config, rolls) == three);
    pass_one_keeps(begun, config, ais, rolls, n, true);
    pass_two_keeps(one, ais, n, true);
    pass_one_keeps_note(begun, config, ais, rolls, n, e);
    pass_two_keeps_note(one, ais, n, e);
    pass_three_keeps_intent(two, config, ais, rolls, n, e);
    assert(three.ok);
    assert(has_noted(one.world.data.entities, e));
    assert(has_intent(two.world.log.turn_messages, e));
    crate::order::pass_three_keeps(two, config, ais, rolls, n, true);
    settle_keeps_note(three.world, Msg::PlayerTurn(), e);
}

} // verus!
