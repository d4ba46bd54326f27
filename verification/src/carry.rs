//! What a turn leaves of the things that are carried: while no message
//! takes an item up, puts one down or uses one, the inventories stay as
//! they are.

use crate::action::Action;
use crate::data::DataView;
use crate::effect::queue_weight;
use crate::entities::{index_of_from, without_id, EntitiesView};
use crate::frost::effect_sends_no_intent;
use crate::messaging::{Msg, MsgLogView};
use crate::moving::{can_drop, can_pick_up, inventory_with};
use crate::object::EntityName;
use crate::order::{
    pass_one_keeps, pass_three_keeps, pass_two_keeps, settle_keeps, with_action_keeps,
};
use crate::resolve::{on_msg, stepped_weighs_less, WorldView};
use crate::settings::{Config, GameSettings};
use crate::store::lookup;
use crate::turn::{
    act_one, ai_list, ai_turns, begin, deafened, due, exit_met, kept_house, lives, pass_one,
    pass_three, pass_two, plan_action, plan_one, replan_one, roll_at, swept, thawed, ticked,
    turn_of, whole_turn, Turn,
};
use crate::types::EntityId;
use vstd::prelude::*;

verus! {

/// Whether the intent is to take an item up, to put one down or to use
/// one.
pub open spec fn carrying(a: Action) -> bool {
    a is Pickup || a is DropItem || a is UseItem
}

/// Whether the message takes an item up, puts one down or uses one, or
/// is the intent to.
pub open spec fn carries(m: Msg) -> bool {
    m is PickedUp || m is DropItem || m is ItemThrow || m is HammerSwing || (m is Action
        && carrying(m->Action_1))
}

/// Whether no message of the queue takes an item up, puts one down or
/// uses one.
pub open spec fn none_carries(q: Seq<Msg>) -> bool {
    forall|k: int| 0 <= k < q.len() ==> !carries(#[trigger] q[k])
}

/// Whether the store `b` has of the things that are carried what the
/// store `a` has: the same inventories, items and names; the entity `p`
/// stands somewhere if it stood somewhere; and the entity `i` does not
/// block movement if it did not.
pub open spec fn same_hold(a: EntitiesView, b: EntitiesView, p: EntityId, i: EntityId) -> bool {
    &&& b.inventory == a.inventory
    &&& b.item == a.item
    &&& b.name == a.name
    &&& lookup(a.pos, p as int) is Some ==> lookup(b.pos, p as int) is Some
    &&& lookup(a.blocks, i as int) != Some(true) ==> lookup(b.blocks, i as int) != Some(true)
}

proof fn hold_by_move(d: DataView, s: GameSettings, msg: Msg, p: EntityId, i: EntityId)
    requires
        d.entities.wf(),
        msg is Moved,
    ensures
        same_hold(d.entities, on_msg(d, s, msg).data.entities, p, i),
        on_msg(d, s, msg).data.entities.action == d.entities.action,
        none_carries(on_msg(d, s, msg).front),
        none_carries(on_msg(d, s, msg).back),
{
    reveal(on_msg);
    effect_sends_no_intent(d, s, msg);
}

proof fn hold_by_death(d: DataView, s: GameSettings, msg: Msg, p: EntityId, i: EntityId)
    requires
        d.entities.wf(),
        msg is Killed || msg is Crushed,
    ensures
        same_hold(d.entities, on_msg(d, s, msg).data.entities, p, i),
        on_msg(d, s, msg).data.entities.action == d.entities.action,
        none_carries(on_msg(d, s, msg).front),
        none_carries(on_msg(d, s, msg).back),
{
    reveal(on_msg);
    effect_sends_no_intent(d, s, msg);
    if msg is Crushed {
        crate::entities::blocker_from_finds(d.entities, msg->Crushed_1, Some(msg->Crushed_0), 0);
    }
}

proof fn hold_by_blow(d: DataView, s: GameSettings, msg: Msg, p: EntityId, i: EntityId)
    requires
        d.entities.wf(),
        msg is Attack || msg is HammerHitWall || msg is HammerHitEntity,
    ensures
        same_hold(d.entities, on_msg(d, s, msg).data.entities, p, i),
        on_msg(d, s, msg).data.entities.action == d.entities.action,
        none_carries(on_msg(d, s, msg).front),
        none_carries(on_msg(d, s, msg).back),
{
    reveal(on_msg);
    effect_sends_no_intent(d, s, msg);
}

proof fn hold_by_intent(d: DataView, s: GameSettings, msg: Msg, p: EntityId, i: EntityId)
    requires
        d.entities.wf(),
        msg is Action,
        !carrying(msg->Action_1),
    ensures
        same_hold(d.entities, on_msg(d, s, msg).data.entities, p, i),
        on_msg(d, s, msg).data.entities.action == d.entities.action,
        none_carries(on_msg(d, s, msg).front),
        none_carries(on_msg(d, s, msg).back),
{
    reveal(on_msg);
    effect_sends_no_intent(d, s, msg);
    crate::invariants::action_sends_back(d, s, msg->Action_0, msg->Action_1);
}

proof fn hold_by_rest(d: DataView, s: GameSettings, msg: Msg, p: EntityId, i: EntityId)
    requires
        d.entities.wf(),
        !carries(msg),
        !(msg is Moved || msg is Killed || msg is Crushed || msg is Attack || msg is HammerHitWall
            || msg is HammerHitEntity || msg is Action),
    ensures
        same_hold(d.entities, on_msg(d, s, msg).data.entities, p, i),
        on_msg(d, s, msg).data.entities.action == d.entities.action,
        none_carries(on_msg(d, s, msg).front),
        none_carries(on_msg(d, s, msg).back),
{
    reveal(on_msg);
    effect_sends_no_intent(d, s, msg);
}

/// A message that neither takes an item up, nor puts one down, nor uses
/// one leaves the inventories as they are, and sends no message out that
/// does.
pub proof fn effect_keeps_hold(d: DataView, s: GameSettings, msg: Msg, p: EntityId, i: EntityId)
    requires
        d.entities.wf(),
        !carries(msg),
    ensures
        same_hold(d.entities, on_msg(d, s, msg).data.entities, p, i),
        on_msg(d, s, msg).data.entities.action == d.entities.action,
        none_carries(on_msg(d, s, msg).front),
        none_carries(on_msg(d, s, msg).back),
{
    if msg is Moved {
        hold_by_move(d, s, msg, p, i);
    } else if msg is Killed || msg is Crushed {
        hold_by_death(d, s, msg, p, i);
    } else if msg is Attack || msg is HammerHitWall || msg is HammerHitEntity {
        hold_by_blow(d, s, msg, p, i);
    } else if msg is Action {
        hold_by_intent(d, s, msg, p, i);
    } else {
        hold_by_rest(d, s, msg, p, i);
    }
}

/// Resolving a queue in which no message takes an item up, puts one down
/// or uses one leaves the inventories as they are, and the queue such a
/// queue.
pub proof fn resolved_keeps_hold(w: WorldView, p: EntityId, i: EntityId)
    requires
        w.data.entities.wf(),
        none_carries(w.log.messages),
    ensures
        same_hold(w.data.entities, w.resolved().data.entities, p, i),
        w.resolved().data.entities.action == w.data.entities.action,
        none_carries(w.resolved().log.messages),
    decreases queue_weight(w.log.messages),
{
    if w.log.messages.len() > 0 {
        let msg = w.log.messages[0];
        let eff = on_msg(w.data, w.settings, msg);
        effect_keeps_hold(w.data, w.settings, msg, p, i);
        crate::invariants::stepped_keeps(w, true);
        let next = w.stepped();
        let rest = w.log.messages.drop_first();
        assert forall|k: int| 0 <= k < next.log.messages.len() implies !carries(
            #[trigger] next.log.messages[k],
        ) by {
            if k < eff.front.len() {
                assert(next.log.messages[k] == eff.front[k]);
            } else if k < eff.front.len() + rest.len() {
                assert(next.log.messages[k] == w.log.messages[k - eff.front.len() + 1]);
            } else {
                assert(next.log.messages[k] == eff.back[k - eff.front.len() - rest.len()]);
            }
        }
        if !w.head_violates() {
            stepped_weighs_less(w);
            resolved_keeps_hold(next, p, i);
        }
    }
}

/// A message that neither takes an item up, nor puts one down, nor uses
/// one, logged to such a queue and resolved, leaves the inventories as
/// they are.
pub proof fn settle_keeps_hold(w: WorldView, msg: Msg, p: EntityId, i: EntityId)
    requires
        w.data.entities.wf(),
        none_carries(w.log.messages),
        !carries(msg),
    ensures
        same_hold(w.data.entities, w.logged(msg).settle().world.data.entities, p, i),
        w.logged(msg).settle().world.data.entities.action == w.data.entities.action,
        none_carries(w.logged(msg).settle().world.log.messages),
{
    let told = w.logged(msg);
    assert forall|k: int| 0 <= k < told.log.messages.len() implies !carries(
        #[trigger] told.log.messages[k],
    ) by {
        if k < w.log.messages.len() {
            assert(told.log.messages[k] == w.log.messages[k]);
        }
    }
    resolved_keeps_hold(told, p, i);
}

/// Whether none of the actions noted for the first `k` of the entities
/// `ais` is to take an item up, to put one down or to use one.
pub open spec fn plans_carry_nothing(v: EntitiesView, ais: Seq<EntityId>, k: int) -> bool {
    forall|j: int|
        0 <= j < k && j < ais.len() ==> (lookup(v.action, #[trigger] ais[j] as int) matches Some(a)
            ==> !carrying(a))
}

/// The first pass for one entity leaves the inventories as they are. No
/// entity plans to take an item up, to put one down or to use one.
pub proof fn plan_one_keeps_hold(
    t: Turn,
    config: Config,
    id: EntityId,
    first: usize,
    second: usize,
    p: EntityId,
    i: EntityId,
)
    requires
        t.world.data.entities.wf(),
        none_carries(t.world.log.messages),
    ensures
        plan_one(t, config, id, first, second).ok ==> t.ok,
        same_hold(
            t.world.data.entities,
            plan_one(t, config, id, first, second).world.data.entities,
            p,
            i,
        ),
        none_carries(plan_one(t, config, id, first, second).world.log.messages),
        forall|other: int|
            other != id ==> lookup(
                plan_one(t, config, id, first, second).world.data.entities.action,
                other,
            ) == lookup(t.world.data.entities.action, other),
        plan_one(t, config, id, first, second).ok ==> (lookup(
            plan_one(t, config, id, first, second).world.data.entities.action,
            id as int,
        ) matches Some(a) ==> !carrying(a)),
{
    if t.ok {
        let action = plan_action(t.world, config, id, first);
        let noted = t.world.with_action(id, action);
        with_action_keeps(t.world, id, action, true);
        if action is StateChange {
            settle_keeps_hold(noted, Msg::Action(id, action), p, i);
            settle_keeps(noted, Msg::Action(id, action), true);
        }
    }
}

/// The first pass leaves the inventories as they are, and notes for no
/// entity that it takes an item up, puts one down or uses one.
pub proof fn pass_one_keeps_hold(
    t: Turn,
    config: Config,
    ais: Seq<EntityId>,
    rolls: Seq<usize>,
    k: int,
    p: EntityId,
    i: EntityId,
)
    requires
        t.world.data.entities.wf(),
        none_carries(t.world.log.messages),
        k <= ais.len(),
    ensures
        pass_one(t, config, ais, rolls, k).ok ==> t.ok,
        same_hold(t.world.data.entities, pass_one(t, config, ais, rolls, k).world.data.entities, p, i),
        none_carries(pass_one(t, config, ais, rolls, k).world.log.messages),
        pass_one(t, config, ais, rolls, k).ok ==> plans_carry_nothing(
            pass_one(t, config, ais, rolls, k).world.data.entities,
            ais,
            k,
        ),
    decreases k,
{
    if k > 0 {
        pass_one_keeps_hold(t, config, ais, rolls, k - 1, p, i);
        pass_one_keeps(t, config, ais, rolls, k - 1, true);
        let before = pass_one(t, config, ais, rolls, k - 1);
        plan_one_keeps_hold(
            before,
            config,
            ais[k - 1],
            roll_at(rolls, k - 1),
            roll_at(rolls, ais.len() + k - 1),
            p,
            i,
        );
        let after = pass_one(t, config, ais, rolls, k);
        if after.ok {
            assert forall|j: int| 0 <= j < k && j < ais.len() implies (lookup(
                after.world.data.entities.action,
                #[trigger] ais[j] as int,
            ) matches Some(a) ==> !carrying(a)) by {
                if ais[j] != ais[k - 1] {
                    assert(lookup(after.world.data.entities.action, ais[j] as int) == lookup(
                        before.world.data.entities.action,
                        ais[j] as int,
                    ));
                }
            }
        }
    }
}

/// The second pass for one entity that has planned leaves the
/// inventories as they are.
pub proof fn act_one_keeps_hold(t: Turn, id: EntityId, p: EntityId, i: EntityId)
    requires
        t.world.data.entities.wf(),
        none_carries(t.world.log.messages),
        lookup(t.world.data.entities.action, id as int) matches Some(a) ==> !carrying(a),
    ensures
        act_one(t, id).ok ==> t.ok,
        same_hold(t.world.data.entities, act_one(t, id).world.data.entities, p, i),
        act_one(t, id).world.data.entities.action == t.world.data.entities.action,
        none_carries(act_one(t, id).world.log.messages),
{
    if t.ok && lookup(t.world.data.entities.action, id as int) is Some {
        let action = t.world.data.entities.action[id as int]->0;
        settle_keeps_hold(t.world, Msg::Action(id, action), p, i);
        settle_keeps(t.world, Msg::Action(id, action), true);
    }
}

/// The second pass for entities that have planned leaves the inventories
/// as they are.
pub proof fn pass_two_keeps_hold(t: Turn, ais: Seq<EntityId>, k: int, p: EntityId, i: EntityId)
    requires
        t.world.data.entities.wf(),
        none_carries(t.world.log.messages),
        k <= ais.len(),
        t.ok ==> plans_carry_nothing(t.world.data.entities, ais, k),
    ensures
        pass_two(t, ais, k).ok ==> t.ok,
        same_hold(t.world.data.entities, pass_two(t, ais, k).world.data.entities, p, i),
        t.ok ==> pass_two(t, ais, k).world.data.entities.action == t.world.data.entities.action,
        none_carries(pass_two(t, ais, k).world.log.messages),
    decreases k,
{
    if k > 0 {
        pass_two_keeps_hold(t, ais, k - 1, p, i);
        pass_two_keeps(t, ais, k - 1, true);
        let before = pass_two(t, ais, k - 1);
        if t.ok {
            assert(lookup(t.world.data.entities.action, ais[k - 1] as int) matches Some(a)
                ==> !carrying(a));
            act_one_keeps_hold(before, ais[k - 1], p, i);
        }
    }
}

/// The last pass for one entity leaves the inventories as they are.
pub proof fn replan_one_keeps_hold(
    t: Turn,
    config: Config,
    id: EntityId,
    roll: usize,
    p: EntityId,
    i: EntityId,
)
    requires
        t.world.data.entities.wf(),
        none_carries(t.world.log.messages),
    ensures
        replan_one(t, config, id, roll).ok ==> t.ok,
        same_hold(t.world.data.entities, replan_one(t, config, id, roll).world.data.entities, p, i),
        none_carries(replan_one(t, config, id, roll).world.log.messages),
{
    if t.ok {
        let quiet = deafened(t.world, id);
        if id < t.world.data.entities.messages.len() {
            crate::order::frame_keeps(t.world.data, quiet.data.entities, true);
        }
        let action = plan_action(quiet, config, id, roll);
        if action is StateChange {
            with_action_keeps(quiet, id, action, true);
            settle_keeps_hold(quiet.with_action(id, action), Msg::Action(id, action), p, i);
        }
    }
}

/// The last pass leaves the inventories as they are.
pub proof fn pass_three_keeps_hold(
    t: Turn,
    config: Config,
    ais: Seq<EntityId>,
    rolls: Seq<usize>,
    k: int,
    p: EntityId,
    i: EntityId,
)
    requires
        t.world.data.entities.wf(),
        none_carries(t.world.log.messages),
        k <= ais.len(),
    ensures
        pass_three(t, config, ais, rolls, k).ok ==> t.ok,
        same_hold(
            t.world.data.entities,
            pass_three(t, config, ais, rolls, k).world.data.entities,
            p,
            i,
        ),
        none_carries(pass_three(t, config, ais, rolls, k).world.log.messages),
    decreases k,
{
    if k > 0 {
        pass_three_keeps_hold(t, config, ais, rolls, k - 1, p, i);
        pass_three_keeps(t, config, ais, rolls, k - 1, true);
        replan_one_keeps_hold(
            pass_three(t, config, ais, rolls, k - 1),
            config,
            ais[k - 1],
            roll_at(rolls, 2 * ais.len() + k - 1),
            p,
            i,
        );
    }
}

/// The turns of the entities that plan leave the inventories as they
/// are: no entity but the player takes an item up, puts one down or
/// uses one.
pub proof fn ai_turns_keep_hold(t: Turn, config: Config, rolls: Seq<usize>, p: EntityId, i: EntityId)
    requires
        t.world.data.entities.wf(),
        none_carries(t.world.log.messages),
    ensures
        ai_turns(t, config, rolls).ok ==> t.ok,
        same_hold(t.world.data.entities, ai_turns(t, config, rolls).world.data.entities, p, i),
        none_carries(ai_turns(t, config, rolls).world.log.messages),
{
    let ais = ai_list(t.world.data.entities);
    let n = ais.len() as int;
    pass_one_keeps_hold(t, config, ais, rolls, n, p, i);
    pass_one_keeps(t, config, ais, rolls, n, true);
    let one = pass_one(t, config, ais, rolls, n);
    pass_two_keeps_hold(one, ais, n, p, i);
    pass_two_keeps(one, ais, n, true);
    let two = pass_two(one, ais, n);
    pass_three_keeps_hold(two, config, ais, rolls, n, p, i);
}

/// What is left of an entity once the entities below `k` that are due
/// in `at` are removed from the store `v`: nothing if it is one of them,
/// and else what it had.
pub proof fn swept_hold(v: EntitiesView, at: EntitiesView, k: int, x: int)
    requires
        k <= usize::MAX,
    ensures
        ({
            let after = swept(v, at, k);
            let gone = 0 <= x < k && due(at, x);
            &&& lookup(after.inventory, x) == if gone { None } else { lookup(v.inventory, x) }
            &&& lookup(after.item, x) == if gone { None } else { lookup(v.item, x) }
            &&& lookup(after.name, x) == if gone { None } else { lookup(v.name, x) }
            &&& lookup(after.pos, x) == if gone { None } else { lookup(v.pos, x) }
            &&& lookup(after.blocks, x) == if gone { None } else { lookup(v.blocks, x) }
        }),
    decreases k,
{
    if k > 0 {
        swept_hold(v, at, k - 1, x);
    }
}

/// Once the player has acted and the messages are resolved, the rest of
/// the turn leaves of the things that are carried what there is: an
/// entity that is still named afterwards has the inventory that it had
/// and stands somewhere if it stood somewhere; and an item that is still
/// one afterwards is what it was and does not block movement if it did
/// not.
pub proof fn rest_of_turn_keeps_hold(
    w: WorldView,
    config: Config,
    action: Action,
    rolls: Seq<usize>,
    player: EntityId,
    p: EntityId,
    i: EntityId,
)
    requires
        w.data.entities.wf(),
        w.data.entities.find_by_name(EntityName::Player) == Some(player),
        begin(w, player, action).world.log.messages.len() == 0,
        turn_of(w, config, action, rolls).ok,
    ensures
        ({
            let b = begin(w, player, action).world.data.entities;
            let t = turn_of(w, config, action, rolls).world.data.entities;
            &&& lookup(t.name, p as int) is Some ==> lookup(t.name, p as int) == lookup(
                b.name,
                p as int,
            ) && lookup(t.inventory, p as int) == lookup(b.inventory, p as int) && (lookup(
                b.pos,
                p as int,
            ) is Some ==> lookup(t.pos, p as int) is Some)
            &&& lookup(t.item, i as int) is Some ==> lookup(t.item, i as int) == lookup(
                b.item,
                i as int,
            ) && (lookup(b.blocks, i as int) != Some(true) ==> lookup(t.blocks, i as int) != Some(
                true,
            ))
        }),
{
    let cleared = WorldView { log: MsgLogView::empty(), ..w };
    let noted = cleared.with_action(player, action);
    with_action_keeps(cleared, player, action, true);
    settle_keeps(noted, Msg::Action(player, action), true);
    let begun = begin(w, player, action);
    if !exit_met(begun.world.data) {
        ai_turns_keep_hold(begun, config, rolls, p, i);
        crate::order::ai_turns_keep(begun, config, rolls, true);
        let whole = whole_turn(begun.world, player, action);
        let others = if whole && lives(begun.world.data.entities, player) {
            ai_turns(begun, config, rolls)
        } else {
            begun
        };
        settle_keeps_hold(others.world, Msg::PlayerTurn(), p, i);
        settle_keeps(others.world, Msg::PlayerTurn(), true);
        let told = others.world.logged(Msg::PlayerTurn()).settle();
        let last = told.world.data.entities;
        let aged = EntitiesView {
            status: Seq::new(last.status.len(), |i: int| thawed(last.status[i])),
            count_down: Seq::new(last.count_down.len(), |i: int| ticked(last.count_down[i])),
            ..last
        };
        swept_hold(aged, last, last.pos.len() as int, p as int);
        swept_hold(aged, last, last.pos.len() as int, i as int);
        assert(turn_of(w, config, action, rolls).world.data.entities == kept_house(last));
    }
}

/// What the start of a turn in which the player picks up the item on its
/// tile leaves: the item is first in the inventory of the player if it
/// is a tool or the only item, and nothing else of the things that are
/// carried has changed.
pub proof fn picking_up_holds(w: WorldView, player: EntityId, item: EntityId)
    requires
        w.data.entities.wf(),
        lookup(w.data.entities.pos, player as int) matches Some(at) && w.data.entities.item_at(at)
            == Some(item),
        can_pick_up(w.data, player, item),
        lookup(w.data.entities.inventory, player as int) matches Some(inv) && (inv.len() == 0
            || (lookup(w.data.entities.item, item as int) matches Some(kind)
            && kind.is_tool_spec())),
    ensures
        ({
            let b = begin(w, player, Action::Pickup);
            let v = b.world.data.entities;
            let inv = w.data.entities.inventory[player as int]->0;
            &&& b.ok
            &&& b.world.log.messages.len() == 0
            &&& lookup(v.inventory, player as int) matches Some(held) && held.len() > 0 && held[0]
                == item && without_id(held, item) == inv
            &&& v.item == w.data.entities.item
            &&& v.name == w.data.entities.name
            &&& v.blocks == w.data.entities.blocks
            &&& lookup(v.pos, player as int) is Some
            &&& item < v.pos.len()
        }),
{
    let v0 = w.data.entities;
    let at = v0.pos[player as int]->0;
    let inv = v0.inventory[player as int]->0;
    let kind = v0.item[item as int]->0;
    let held = inventory_with(inv, item, kind.is_tool_spec());
    crate::laws::item_from_lies(v0, at, 0);
    crate::laws::picking_up_begins(w, player, item);
    let cleared = WorldView { log: MsgLogView::empty(), ..w };
    let noted = cleared.with_action(player, Action::Pickup);
    with_action_keeps(cleared, player, Action::Pickup, true);
    crate::invariants::resolved_keeps(noted.logged(Msg::Action(player, Action::Pickup)), true);
    let v1 = begin(w, player, Action::Pickup).world.data.entities;
    assert(v1.inventory[player as int] == Some(held));
    assert(held[0] == item);
    if kind.is_tool_spec() {
        assert(held.remove(0) =~= inv);
    } else {
        crate::laws::index_of_appended(inv, item, 0);
        assert(held.remove(inv.len() as int) =~= inv);
    }
}

/// The player picks up the item on its tile, the turn goes on to its
/// end, and the next action of the player is to drop the item, with an
/// inventory in which what is picked up comes first: a tool, or the only
/// item. Whatever the other entities did in the turn and whatever
/// numbers were drawn, if the turn ended in order and left the player and
/// the item in the world, then once the item is dropped the inventory of
/// the player is what it was before the item was picked up, and the item
/// lies where the player stands and is what it was.
pub proof fn pick_up_turn_then_drop(
    w: WorldView,
    config: Config,
    rolls: Seq<usize>,
    player: EntityId,
    item: EntityId,
)
    requires
        w.data.entities.wf(),
        w.data.entities.find_by_name(EntityName::Player) == Some(player),
        lookup(w.data.entities.pos, player as int) matches Some(at) && w.data.entities.item_at(at)
            == Some(item),
        can_pick_up(w.data, player, item),
        lookup(w.data.entities.inventory, player as int) matches Some(inv) && (inv.len() == 0
            || (lookup(w.data.entities.item, item as int) matches Some(kind)
            && kind.is_tool_spec())),
        turn_of(w, config, Action::Pickup, rolls).ok,
        ({
            let after = turn_of(w, config, Action::Pickup, rolls).world.data.entities;
            after.find_by_name(EntityName::Player) == Some(player) && lookup(
                after.item,
                item as int,
            ) is Some
        }),
    ensures
        ({
            let turned = turn_of(w, config, Action::Pickup, rolls).world;
            let dropped = begin(turned, player, Action::DropItem);
            let v = dropped.world.data.entities;
            &&& dropped.ok
            &&& lookup(v.inventory, player as int) == lookup(w.data.entities.inventory, player as int)
            &&& lookup(v.pos, player as int) is Some
            &&& lookup(v.pos, item as int) == lookup(v.pos, player as int)
            &&& lookup(v.item, item as int) == lookup(w.data.entities.item, item as int)
        }),
{
    picking_up_holds(w, player, item);
    rest_of_turn_keeps_hold(w, config, Action::Pickup, rolls, player, player, item);
    let turned = turn_of(w, config, Action::Pickup, rolls).world;
    let v2 = turned.data.entities;
    crate::order::turn_keeps(w, config, Action::Pickup, rolls);
    crate::handlers::find_name_in_range(v2, EntityName::Player, 0);
    let held = v2.inventory[player as int]->0;
    assert(lookup(v2.inventory, player as int) == Some(held));
    assert(held[0] == item);
    assert(index_of_from(held, item, 0) is Some);
    assert(can_drop(turned.data, player, item));
    crate::laws::dropping_begins(turned, player, item);
    let d3 = crate::act::rested(turned.with_action(player, Action::DropItem).data, player);
    assert(d3.entities.inventory == v2.inventory);
    assert(d3.entities.pos == v2.pos);
    assert(d3.entities.item == v2.item);
    assert(d3.entities.blocks == v2.blocks);
    assert(can_drop(d3, player, item));
}

/// The same with both turns taken to their end: a turn in which the
/// player picks up the item on its tile, and a turn in which the player
/// drops it again. Whatever the other entities did in the two turns and
/// whatever numbers were drawn, if both turns ended in order and the
/// first left the player and the item in the world, a player that is
/// still in the world after the second has the inventory that it had
/// before the item was picked up, and an item that is still in the world
/// is what it was.
pub proof fn pick_up_turn_then_drop_turn(
    w: WorldView,
    config: Config,
    first: Seq<usize>,
    second: Seq<usize>,
    player: EntityId,
    item: EntityId,
)
    requires
        w.data.entities.wf(),
        w.data.entities.find_by_name(EntityName::Player) == Some(player),
        lookup(w.data.entities.pos, player as int) matches Some(at) && w.data.entities.item_at(at)
            == Some(item),
        can_pick_up(w.data, player, item),
        lookup(w.data.entities.inventory, player as int) matches Some(inv) && (inv.len() == 0
            || (lookup(w.data.entities.item, item as int) matches Some(kind)
            && kind.is_tool_spec())),
        turn_of(w, config, Action::Pickup, first).ok,
        ({
            let after = turn_of(w, config, Action::Pickup, first).world.data.entities;
            after.find_by_name(EntityName::Player) == Some(player) && lookup(
                after.item,
                item as int,
            ) is Some
        }),
        turn_of(turn_of(w, config, Action::Pickup, first).world, config, Action::DropItem, second).ok,
    ensures
        ({
            let turned = turn_of(w, config, Action::Pickup, first).world;
            let v = turn_of(turned, config, Action::DropItem, second).world.data.entities;
            &&& lookup(v.name, player as int) is Some ==> lookup(v.inventory, player as int)
                == lookup(w.data.entities.inventory, player as int) && lookup(
                v.pos,
                player as int,
            ) is Some
            &&& lookup(v.item, item as int) is Some ==> lookup(v.item, item as int) == lookup(
                w.data.entities.item,
                item as int,
            )
        }),
{
    pick_up_turn_then_drop(w, config, first, player, item);
    let turned = turn_of(w, config, Action::Pickup, first).world;
    crate::order::turn_keeps(w, config, Action::Pickup, first);
    let cleared = WorldView { log: MsgLogView::empty(), ..turned };
    let noted = cleared.with_action(player, Action::DropItem);
    with_action_keeps(cleared, player, Action::DropItem, true);
    crate::invariants::resolved_keeps(noted.logged(Msg::Action(player, Action::DropItem)), true);
    rest_of_turn_keeps_hold(turned, config, Action::DropItem, second, player, player, item);
}

} // verus!
