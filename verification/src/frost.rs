//! For how long an entity is frozen: no message changes it, and each turn
//! that ends takes one turn off it. While it is frozen an entity does not
//! plan, and no intent of it is among the messages of the turn.

use crate::action::Action;
use crate::data::DataView;
use crate::effect::{msg_weight, queue_weight};
use crate::entities::EntitiesView;
use crate::messaging::{Msg, MsgLogView};
use crate::object::EntityName;
use crate::order::{
    pass_one_keeps, pass_three_keeps, pass_two_keeps, settle_keeps, with_action_keeps,
};
use crate::resolve::{on_msg, stepped_weighs_less, WorldView};
use crate::settings::{Config, GameSettings};
use crate::store::lookup;
use crate::turn::{
    act_one, ai_list, ai_turns, ai_upto, begin, deafened, due, exit_met, kept_house, lives,
    pass_one, pass_three, pass_two, plan_action, plan_one, plans, replan_one, roll_at, swept,
    thawed, ticked, turn_of, whole_turn, Turn,
};
use crate::types::EntityId;
use vstd::prelude::*;

verus! {

/// For how many turns the entity `i` is still frozen, if it has a status.
pub open spec fn frost(v: EntitiesView, i: int) -> Option<usize> {
    match lookup(v.status, i) {
        Some(s) => Some(s.frozen),
        None => None,
    }
}

/// The same one turn later: one turn less, and never less than none.
pub open spec fn thawed_frost(f: Option<usize>) -> Option<usize> {
    match f {
        Some(n) => Some(
            if n > 0 {
                (n - 1) as usize
            } else {
                0
            },
        ),
        None => None,
    }
}

impl EntitiesView {
    /// Whether every entity that has a status in `after` had one in this
    /// store and is frozen for as long as it was.
    pub open spec fn same_frost(self, after: EntitiesView) -> bool {
        forall|i: int| (#[trigger] frost(after, i)) is Some ==> frost(self, i) == frost(after, i)
    }
}

/// Every entity among those below `k` that plan does plan, and has an
/// id below `k`.
pub proof fn planners_plan(v: EntitiesView, k: int)
    requires
        k <= usize::MAX,
    ensures
        forall|j: int|
            0 <= j < ai_upto(v, k).len() ==> plans(v, #[trigger] ai_upto(v, k)[j] as int)
                && ai_upto(v, k)[j] < k,
    decreases k,
{
    if k > 0 {
        planners_plan(v, k - 1);
        let before = ai_upto(v, k - 1);
        assert forall|j: int| 0 <= j < ai_upto(v, k).len() implies plans(
            v,
            #[trigger] ai_upto(v, k)[j] as int,
        ) && ai_upto(v, k)[j] < k by {
            if j < before.len() {
                assert(ai_upto(v, k)[j] == before[j]);
            }
        }
    }
}

/// Every entity below `k` that plans is among those below `k` that plan.
pub proof fn planners_complete(v: EntitiesView, k: int, i: int)
    requires
        0 <= i < k <= usize::MAX,
        plans(v, i),
    ensures
        ai_upto(v, k).contains(i as usize),
    decreases k,
{
    let upto = ai_upto(v, k);
    if i == k - 1 {
        assert(upto[upto.len() - 1] == i as usize);
    } else {
        planners_complete(v, k - 1, i);
        let before = ai_upto(v, k - 1);
        let j = choose|j: int| 0 <= j < before.len() && before[j] == i as usize;
        assert(upto[j] == i as usize);
    }
}

/// An entity that is no longer frozen takes its turn like any other: if
/// it plans at all, fights, is alive and is not kept out, it is among the
/// entities that plan.
pub proof fn unfrozen_plans(v: EntitiesView, id: EntityId)
    requires
        v.wf(),
        id < v.pos.len(),
        plans(v, id as int),
    ensures
        ai_list(v).contains(id),
{
    planners_complete(v, v.pos.len() as int, id as int);
}

/// A frozen entity takes no turn of its own: it is not among the entities
/// that plan, so it forms no intent and none is carried out for it.
pub proof fn frozen_does_not_plan(v: EntitiesView, id: EntityId)
    requires
        v.wf(),
        lookup(v.status, id as int) matches Some(s) && s.frozen > 0,
    ensures
        !ai_list(v).contains(id),
{
    planners_plan(v, v.pos.len() as int);
}

/// The status of the entity `i` in the store `v` without the entities
/// below `k` that are due in `at`.
pub proof fn swept_status(v: EntitiesView, at: EntitiesView, k: int, i: int)
    requires
        k <= v.status.len() <= usize::MAX,
    ensures
        swept(v, at, k).status.len() == v.status.len(),
        lookup(swept(v, at, k).status, i) == if 0 <= i < k && due(at, i) {
            None
        } else {
            lookup(v.status, i)
        },
    decreases k,
{
    if k > 0 {
        swept_status(v, at, k - 1, i);
    }
}

/// At the end of a turn an entity that stays is frozen for one turn less,
/// and never for less than no turn; one that is due has no status left.
pub proof fn house_thaws(v: EntitiesView, i: int)
    requires
        v.wf(),
    ensures
        lookup(kept_house(v).status, i) == if 0 <= i < v.pos.len() && due(v, i) {
            None
        } else {
            thawed(lookup(v.status, i))
        },
{
    let aged = EntitiesView {
        status: Seq::new(v.status.len(), |i: int| thawed(v.status[i])),
        count_down: Seq::new(v.count_down.len(), |i: int| ticked(v.count_down[i])),
        ..v
    };
    swept_status(aged, v, v.pos.len() as int, i);
}

/// A store in which one entity has died is frozen as the store before.
pub proof fn dead_keeps_frost(a: EntitiesView, b: EntitiesView, t: int)
    requires
        b.status == a.status || (0 <= t < a.status.len() && b.status == a.status.update(
            t,
            crate::handlers::dead_status(a.status[t]),
        )),
    ensures
        a.same_frost(b),
{
    assert forall|i: int| (#[trigger] frost(b, i)) is Some implies frost(a, i) == frost(b, i) by {
        if b.status != a.status && i == t {
            assert(b.status[t] == crate::handlers::dead_status(a.status[t]));
        }
    }
}

proof fn frost_by_placing(d: DataView, s: GameSettings, msg: Msg)
    requires
        d.entities.wf(),
        msg is Moved || msg is PickedUp || msg is DropItem || msg is ItemThrow,
    ensures
        d.entities.same_frost(on_msg(d, s, msg).data.entities),
{
    reveal(on_msg);
}

proof fn frost_by_blow(d: DataView, s: GameSettings, msg: Msg)
    requires
        d.entities.wf(),
        msg is Killed || msg is Crushed || msg is Attack || msg is HammerHitWall
            || msg is HammerHitEntity,
    ensures
        d.entities.same_frost(on_msg(d, s, msg).data.entities),
{
    reveal(on_msg);
    let e = on_msg(d, s, msg).data.entities;
    match msg {
        Msg::Killed(_, target, _) => {
            dead_keeps_frost(d.entities, e, target as int);
        },
        Msg::Crushed(by, pos, _) => {
            crate::entities::blocker_from_finds(d.entities, pos, Some(by), 0);
            match d.entities.blocker_at(pos, Some(by)) {
                Some(target) => {
                    dead_keeps_frost(d.entities, e, target as int);
                },
                None => {},
            }
        },
        _ => {
            assert(e.status == d.entities.status);
        },
    }
}

proof fn frost_by_hammer(d: DataView, s: GameSettings, msg: Msg)
    requires
        d.entities.wf(),
        msg is HammerSwing,
    ensures
        d.entities.same_frost(on_msg(d, s, msg).data.entities),
{
    reveal(on_msg);
}

proof fn frost_by_rest(d: DataView, s: GameSettings, msg: Msg)
    requires
        d.entities.wf(),
        !(msg is Moved || msg is PickedUp || msg is DropItem || msg is ItemThrow || msg is Killed
            || msg is Crushed || msg is Attack || msg is HammerHitWall || msg is HammerHitEntity
            || msg is HammerSwing),
    ensures
        d.entities.same_frost(on_msg(d, s, msg).data.entities),
{
    reveal(on_msg);
    let e = on_msg(d, s, msg).data;
    if msg is Action {
        assert(e.entities.status == d.entities.status);
    }
    if msg is Sound {
        assert(e.entities.status == d.entities.status);
    }
}

/// No message changes for how long an entity is frozen: whatever message
/// takes effect, each entity that has a status afterwards is frozen for
/// as long as before.
pub proof fn effect_keeps_frost(d: DataView, s: GameSettings, msg: Msg)
    requires
        d.entities.wf(),
    ensures
        d.entities.same_frost(on_msg(d, s, msg).data.entities),
{
    if msg is Moved || msg is PickedUp || msg is DropItem || msg is ItemThrow {
        frost_by_placing(d, s, msg);
    } else if msg is Killed || msg is Crushed || msg is Attack || msg is HammerHitWall
        || msg is HammerHitEntity {
        frost_by_blow(d, s, msg);
    } else if msg is HammerSwing {
        frost_by_hammer(d, s, msg);
    } else {
        frost_by_rest(d, s, msg);
    }
}

/// Resolving the messages changes for no entity how long it is frozen.
pub proof fn resolved_keeps_frost(w: WorldView)
    requires
        w.data.entities.wf(),
    ensures
        w.data.entities.same_frost(w.resolved().data.entities),
    decreases queue_weight(w.log.messages),
{
    if w.log.messages.len() > 0 {
        effect_keeps_frost(w.data, w.settings, w.log.messages[0]);
        crate::invariants::stepped_keeps(w, true);
        if !w.head_violates() {
            stepped_weighs_less(w);
            resolved_keeps_frost(w.stepped());
        }
    }
}

/// One message logged to a world and resolved changes for no entity how
/// long it is frozen.
pub proof fn settle_keeps_frost(w: WorldView, msg: Msg)
    requires
        w.data.entities.wf(),
    ensures
        w.data.entities.same_frost(w.logged(msg).settle().world.data.entities),
{
    resolved_keeps_frost(w.logged(msg));
}

/// The first pass for one entity changes for no entity how long it is
/// frozen.
pub proof fn plan_one_keeps_frost(t: Turn, config: Config, id: EntityId, first: usize, second: usize)
    requires
        t.world.data.entities.wf(),
    ensures
        t.world.data.entities.same_frost(
            plan_one(t, config, id, first, second).world.data.entities,
        ),
{
    if t.ok {
        let action = plan_action(t.world, config, id, first);
        let noted = t.world.with_action(id, action);
        with_action_keeps(t.world, id, action, true);
        if action is StateChange {
            settle_keeps_frost(noted, Msg::Action(id, action));
        }
    }
}

/// The first pass changes for no entity how long it is frozen.
pub proof fn pass_one_keeps_frost(
    t: Turn,
    config: Config,
    ais: Seq<EntityId>,
    rolls: Seq<usize>,
    k: int,
)
    requires
        t.world.data.entities.wf(),
    ensures
        t.world.data.entities.same_frost(pass_one(t, config, ais, rolls, k).world.data.entities),
    decreases k,
{
    if k > 0 {
        pass_one_keeps_frost(t, config, ais, rolls, k - 1);
        pass_one_keeps(t, config, ais, rolls, k - 1, true);
        plan_one_keeps_frost(
            pass_one(t, config, ais, rolls, k - 1),
            config,
            ais[k - 1],
            roll_at(rolls, k - 1),
            roll_at(rolls, ais.len() + k - 1),
        );
    }
}

/// The second pass for one entity changes for no entity how long it is
/// frozen.
pub proof fn act_one_keeps_frost(t: Turn, id: EntityId)
    requires
        t.world.data.entities.wf(),
    ensures
        t.world.data.entities.same_frost(act_one(t, id).world.data.entities),
{
    if t.ok && lookup(t.world.data.entities.action, id as int) is Some {
        let action = t.world.data.entities.action[id as int]->0;
        settle_keeps_frost(t.world, Msg::Action(id, action));
        settle_keeps(t.world, Msg::Action(id, action), true);
        let done = t.world.logged(Msg::Action(id, action)).settle();
        if done.ok {
            let v = done.world.data.entities;
            dead_keeps_frost(v, crate::turn::reaped(v, id), id as int);
        }
    }
}

/// The second pass changes for no entity how long it is frozen.
pub proof fn pass_two_keeps_frost(t: Turn, ais: Seq<EntityId>, k: int)
    requires
        t.world.data.entities.wf(),
    ensures
        t.world.data.entities.same_frost(pass_two(t, ais, k).world.data.entities),
    decreases k,
{
    if k > 0 {
        pass_two_keeps_frost(t, ais, k - 1);
        pass_two_keeps(t, ais, k - 1, true);
        act_one_keeps_frost(pass_two(t, ais, k - 1), ais[k - 1]);
    }
}

/// The last pass for one entity changes for no entity how long it is
/// frozen.
pub proof fn replan_one_keeps_frost(t: Turn, config: Config, id: EntityId, roll: usize)
    requires
        t.world.data.entities.wf(),
    ensures
        t.world.data.entities.same_frost(replan_one(t, config, id, roll).world.data.entities),
{
    if t.ok {
        let quiet = deafened(t.world, id);
        let action = plan_action(quiet, config, id, roll);
        if action is StateChange {
            with_action_keeps(quiet, id, action, true);
            settle_keeps_frost(quiet.with_action(id, action), Msg::Action(id, action));
        }
    }
}

/// The last pass changes for no entity how long it is frozen.
pub proof fn pass_three_keeps_frost(
    t: Turn,
    config: Config,
    ais: Seq<EntityId>,
    rolls: Seq<usize>,
    k: int,
)
    requires
        t.world.data.entities.wf(),
    ensures
        t.world.data.entities.same_frost(
            pass_three(t, config, ais, rolls, k).world.data.entities,
        ),
    decreases k,
{
    if k > 0 {
        pass_three_keeps_frost(t, config, ais, rolls, k - 1);
        pass_three_keeps(t, config, ais, rolls, k - 1, true);
        replan_one_keeps_frost(
            pass_three(t, config, ais, rolls, k - 1),
            config,
            ais[k - 1],
            roll_at(rolls, 2 * ais.len() + k - 1),
        );
    }
}

/// The turns of the planning entities change for no entity how long it
/// is frozen.
pub proof fn ai_turns_keep_frost(t: Turn, config: Config, rolls: Seq<usize>)
    requires
        t.world.data.entities.wf(),
    ensures
        t.world.data.entities.same_frost(ai_turns(t, config, rolls).world.data.entities),
{
    let ais = ai_list(t.world.data.entities);
    let n = ais.len() as int;
    pass_one_keeps_frost(t, config, ais, rolls, n);
    pass_one_keeps(t, config, ais, rolls, n, true);
    let one = pass_one(t, config, ais, rolls, n);
    pass_two_keeps_frost(one, ais, n);
    pass_two_keeps(one, ais, n, true);
    let two = pass_two(one, ais, n);
    pass_three_keeps_frost(two, config, ais, rolls, n);
}

/// The start of a turn changes for no entity how long it is frozen.
pub proof fn begin_keeps_frost(w: WorldView, player: EntityId, action: Action)
    requires
        w.data.entities.wf(),
    ensures
        w.data.entities.same_frost(begin(w, player, action).world.data.entities),
        begin(w, player, action).world.data.entities.wf(),
{
    let cleared = WorldView { log: MsgLogView::empty(), ..w };
    with_action_keeps(cleared, player, action, true);
    let noted = cleared.with_action(player, action);
    settle_keeps_frost(noted, Msg::Action(player, action));
    settle_keeps(noted, Msg::Action(player, action), true);
}

/// A frozen entity sits the turn out: whatever the player does, an entity
/// that is frozen when the turn starts is not among the entities that
/// plan in it, so it forms no intent and none is carried out for it.
pub proof fn frozen_sits_out(w: WorldView, player: EntityId, action: Action, id: EntityId)
    requires
        w.data.entities.wf(),
        frost(w.data.entities, id as int) matches Some(n) && n > 0,
    ensures
        !ai_list(begin(w, player, action).world.data.entities).contains(id),
{
    begin_keeps_frost(w, player, action);
    let v = begin(w, player, action).world.data.entities;
    assert(frost(v, id as int) is Some ==> frost(v, id as int) == frost(w.data.entities, id as int));
    planners_plan(v, v.pos.len() as int);
}

/// Whether the message is an intent of the entity `e`.
pub open spec fn intent_of(m: Msg, e: EntityId) -> bool {
    m is Action && m->Action_0 == e
}

/// Whether no message of the queue is an intent of the entity `e`.
pub open spec fn no_intent(q: Seq<Msg>, e: EntityId) -> bool {
    forall|k: int| 0 <= k < q.len() ==> !intent_of(#[trigger] q[k], e)
}

impl WorldView {
    /// Whether neither queue of the log holds an intent of the entity
    /// `e`.
    pub open spec fn silent_of(self, e: EntityId) -> bool {
        no_intent(self.log.messages, e) && no_intent(self.log.turn_messages, e)
    }
}

/// No message of a queue weighs more than the queue.
pub proof fn weighs_at_least(q: Seq<Msg>, k: int)
    requires
        0 <= k < q.len(),
    ensures
        msg_weight(q[k]) <= queue_weight(q),
    decreases q.len(),
{
    if k > 0 {
        weighs_at_least(q.drop_first(), k - 1);
    }
}

/// No message sends an intent out: an intent is what an entity sets
/// about, never what follows from a message.
pub proof fn effect_sends_no_intent(d: DataView, s: GameSettings, msg: Msg)
    ensures
        forall|k: int|
            0 <= k < on_msg(d, s, msg).front.len() ==> !(#[trigger] on_msg(d, s, msg).front[k]
                is Action),
        forall|k: int|
            0 <= k < on_msg(d, s, msg).back.len() ==> !(#[trigger] on_msg(d, s, msg).back[k]
                is Action),
        forall|k: int|
            0 <= k < on_msg(d, s, msg).note().len() ==> !(#[trigger] on_msg(d, s, msg).note()[k]
                is Action),
{
    let eff = on_msg(d, s, msg);
    crate::resolve::effect_weighs_less(d, s, msg);
    assert forall|k: int| 0 <= k < eff.front.len() implies !(#[trigger] eff.front[k] is Action) by {
        weighs_at_least(eff.front, k);
    }
    assert forall|k: int| 0 <= k < eff.back.len() implies !(#[trigger] eff.back[k] is Action) by {
        weighs_at_least(eff.back, k);
    }
}

/// One step of the resolver adds no intent of the entity `e` to the log.
pub proof fn stepped_stays_silent(w: WorldView, e: EntityId)
    requires
        w.log.messages.len() > 0,
        w.silent_of(e),
    ensures
        w.stepped().silent_of(e),
{
    let eff = on_msg(w.data, w.settings, w.log.messages[0]);
    effect_sends_no_intent(w.data, w.settings, w.log.messages[0]);
    let rest = w.log.messages.drop_first();
    let after = w.stepped().log;
    assert forall|k: int| 0 <= k < after.messages.len() implies !intent_of(
        #[trigger] after.messages[k],
        e,
    ) by {
        if k < eff.front.len() {
            assert(after.messages[k] == eff.front[k]);
        } else if k < eff.front.len() + rest.len() {
            assert(after.messages[k] == w.log.messages[k - eff.front.len() + 1]);
        } else {
            assert(after.messages[k] == eff.back[k - eff.front.len() - rest.len()]);
        }
    }
    let turn = w.log.turn_messages;
    assert forall|k: int| 0 <= k < after.turn_messages.len() implies !intent_of(
        #[trigger] after.turn_messages[k],
        e,
    ) by {
        if k < eff.front.len() {
            assert(after.turn_messages[k] == eff.front[k]);
        } else if k < eff.front.len() + turn.len() {
            assert(after.turn_messages[k] == turn[k - eff.front.len()]);
        } else if k < eff.front.len() + turn.len() + eff.back.len() {
            assert(after.turn_messages[k] == eff.back[k - eff.front.len() - turn.len()]);
        } else {
            assert(after.turn_messages[k] == eff.note()[k - eff.front.len() - turn.len()
                - eff.back.len()]);
        }
    }
}

/// Resolving the messages adds no intent of the entity `e` to the log.
pub proof fn resolved_stays_silent(w: WorldView, e: EntityId)
    requires
        w.silent_of(e),
    ensures
        w.resolved().silent_of(e),
    decreases queue_weight(w.log.messages),
{
    if w.log.messages.len() > 0 {
        stepped_stays_silent(w, e);
        if !w.head_violates() {
            stepped_weighs_less(w);
            resolved_stays_silent(w.stepped(), e);
        }
    }
}

/// A message that is no intent of the entity `e`, logged and resolved,
/// adds no intent of `e` to the log.
pub proof fn settle_stays_silent(w: WorldView, msg: Msg, e: EntityId)
    requires
        w.silent_of(e),
        !intent_of(msg, e),
    ensures
        w.logged(msg).settle().world.silent_of(e),
{
    let told = w.logged(msg);
    assert forall|k: int| 0 <= k < told.log.messages.len() implies !intent_of(
        #[trigger] told.log.messages[k],
        e,
    ) by {
        if k < w.log.messages.len() {
            assert(told.log.messages[k] == w.log.messages[k]);
        }
    }
    assert forall|k: int| 0 <= k < told.log.turn_messages.len() implies !intent_of(
        #[trigger] told.log.turn_messages[k],
        e,
    ) by {
        if k < w.log.turn_messages.len() {
            assert(told.log.turn_messages[k] == w.log.turn_messages[k]);
        }
    }
    resolved_stays_silent(told, e);
}

/// The first pass for another entity adds no intent of the entity `e` to
/// the log.
pub proof fn plan_one_stays_silent(
    t: Turn,
    config: Config,
    id: EntityId,
    first: usize,
    second: usize,
    e: EntityId,
)
    requires
        t.world.silent_of(e),
        id != e,
    ensures
        plan_one(t, config, id, first, second).world.silent_of(e),
{
    if t.ok {
        let action = plan_action(t.world, config, id, first);
        let noted = t.world.with_action(id, action);
        if action is StateChange {
            settle_stays_silent(noted, Msg::Action(id, action), e);
        }
    }
}

/// The first pass for entities other than `e` adds no intent of `e` to
/// the log.
pub proof fn pass_one_stays_silent(
    t: Turn,
    config: Config,
    ais: Seq<EntityId>,
    rolls: Seq<usize>,
    k: int,
    e: EntityId,
)
    requires
        t.world.silent_of(e),
        !ais.contains(e),
        k <= ais.len(),
    ensures
        pass_one(t, config, ais, rolls, k).world.silent_of(e),
    decreases k,
{
    if k > 0 {
        pass_one_stays_silent(t, config, ais, rolls, k - 1, e);
        assert(ais.contains(ais[k - 1]));
        plan_one_stays_silent(
            pass_one(t, config, ais, rolls, k - 1),
            config,
            ais[k - 1],
            roll_at(rolls, k - 1),
            roll_at(rolls, ais.len() + k - 1),
            e,
        );
    }
}

/// The second pass for another entity adds no intent of the entity `e`
/// to the log.
pub proof fn act_one_stays_silent(t: Turn, id: EntityId, e: EntityId)
    requires
        t.world.silent_of(e),
        id != e,
    ensures
        act_one(t, id).world.silent_of(e),
{
    if t.ok && lookup(t.world.data.entities.action, id as int) is Some {
        let action = t.world.data.entities.action[id as int]->0;
        settle_stays_silent(t.world, Msg::Action(id, action), e);
    }
}

/// The second pass for entities other than `e` adds no intent of `e` to
/// the log.
pub proof fn pass_two_stays_silent(t: Turn, ais: Seq<EntityId>, k: int, e: EntityId)
    requires
        t.world.silent_of(e),
        !ais.contains(e),
        k <= ais.len(),
    ensures
        pass_two(t, ais, k).world.silent_of(e),
    decreases k,
{
    if k > 0 {
        pass_two_stays_silent(t, ais, k - 1, e);
        assert(ais.contains(ais[k - 1]));
        act_one_stays_silent(pass_two(t, ais, k - 1), ais[k - 1], e);
    }
}

/// The last pass for another entity adds no intent of the entity `e` to
/// the log.
pub proof fn replan_one_stays_silent(
    t: Turn,
    config: Config,
    id: EntityId,
    roll: usize,
    e: EntityId,
)
    requires
        t.world.silent_of(e),
        id != e,
    ensures
        replan_one(t, config, id, roll).world.silent_of(e),
{
    if t.ok {
        let quiet = deafened(t.world, id);
        let action = plan_action(quiet, config, id, roll);
        if action is StateChange {
            settle_stays_silent(quiet.with_action(id, action), Msg::Action(id, action), e);
        }
    }
}

/// The last pass for entities other than `e` adds no intent of `e` to
/// the log.
pub proof fn pass_three_stays_silent(
    t: Turn,
    config: Config,
    ais: Seq<EntityId>,
    rolls: Seq<usize>,
    k: int,
    e: EntityId,
)
    requires
        t.world.silent_of(e),
        !ais.contains(e),
        k <= ais.len(),
    ensures
        pass_three(t, config, ais, rolls, k).world.silent_of(e),
    decreases k,
{
    if k > 0 {
        pass_three_stays_silent(t, config, ais, rolls, k - 1, e);
        assert(ais.contains(ais[k - 1]));
        replan_one_stays_silent(
            pass_three(t, config, ais, rolls, k - 1),
            config,
            ais[k - 1],
            roll_at(rolls, 2 * ais.len() + k - 1),
            e,
        );
    }
}

/// A frozen entity forms no intent: whatever the player does and
/// whatever numbers are drawn, the messages of a turn hold no intent of
/// an entity other than the player that is frozen when the turn starts.
pub proof fn frozen_sends_no_intent(
    w: WorldView,
    config: Config,
    action: Action,
    rolls: Seq<usize>,
    e: EntityId,
)
    requires
        w.data.entities.wf(),
        w.data.entities.find_by_name(EntityName::Player) matches Some(player) && player != e,
        frost(w.data.entities, e as int) matches Some(n) && n > 0,
    ensures
        no_intent(turn_of(w, config, action, rolls).world.log.turn_messages, e),
{
    let player = w.data.entities.find_by_name(EntityName::Player)->0;
    let cleared = WorldView { log: MsgLogView::empty(), ..w };
    let noted = cleared.with_action(player, action);
    assert(noted.silent_of(e));
    settle_stays_silent(noted, Msg::Action(player, action), e);
    let begun = begin(w, player, action);
    frozen_sits_out(w, player, action, e);
    let ais = ai_list(begun.world.data.entities);
    let n = ais.len() as int;
    pass_one_stays_silent(begun, config, ais, rolls, n, e);
    let one = pass_one(begun, config, ais, rolls, n);
    pass_two_stays_silent(one, ais, n, e);
    let two = pass_two(one, ais, n);
    pass_three_stays_silent(two, config, ais, rolls, n, e);
    let whole = whole_turn(begun.world, player, action);
    let others = if whole && lives(begun.world.data.entities, player) {
        ai_turns(begun, config, rolls)
    } else {
        begun
    };
    assert(others.world.silent_of(e));
    settle_stays_silent(others.world, Msg::PlayerTurn(), e);
}

/// A turn that comes to its end takes one turn off the time for which
/// each entity is frozen, and never more than is left: whatever the
/// player does and whatever numbers are drawn, if the turn ends in order
/// and the level is not won by the action of the player, each entity
/// that has a status after the turn had one before it, and is frozen for
/// one turn less than before, or not at all if it was not.
pub proof fn turn_thaws(w: WorldView, config: Config, action: Action, rolls: Seq<usize>, i: int)
    requires
        w.data.entities.wf(),
        turn_of(w, config, action, rolls).ok,
        w.data.entities.find_by_name(EntityName::Player) matches Some(player) && !exit_met(
            begin(w, player, action).world.data,
        ),
        frost(turn_of(w, config, action, rolls).world.data.entities, i) is Some,
    ensures
        frost(turn_of(w, config, action, rolls).world.data.entities, i) == thawed_frost(
            frost(w.data.entities, i),
        ),
{
    let player = w.data.entities.find_by_name(EntityName::Player)->0;
    begin_keeps_frost(w, player, action);
    let begun = begin(w, player, action);
    ai_turns_keep_frost(begun, config, rolls);
    crate::order::ai_turns_keep(begun, config, rolls, true);
    let whole = whole_turn(begun.world, player, action);
    let others = if whole && lives(begun.world.data.entities, player) {
        ai_turns(begun, config, rolls)
    } else {
        begun
    };
    settle_keeps_frost(others.world, Msg::PlayerTurn());
    settle_keeps(others.world, Msg::PlayerTurn(), true);
    let told = others.world.logged(Msg::PlayerTurn()).settle();
    house_thaws(told.world.data.entities, i);
    let last = told.world.data.entities;
    assert(frost(last, i) is Some);
    assert(frost(others.world.data.entities, i) == frost(last, i));
    assert(frost(begun.world.data.entities, i) == frost(last, i));
}

} // verus!
