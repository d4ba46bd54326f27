//! What stays true of the world from turn to turn.
//!
//! Each of these is kept on its own, whatever else is true of the world,
//! so long as the store is well formed: that no two entities that block
//! movement stand on one tile; that each of them stands on the map; that
//! every momentum is within its limit; and that no entity without hit
//! points is alive or blocks its tile.

use crate::action::Action;
use crate::bounds::{on_map_frame, resolved_holds};
use crate::data::DataView;
use crate::entities::EntitiesView;
use crate::invariants::{kills, removed_keeps_valid, unblocked_keeps_apart, valid_frame};
use crate::messaging::{Msg, MsgLogView};
use crate::object::EntityName;
use crate::resolve::WorldView;
use crate::settings::Config;
use crate::store::lookup;
use crate::turn::{
    act_one, ai_list, ai_turns, begin, deafened, due, kept_house, pass_one, pass_three, pass_two,
    plan_action, plan_one, reaped, replan_one, roll_at, swept, thawed, ticked, turn_of, whole_turn,
    Turn,
};
use crate::types::EntityId;
use vstd::prelude::*;

verus! {

/// One message logged to a world and resolved keeps what the world has.
pub proof fn settle_keeps(w: WorldView, msg: Msg, blocking: bool)
    requires
        w.data.entities.wf(),
    ensures
        w.data.keeps_as(w.logged(msg).settle().world.data, blocking),
{
    let told = w.logged(msg);
    if w.data.entities.dead_when_spent(blocking) {
        assert forall|id: int|
            0 <= id < told.data.entities.fighter.len() && #[trigger] told.data.entities.spent(
                id,
                blocking,
            ) implies told.log.messages.len() > 0 && kills(told.log.messages[0], id) by {
            assert(!w.data.entities.spent(id, blocking));
        }
    }
    resolved_holds(told, blocking);
}

/// A world that differs from another only in what does not bear on them
/// keeps what the other has.
pub proof fn frame_keeps(d: DataView, v: EntitiesView, blocking: bool)
    requires
        d.entities.wf(),
        v.wf(),
        v.pos == d.entities.pos,
        v.blocks == d.entities.blocks,
        v.momentum == d.entities.momentum,
        v.fighter == d.entities.fighter,
        v.status == d.entities.status,
    ensures
        d.keeps_as(d.with_entities(v), blocking),
{
    valid_frame(d.entities, v);
    if d.entities.dead_when_spent(blocking) {
        assert forall|a: int| 0 <= a < v.fighter.len() implies !#[trigger] v.spent(a, blocking) by {
            assert(!d.entities.spent(a, blocking));
        }
    }
    if d.blockers_on_map() {
        on_map_frame(d, d.with_entities(v));
    }
}

/// Noting an action keeps what the world has.
pub proof fn with_action_keeps(w: WorldView, id: EntityId, action: Action, blocking: bool)
    requires
        w.data.entities.wf(),
    ensures
        w.data.keeps_as(w.with_action(id, action).data, blocking),
{
    if id < w.data.entities.action.len() {
        frame_keeps(w.data, w.with_action(id, action).data.entities, blocking);
    }
}

/// The first pass for one entity keeps what the world has.
pub proof fn plan_one_keeps(
    t: Turn,
    config: Config,
    id: EntityId,
    first: usize,
    second: usize,
    blocking: bool,
)
    requires
        t.world.data.entities.wf(),
    ensures
        t.world.data.keeps_as(plan_one(t, config, id, first, second).world.data, blocking),
{
    if t.ok {
        let action = plan_action(t.world, config, id, first);
        let noted = t.world.with_action(id, action);
        with_action_keeps(t.world, id, action, blocking);
        if action is StateChange {
            settle_keeps(noted, Msg::Action(id, action), blocking);
            let changed = noted.logged(Msg::Action(id, action)).settle();
            if changed.ok {
                with_action_keeps(
                    changed.world,
                    id,
                    plan_action(changed.world, config, id, second),
                    blocking,
                );
            }
        }
    }
}

/// The first pass keeps what the world has.
pub proof fn pass_one_keeps(
    t: Turn,
    config: Config,
    ais: Seq<EntityId>,
    rolls: Seq<usize>,
    k: int,
    blocking: bool,
)
    requires
        t.world.data.entities.wf(),
    ensures
        t.world.data.keeps_as(pass_one(t, config, ais, rolls, k).world.data, blocking),
    decreases k,
{
    if k > 0 {
        pass_one_keeps(t, config, ais, rolls, k - 1, blocking);
        plan_one_keeps(
            pass_one(t, config, ais, rolls, k - 1),
            config,
            ais[k - 1],
            roll_at(rolls, k - 1),
            roll_at(rolls, ais.len() + k - 1),
            blocking,
        );
    }
}

/// Clearing an entity without hit points away keeps what the world has.
pub proof fn reaped_keeps(d: DataView, id: EntityId, blocking: bool)
    requires
        d.entities.wf(),
    ensures
        d.keeps_as(d.with_entities(reaped(d.entities, id)), blocking),
{
    let v = d.entities;
    let r = reaped(v, id);
    if r != v {
        unblocked_keeps_apart(v, r, id as int);
        if v.dead_when_spent(blocking) {
            assert forall|a: int| 0 <= a < r.fighter.len() implies !#[trigger] r.spent(a, blocking) by {
                assert(!v.spent(a, blocking));
            }
        }
        if d.blockers_on_map() {
            on_map_frame(d, d.with_entities(r));
        }
    }
}

/// The second pass for one entity keeps what the world has.
pub proof fn act_one_keeps(t: Turn, id: EntityId, blocking: bool)
    requires
        t.world.data.entities.wf(),
    ensures
        t.world.data.keeps_as(act_one(t, id).world.data, blocking),
{
    if t.ok && lookup(t.world.data.entities.action, id as int) is Some {
        let action = t.world.data.entities.action[id as int]->0;
        settle_keeps(t.world, Msg::Action(id, action), blocking);
        let done = t.world.logged(Msg::Action(id, action)).settle();
        if done.ok {
            reaped_keeps(done.world.data, id, blocking);
        }
    }
}

/// The second pass keeps what the world has.
pub proof fn pass_two_keeps(t: Turn, ais: Seq<EntityId>, k: int, blocking: bool)
    requires
        t.world.data.entities.wf(),
    ensures
        t.world.data.keeps_as(pass_two(t, ais, k).world.data, blocking),
    decreases k,
{
    if k > 0 {
        pass_two_keeps(t, ais, k - 1, blocking);
        act_one_keeps(pass_two(t, ais, k - 1), ais[k - 1], blocking);
    }
}

/// The last pass for one entity keeps what the world has.
pub proof fn replan_one_keeps(t: Turn, config: Config, id: EntityId, roll: usize, blocking: bool)
    requires
        t.world.data.entities.wf(),
    ensures
        t.world.data.keeps_as(replan_one(t, config, id, roll).world.data, blocking),
{
    if t.ok {
        let quiet = deafened(t.world, id);
        if id < t.world.data.entities.messages.len() {
            frame_keeps(t.world.data, quiet.data.entities, blocking);
        }
        let action = plan_action(quiet, config, id, roll);
        if action is StateChange {
            with_action_keeps(quiet, id, action, blocking);
            settle_keeps(quiet.with_action(id, action), Msg::Action(id, action), blocking);
        }
    }
}

/// The last pass keeps what the world has.
pub proof fn pass_three_keeps(
    t: Turn,
    config: Config,
    ais: Seq<EntityId>,
    rolls: Seq<usize>,
    k: int,
    blocking: bool,
)
    requires
        t.world.data.entities.wf(),
    ensures
        t.world.data.keeps_as(pass_three(t, config, ais, rolls, k).world.data, blocking),
    decreases k,
{
    if k > 0 {
        pass_three_keeps(t, config, ais, rolls, k - 1, blocking);
        replan_one_keeps(
            pass_three(t, config, ais, rolls, k - 1),
            config,
            ais[k - 1],
            roll_at(rolls, 2 * ais.len() + k - 1),
            blocking,
        );
    }
}

/// The turns of the planning entities keep what the world has.
pub proof fn ai_turns_keep(t: Turn, config: Config, rolls: Seq<usize>, blocking: bool)
    requires
        t.world.data.entities.wf(),
    ensures
        t.world.data.keeps_as(ai_turns(t, config, rolls).world.data, blocking),
{
    let ais = ai_list(t.world.data.entities);
    let n = ais.len() as int;
    pass_one_keeps(t, config, ais, rolls, n, blocking);
    let one = pass_one(t, config, ais, rolls, n);
    pass_two_keeps(one, ais, n, blocking);
    let two = pass_two(one, ais, n);
    pass_three_keeps(two, config, ais, rolls, n, blocking);
}

/// Removing the entities that are due keeps what the world has.
pub proof fn swept_keeps(d: DataView, at: EntitiesView, k: int, blocking: bool)
    requires
        d.entities.wf(),
    ensures
        d.keeps_as(d.with_entities(swept(d.entities, at, k)), blocking),
    decreases k,
{
    if k > 0 {
        swept_keeps(d, at, k - 1, blocking);
        let before = swept(d.entities, at, k - 1);
        if due(at, k - 1) {
            removed_keeps_valid(before, (k - 1) as usize);
            let after = before.removed((k - 1) as usize);
            if before.dead_when_spent(blocking) {
                assert forall|a: int| 0 <= a < after.fighter.len() implies !#[trigger] after.spent(a, blocking) by {
                    assert(!before.spent(a, blocking));
                }
            }
            if d.with_entities(before).blockers_on_map() {
                on_map_frame(d.with_entities(before), d.with_entities(after));
            }
        }
    }
}

/// The housekeeping keeps what the world has.
pub proof fn kept_house_keeps(d: DataView, blocking: bool)
    requires
        d.entities.wf(),
    ensures
        d.keeps_as(d.with_entities(kept_house(d.entities)), blocking),
{
    let v = d.entities;
    let aged = EntitiesView {
        status: Seq::new(v.status.len(), |i: int| thawed(v.status[i])),
        count_down: Seq::new(v.count_down.len(), |i: int| ticked(v.count_down[i])),
        ..v
    };
    valid_frame(v, aged);
    if v.dead_when_spent(blocking) {
        assert forall|a: int| 0 <= a < aged.fighter.len() implies !#[trigger] aged.spent(a, blocking) by {
            assert(!v.spent(a, blocking));
        }
    }
    if d.blockers_on_map() {
        on_map_frame(d, d.with_entities(aged));
    }
    swept_keeps(d.with_entities(aged), v, v.pos.len() as int, blocking);
}

/// A turn keeps what the world has, with the death of the entities without
/// hit points taken as `blocking` says. Whatever the action
/// of the player, whatever numbers are drawn, and however the turn ends:
/// the store stays well formed; if before the turn no two entities that
/// block movement stand on one tile, none do after it; if each of them
/// stands on the map before, each does after; if every momentum is within
/// its limit before, every one is after; and if no entity without hit
/// points is alive or blocks its tile before, none is after.
pub proof fn turn_keeps_as(
    w: WorldView,
    config: Config,
    action: Action,
    rolls: Seq<usize>,
    blocking: bool,
)
    requires
        w.data.entities.wf(),
    ensures
        w.data.keeps_as(turn_of(w, config, action, rolls).world.data, blocking),
{
    match w.data.entities.find_by_name(EntityName::Player) {
        None => {},
        Some(player) => {
            let cleared = WorldView { log: MsgLogView::empty(), ..w };
            with_action_keeps(cleared, player, action, blocking);
            settle_keeps(cleared.with_action(player, action), Msg::Action(player, action), blocking);
            let begun = begin(w, player, action);
            if begun.ok && !crate::turn::exit_met(begun.world.data) {
                ai_turns_keep(begun, config, rolls, blocking);
                let whole = whole_turn(begun.world, player, action);
                let others = if whole && crate::turn::lives(begun.world.data.entities, player) {
                    ai_turns(begun, config, rolls)
                } else {
                    begun
                };
                if others.ok {
                    settle_keeps(others.world, Msg::PlayerTurn(), blocking);
                    let told = others.world.logged(Msg::PlayerTurn()).settle();
                    if told.ok {
                        kept_house_keeps(told.world.data, blocking);
                    }
                }
            }
        },
    }
}

/// A turn keeps what the world has, each on its own. Whatever the action
/// of the player, whatever numbers are drawn, and however the turn ends:
/// the store stays well formed; if before the turn no two entities that
/// block movement stand on one tile, none do after it; if each of them
/// stands on the map before, each does after; if every momentum is within
/// its limit before, every one is after; if no entity without hit points
/// is alive before, none is after; and if no entity without hit points is
/// alive or blocks its tile before, none is or does after.
pub proof fn turn_keeps(w: WorldView, config: Config, action: Action, rolls: Seq<usize>)
    requires
        w.data.entities.wf(),
    ensures
        w.data.keeps(turn_of(w, config, action, rolls).world.data),
{
    turn_keeps_as(w, config, action, rolls, false);
    turn_keeps_as(w, config, action, rolls, true);
}

} // verus!
