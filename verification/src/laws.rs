//! Laws of the simulation that relate several of its functions.

use crate::action::{Action, InputAction};
use crate::data::DataView;
use crate::entities::{index_of_from, without_id, EntitiesView};
use crate::effect::{queue_weight, Effect};
use crate::game::{stepped_game, GameView};
use crate::messaging::Msg;
use crate::moving::{can_drop, can_pick_up, inventory_with, on_drop_item, on_picked_up};
use crate::object::EntityName;
use crate::resolve::{on_msg, stepped_weighs_less, WorldView};
use crate::settings::{Config, GameSettings};
use crate::store::lookup;
use crate::turn::{
    ai_list, ai_turns, begin, pass_one, pass_three, pass_two, roll_at, turn_of, whole_turn, Turn,
};
use crate::types::EntityId;
use vstd::prelude::*;

verus! {

/// Resolving the messages of a world whose queue is empty changes
/// nothing, and doing it once more changes nothing either.
pub proof fn resolve_empty_is_noop(w: WorldView)
    requires
        w.log.messages.len() == 0,
    ensures
        w.resolved() == w,
        w.resolves(),
        w.resolved().resolved() == w.resolved(),
{
}

/// An id that a list does not hold is found at the end of the list once
/// it is appended.
pub proof fn index_of_appended(ids: Seq<EntityId>, id: EntityId, i: int)
    requires
        0 <= i <= ids.len(),
        index_of_from(ids, id, i) is None,
    ensures
        index_of_from(ids.push(id), id, i) == Some(ids.len() as int),
    decreases ids.len() - i,
{
    if i < ids.len() {
        assert(ids.push(id)[i] == ids[i]);
        index_of_appended(ids, id, i + 1);
    }
}

/// An item that is picked up and then dropped lies where its holder
/// stands, and the inventory of the holder is what it was before.
/// Nothing else has changed.
pub proof fn pick_up_then_drop_restores(d: DataView, s: GameSettings, ent: EntityId, item: EntityId)
    requires
        d.entities.wf(),
        can_pick_up(d, ent, item),
        lookup(d.entities.pos, ent as int) is Some,
    ensures
        ({
            let picked = on_picked_up(d, s, ent, item);
            let dropped = on_drop_item(picked.data, picked.settings, ent, item);
            &&& picked.unavailable is None
            &&& dropped.unavailable is None
            &&& dropped.settings == s
            &&& dropped.data.map == d.map
            &&& dropped.data.entities == (EntitiesView {
                pos: d.entities.pos.update(item as int, d.entities.pos[ent as int]),
                ..d.entities
            })
        }),
{
    let v = d.entities;
    let inv = v.inventory[ent as int]->0;
    let kind = v.item[item as int]->0;
    let held = inventory_with(inv, item, kind.is_tool_spec());
    let picked = on_picked_up(d, s, ent, item);
    if kind.is_tool_spec() {
        assert(held[0] == item);
        assert(held.remove(0) =~= inv);
    } else {
        index_of_appended(inv, item, 0);
        assert(held.remove(inv.len() as int) =~= inv);
    }
    assert(without_id(held, item) == inv);
    assert(can_drop(picked.data, ent, item));
    let dropped = on_drop_item(picked.data, picked.settings, ent, item);
    assert(dropped.data.entities.inventory =~= v.inventory);
    assert(dropped.data.entities.pos =~= v.pos.update(item as int, v.pos[ent as int]));
}

/// Resolving a queue of one message that takes effect and sends nothing
/// out is that one step.
pub proof fn resolved_single(w: WorldView)
    requires
        w.log.messages.len() == 1,
        !w.head_violates(),
        on_msg(w.data, w.settings, w.log.messages[0]).front.len() == 0,
        on_msg(w.data, w.settings, w.log.messages[0]).back.len() == 0,
    ensures
        w.resolves(),
        w.resolved() == w.stepped(),
        w.resolved().log.messages.len() == 0,
{
    let eff = on_msg(w.data, w.settings, w.log.messages[0]);
    let next = w.stepped();
    assert(w.log.popped().messages.len() == 0);
    assert(next.log.messages =~= Seq::<Msg>::empty());
    stepped_weighs_less(w);
    assert(next.resolved() == next);
    assert(next.resolves());
}

/// Through the resolver, an item that is picked up and then dropped lies
/// where its holder stands, and the inventory of the holder is what it
/// was before. Nothing else in the world has changed, and both messages
/// are resolved without error.
pub proof fn pick_up_then_drop_resolved(w: WorldView, ent: EntityId, item: EntityId)
    requires
        w.data.entities.wf(),
        w.log.messages.len() == 0,
        can_pick_up(w.data, ent, item),
        lookup(w.data.entities.pos, ent as int) is Some,
    ensures
        ({
            let picking = w.logged(Msg::PickedUp(ent, item));
            let dropping = picking.resolved().logged(Msg::DropItem(ent, item));
            let after = dropping.resolved();
            &&& picking.resolves()
            &&& dropping.resolves()
            &&& after.log.messages.len() == 0
            &&& after.settings == w.settings
            &&& after.data.map == w.data.map
            &&& after.data.entities == (EntitiesView {
                pos: w.data.entities.pos.update(item as int, w.data.entities.pos[ent as int]),
                ..w.data.entities
            })
        }),
{
    reveal(on_msg);
    pick_up_then_drop_restores(w.data, w.settings, ent, item);
    let picking = w.logged(Msg::PickedUp(ent, item));
    assert(picking.log.messages.len() == 1);
    assert(picking.log.messages[0] == Msg::PickedUp(ent, item));
    resolved_single(picking);
    let picked = picking.resolved();
    let dropping = picked.logged(Msg::DropItem(ent, item));
    assert(dropping.log.messages.len() == 1);
    assert(dropping.log.messages[0] == Msg::DropItem(ent, item));
    resolved_single(dropping);
}

/// The first item from `i` on that lies at `pos` is an item that lies
/// there.
pub proof fn item_from_lies(v: EntitiesView, pos: crate::types::Position, i: int)
    requires
        0 <= i,
        v.pos.len() <= usize::MAX,
    ensures
        v.item_from(pos, i) matches Some(item) ==> i <= item < v.pos.len() && v.pos[item as int]
            == Some(pos) && lookup(v.item, item as int) is Some,
    decreases v.pos.len() - i,
{
    if i < v.pos.len() && !(lookup(v.item, i) is Some && v.pos[i] == Some(pos)) {
        item_from_lies(v, pos, i + 1);
    }
}

/// The first item that lies at a place depends on the positions and on
/// what the items are alone.
pub proof fn item_from_frame(a: EntitiesView, b: EntitiesView, pos: crate::types::Position, i: int)
    requires
        a.pos == b.pos,
        a.item == b.item,
    ensures
        a.item_from(pos, i) == b.item_from(pos, i),
    decreases a.pos.len() - i,
{
    if 0 <= i < a.pos.len() && !(lookup(a.item, i) is Some && a.pos[i] == Some(pos)) {
        item_from_frame(a, b, pos, i + 1);
    }
}

/// What the messages of picking up and of dropping do.
pub proof fn carrying_effects(d: DataView, s: GameSettings, id: EntityId, item: EntityId)
    ensures
        on_msg(d, s, Msg::Action(id, Action::Pickup)) == crate::act::on_action(
            d,
            s,
            id,
            Action::Pickup,
        ),
        on_msg(d, s, Msg::Action(id, Action::DropItem)) == crate::act::on_action(
            d,
            s,
            id,
            Action::DropItem,
        ),
        on_msg(d, s, Msg::PickedUp(id, item)) == on_picked_up(d, s, id, item),
        on_msg(d, s, Msg::DropItem(id, item)) == on_drop_item(d, s, id, item),
{
    reveal(on_msg);
}

/// The start of a turn in which the player picks up the item on its
/// tile: the item is in the inventory, the action is noted, and a turn
/// made of two half steps has ended.
pub proof fn picking_up_begins(w: WorldView, player: EntityId, item: EntityId)
    requires
        w.data.entities.wf(),
        lookup(w.data.entities.pos, player as int) matches Some(at) && w.data.entities.item_at(at)
            == Some(item),
        can_pick_up(w.data, player, item),
    ensures
        begin(w, player, Action::Pickup).ok,
        begin(w, player, Action::Pickup).world.settings == w.settings,
        begin(w, player, Action::Pickup).world.data == on_picked_up(
            crate::act::rested(w.with_action(player, Action::Pickup).data, player),
            w.settings,
            player,
            item,
        ).data,
{
    let s = w.settings;
    let at = w.data.entities.pos[player as int]->0;
    let cleared = WorldView { log: crate::messaging::MsgLogView::empty(), ..w };
    let noted = cleared.with_action(player, Action::Pickup);
    let told = noted.logged(Msg::Action(player, Action::Pickup));
    assert(noted.data == w.with_action(player, Action::Pickup).data);
    assert(told.log.messages.len() == 1);
    assert(told.log.messages[0] == Msg::Action(player, Action::Pickup));
    carrying_effects(told.data, s, player, item);
    item_from_frame(w.data.entities, told.data.entities, at, 0);
    let eff = on_msg(told.data, s, told.log.messages[0]);
    assert(eff.back =~= seq![Msg::PickedUp(player, item)]);
    assert(eff.back[0] == Msg::PickedUp(player, item));
    assert(eff.front.len() == 0);
    assert(eff.data == crate::act::rested(noted.data, player));
    carrying_effects(eff.data, eff.settings, player, item);
    assert(can_pick_up(eff.data, player, item));
    resolved_pair(told);
}

/// The start of a turn in which the player drops the item that is first
/// in its inventory: the item lies where the player stands, the action
/// is noted, and a turn made of two half steps has ended.
pub proof fn dropping_begins(w: WorldView, player: EntityId, item: EntityId)
    requires
        w.data.entities.wf(),
        lookup(w.data.entities.inventory, player as int) matches Some(inv) && inv.len() > 0
            && inv[0] == item,
        can_drop(w.data, player, item),
    ensures
        begin(w, player, Action::DropItem).ok,
        begin(w, player, Action::DropItem).world.settings == w.settings,
        begin(w, player, Action::DropItem).world.data == on_drop_item(
            crate::act::rested(w.with_action(player, Action::DropItem).data, player),
            w.settings,
            player,
            item,
        ).data,
{
    let s = w.settings;
    let cleared = WorldView { log: crate::messaging::MsgLogView::empty(), ..w };
    let noted = cleared.with_action(player, Action::DropItem);
    let told = noted.logged(Msg::Action(player, Action::DropItem));
    assert(noted.data == w.with_action(player, Action::DropItem).data);
    assert(told.log.messages.len() == 1);
    assert(told.log.messages[0] == Msg::Action(player, Action::DropItem));
    carrying_effects(told.data, s, player, item);
    let eff = on_msg(told.data, s, told.log.messages[0]);
    assert(eff.back =~= seq![Msg::DropItem(player, item)]);
    assert(eff.back[0] == Msg::DropItem(player, item));
    assert(eff.front.len() == 0);
    assert(eff.data == crate::act::rested(noted.data, player));
    carrying_effects(eff.data, eff.settings, player, item);
    assert(can_drop(eff.data, player, item));
    resolved_pair(told);
}

/// The player picks up the item on its tile and, as its next action,
/// drops it again, with an inventory in which what is picked up comes
/// first: a tool, or the only item. Once both actions are carried out
/// the item lies where it lay, the inventory holds what it held, and the
/// world differs from the world before only in the action noted for the
/// player and in the half step of its momentum.
pub proof fn pick_up_then_drop_in_turns(w: WorldView, player: EntityId, item: EntityId)
    requires
        w.data.entities.wf(),
        lookup(w.data.entities.pos, player as int) matches Some(at) && w.data.entities.item_at(at)
            == Some(item),
        can_pick_up(w.data, player, item),
        lookup(w.data.entities.inventory, player as int) matches Some(inv) && (inv.len() == 0
            || (lookup(w.data.entities.item, item as int) matches Some(kind)
            && kind.is_tool_spec())),
    ensures
        ({
            let picked = begin(w, player, Action::Pickup);
            let dropped = begin(picked.world, player, Action::DropItem);
            &&& picked.ok
            &&& dropped.ok
            &&& dropped.world.settings == w.settings
            &&& dropped.world.data == crate::act::rested(
                w.with_action(player, Action::DropItem).data,
                player,
            )
        }),
{
    let v = w.data.entities;
    let at = v.pos[player as int]->0;
    let inv = v.inventory[player as int]->0;
    let kind = v.item[item as int]->0;
    let held = inventory_with(inv, item, kind.is_tool_spec());
    item_from_lies(v, at, 0);
    picking_up_begins(w, player, item);
    let picked = begin(w, player, Action::Pickup).world;
    assert(held[0] == item);
    if kind.is_tool_spec() {
        assert(held.remove(0) =~= inv);
    } else {
        index_of_appended(inv, item, 0);
        assert(held.remove(inv.len() as int) =~= inv);
    }
    assert(without_id(held, item) == inv);
    assert(picked.data.entities.inventory[player as int] == Some(held));
    assert(picked.data.entities.wf());
    assert(can_drop(picked.data, player, item));
    dropping_begins(picked, player, item);
    let dropped = begin(picked, player, Action::DropItem).world;
    let want = crate::act::rested(w.with_action(player, Action::DropItem).data, player);
    assert(dropped.data.entities.inventory =~= want.entities.inventory);
    assert(dropped.data.entities.pos =~= want.entities.pos);
    assert(dropped.data.entities.action =~= want.entities.action);
    assert(dropped.data.entities.momentum =~= want.entities.momentum);
    assert(dropped.data.entities == want.entities);
}

/// Resolving a queue of one message that takes effect and sends one
/// message out, which in its turn takes effect and sends nothing out, is
/// those two steps.
pub proof fn resolved_pair(w: WorldView)
    requires
        w.log.messages.len() == 1,
        !w.head_violates(),
        on_msg(w.data, w.settings, w.log.messages[0]).front.len() == 0,
        on_msg(w.data, w.settings, w.log.messages[0]).back.len() == 1,
        ({
            let eff = on_msg(w.data, w.settings, w.log.messages[0]);
            let next = on_msg(eff.data, eff.settings, eff.back[0]);
            !next.violation && next.front.len() == 0 && next.back.len() == 0
        }),
    ensures
        w.resolves(),
        w.resolved() == w.stepped().stepped(),
        w.resolved().log.messages.len() == 0,
{
    let eff = on_msg(w.data, w.settings, w.log.messages[0]);
    let next = w.stepped();
    assert(w.log.popped().messages.len() == 0);
    assert(next.log.messages =~= eff.back);
    stepped_weighs_less(w);
    resolved_single(next);
}

/// The first entity with a name depends on the names alone.
pub proof fn find_name_frame(a: EntitiesView, b: EntitiesView, name: EntityName, i: int)
    requires
        a.name == b.name,
    ensures
        a.find_name_from(name, i) == b.find_name_from(name, i),
    decreases a.name.len() - i,
{
    if 0 <= i < a.name.len() && a.name[i] != Some(name) {
        find_name_frame(a, b, name, i + 1);
    }
}

/// The first item of a kind in an inventory depends on what the items
/// are alone.
pub proof fn kind_from_frame(
    a: EntitiesView,
    b: EntitiesView,
    inv: Seq<EntityId>,
    kind: crate::object::Item,
    j: int,
)
    requires
        a.item == b.item,
    ensures
        a.kind_from(inv, kind, j) == b.kind_from(inv, kind, j),
    decreases inv.len() - j,
{
    if 0 <= j < inv.len() && lookup(a.item, inv[j] as int) != Some(kind) {
        kind_from_frame(a, b, inv, kind, j + 1);
    }
}

/// Whether the level is won depends on the names, the positions, the
/// inventories and what the items are alone.
pub proof fn exit_met_frame(a: DataView, b: DataView)
    requires
        a.entities.name == b.entities.name,
        a.entities.pos == b.entities.pos,
        a.entities.inventory == b.entities.inventory,
        a.entities.item == b.entities.item,
    ensures
        crate::turn::exit_met(a) == crate::turn::exit_met(b),
{
    find_name_frame(a.entities, b.entities, EntityName::Player, 0);
    find_name_frame(a.entities, b.entities, EntityName::Exit, 0);
    let player = a.entities.find_by_name(EntityName::Player);
    if player is Some {
        let inv = lookup(a.entities.inventory, player->0 as int);
        if inv is Some {
            kind_from_frame(a.entities, b.entities, inv->0, crate::object::Item::Goal, 0);
        }
    }
}

/// What passing does: the intent sends one message out and ends a turn
/// made of two half steps; that message changes nothing and sends
/// nothing out.
pub proof fn passing_effect(d: DataView, s: GameSettings, id: EntityId)
    ensures
        on_msg(d, s, Msg::Action(id, Action::Pass)) == (Effect {
            data: crate::act::rested(d, id),
            ..Effect::none(d, s).emit(Msg::Pass())
        }),
        on_msg(d, s, Msg::Pass()) == Effect::none(d, s),
{
    reveal(on_msg);
}

/// The start of a turn in which the player passes: the messages resolve,
/// and nothing changes but the action noted for the player and the half
/// step of its momentum.
pub proof fn passing_begins(w: WorldView, player: EntityId)
    ensures
        begin(w, player, Action::Pass).ok,
        begin(w, player, Action::Pass).world.settings == w.settings,
        begin(w, player, Action::Pass).world.data == crate::act::rested(
            w.with_action(player, Action::Pass).data,
            player,
        ),
{
    let cleared = WorldView { log: crate::messaging::MsgLogView::empty(), ..w };
    let noted = cleared.with_action(player, Action::Pass);
    let told = noted.logged(Msg::Action(player, Action::Pass));
    assert(noted.data == w.with_action(player, Action::Pass).data);
    assert(told.log.messages.len() == 1);
    assert(told.log.messages[0] == Msg::Action(player, Action::Pass));
    passing_effect(told.data, told.settings, player);
    let eff = on_msg(told.data, told.settings, told.log.messages[0]);
    assert(eff.back =~= seq![Msg::Pass()]);
    assert(eff.back[0] == Msg::Pass());
    assert(eff.front.len() == 0);
    passing_effect(eff.data, eff.settings, player);
    resolved_pair(told);
}

/// A player who passes while standing where the exit is, with the goal in
/// the inventory, wins the level: the state of the game becomes `Win`,
/// and the game goes on.
pub proof fn pass_on_the_exit_wins(g: GameView, rolls: Seq<usize>)
    requires
        g.world.settings.state == crate::action::GameState::Playing,
        !g.world.settings.exiting,
        g.input_action == InputAction::Pass,
        crate::turn::exit_met(g.world.data),
    ensures
        stepped_game(g, rolls).1 == Ok::<crate::settings::GameResult, crate::effect::GameError>(
            crate::settings::GameResult::Continue,
        ),
        stepped_game(g, rolls).0.world.settings == (GameSettings {
            state: crate::action::GameState::Win,
            ..g.world.settings
        }),
        stepped_game(g, rolls).0.world.data.map == g.world.data.map,
{
    let w = g.world;
    let player = w.data.entities.find_by_name(EntityName::Player)->0;
    passing_begins(w, player);
    let begun = begin(w, player, Action::Pass);
    exit_met_frame(w.data, begun.world.data);
    assert(turn_of(w, g.config, Action::Pass, rolls) == begun);
}

/// Once the level is won and the player holds the goal, the next step
/// changes the level: the game is played again, on a fresh map and with
/// the number of the level one higher, the count of turns is as it was,
/// and the player no longer holds a goal.
pub proof fn winning_changes_the_level(g: GameView, rolls: Seq<usize>)
    requires
        g.world.settings.state == crate::action::GameState::Win,
        g.input_action != InputAction::Exit,
        g.world.data.entities.find_by_name(EntityName::Player) matches Some(player)
            && g.world.data.entities.in_inventory(player, crate::object::Item::Goal) is Some,
    ensures
        ({
            let (after, r) = stepped_game(g, rolls);
            &&& r == Ok::<crate::settings::GameResult, crate::effect::GameError>(
                crate::settings::GameResult::Continue,
            )
            &&& after.world.settings.state == crate::action::GameState::Playing
            &&& after.world.settings.level_num == crate::turn::next_count(
                g.world.settings.level_num,
            )
            &&& after.world.settings.turn_count == g.world.settings.turn_count
            &&& after.world.data.map == crate::game::fresh_map()
            &&& after.world.data.entities.find_by_name(EntityName::Player) == Some(0usize)
            &&& after.world.data.entities.in_inventory(0, crate::object::Item::Goal) is None
            &&& lookup(after.world.data.entities.pos, 0) == Some(crate::types::Position(0, 0))
        }),
{
    let first = crate::game::first_entities(g.config);
    assert(first.name[0] == Some(EntityName::Player));
    assert(first.find_by_name(EntityName::Player) == Some(0usize));
    let placed = crate::game::placed_player(first);
    find_name_frame(first, placed, EntityName::Player, 0);
    let inv = lookup(placed.inventory, 0)->0;
    assert(inv =~= seq![1usize]);
    assert(lookup(placed.item, 1) == Some(crate::object::Item::Stone));
    assert(placed.kind_from(inv, crate::object::Item::Goal, 1) is None);
    assert(placed.kind_from(inv, crate::object::Item::Goal, 0) is None);
}

/// No message changes the count of turns.
pub proof fn effect_keeps_count(d: DataView, s: GameSettings, msg: Msg)
    ensures
        on_msg(d, s, msg).settings.turn_count == s.turn_count,
{
    reveal(on_msg);
}

/// Resolving the messages does not change the count of turns.
pub proof fn resolved_keeps_count(w: WorldView)
    ensures
        w.resolved().settings.turn_count == w.settings.turn_count,
    decreases queue_weight(w.log.messages),
{
    if w.log.messages.len() > 0 {
        effect_keeps_count(w.data, w.settings, w.log.messages[0]);
        if !w.head_violates() {
            stepped_weighs_less(w);
            resolved_keeps_count(w.stepped());
        }
    }
}

/// The turns of the planning entities do not change the count of turns.
pub proof fn ai_turns_keep_count(t: Turn, config: Config, rolls: Seq<usize>)
    ensures
        ai_turns(t, config, rolls).world.settings.turn_count == t.world.settings.turn_count,
{
    let ais = ai_list(t.world.data.entities);
    let n = ais.len() as int;
    pass_one_keeps_count(t, config, ais, rolls, n);
    let one = pass_one(t, config, ais, rolls, n);
    pass_two_keeps_count(one, ais, n);
    let two = pass_two(one, ais, n);
    pass_three_keeps_count(two, config, ais, rolls, n);
}

/// The first pass does not change the count of turns.
pub proof fn pass_one_keeps_count(t: Turn, config: Config, ais: Seq<EntityId>, rolls: Seq<usize>, k: int)
    ensures
        pass_one(t, config, ais, rolls, k).world.settings.turn_count
            == t.world.settings.turn_count,
    decreases k,
{
    if k > 0 {
        pass_one_keeps_count(t, config, ais, rolls, k - 1);
        let before = pass_one(t, config, ais, rolls, k - 1);
        if before.ok {
            let id = ais[k - 1];
            let action = crate::turn::plan_action(
                before.world,
                config,
                id,
                crate::turn::roll_at(rolls, k - 1),
            );
            resolved_keeps_count(before.world.with_action(id, action).logged(Msg::Action(id, action)));
        }
    }
}

/// The second pass does not change the count of turns.
pub proof fn pass_two_keeps_count(t: Turn, ais: Seq<EntityId>, k: int)
    ensures
        pass_two(t, ais, k).world.settings.turn_count == t.world.settings.turn_count,
    decreases k,
{
    if k > 0 {
        pass_two_keeps_count(t, ais, k - 1);
        let before = pass_two(t, ais, k - 1);
        let id = ais[k - 1];
        if before.ok && lookup(before.world.data.entities.action, id as int) is Some {
            let action = before.world.data.entities.action[id as int]->0;
            resolved_keeps_count(before.world.logged(Msg::Action(id, action)));
        }
    }
}

/// The last pass does not change the count of turns.
pub proof fn pass_three_keeps_count(
    t: Turn,
    config: Config,
    ais: Seq<EntityId>,
    rolls: Seq<usize>,
    k: int,
)
    ensures
        pass_three(t, config, ais, rolls, k).world.settings.turn_count
            == t.world.settings.turn_count,
    decreases k,
{
    if k > 0 {
        pass_three_keeps_count(t, config, ais, rolls, k - 1);
        let before = pass_three(t, config, ais, rolls, k - 1);
        if before.ok {
            let id = ais[k - 1];
            let quiet = crate::turn::deafened(before.world, id);
            let action = crate::turn::plan_action(
                quiet,
                config,
                id,
                crate::turn::roll_at(rolls, 2 * ais.len() + k - 1),
            );
            resolved_keeps_count(quiet.with_action(id, action).logged(Msg::Action(id, action)));
        }
    }
}

/// The count of turns never goes down, and goes up by exactly one in a
/// turn that ends in order, does not win the level with the action of the
/// player, and in which that action took a whole turn. In any other turn
/// it stays as it is.
pub proof fn turn_count_grows_by_whole_turns(
    w: WorldView,
    config: Config,
    action: Action,
    rolls: Seq<usize>,
)
    requires
        w.settings.turn_count < usize::MAX,
    ensures
        ({
            let t = turn_of(w, config, action, rolls);
            let counted = w.data.entities.find_by_name(EntityName::Player) matches Some(player)
                && t.ok && !crate::turn::exit_met(begin(w, player, action).world.data)
                && whole_turn(begin(w, player, action).world, player, action);
            &&& counted ==> t.world.settings.turn_count == w.settings.turn_count + 1
            &&& !counted ==> t.world.settings.turn_count == w.settings.turn_count
        }),
{
    match w.data.entities.find_by_name(EntityName::Player) {
        None => {},
        Some(player) => {
            let cleared = WorldView { log: crate::messaging::MsgLogView::empty(), ..w };
            resolved_keeps_count(
                cleared.with_action(player, action).logged(Msg::Action(player, action)),
            );
            let begun = begin(w, player, action);
            if begun.ok {
                ai_turns_keep_count(begun, config, rolls);
                let whole = whole_turn(begun.world, player, action);
                let others = if whole && crate::turn::lives(begun.world.data.entities, player) {
                    ai_turns(begun, config, rolls)
                } else {
                    begun
                };
                if others.ok {
                    resolved_keeps_count(others.world.logged(Msg::PlayerTurn()));
                }
            }
        },
    }
}

/// Whether two runs of numbers agree in their first `n` places, a run
/// that has ended counting as one that goes on with zeros.
pub open spec fn same_rolls(a: Seq<usize>, b: Seq<usize>, n: nat) -> bool {
    forall|k: int| #![trigger roll_at(a, k)] 0 <= k < n ==> roll_at(a, k) == roll_at(b, k)
}

/// The first pass reads no number but those of its places.
pub proof fn pass_one_reads_its_rolls(
    t: Turn,
    config: Config,
    ais: Seq<EntityId>,
    a: Seq<usize>,
    b: Seq<usize>,
    k: int,
)
    requires
        k <= ais.len(),
        same_rolls(a, b, 3 * ais.len()),
    ensures
        pass_one(t, config, ais, a, k) == pass_one(t, config, ais, b, k),
    decreases k,
{
    if k > 0 {
        pass_one_reads_its_rolls(t, config, ais, a, b, k - 1);
        assert(roll_at(a, k - 1) == roll_at(b, k - 1));
        assert(roll_at(a, ais.len() + k - 1) == roll_at(b, ais.len() + k - 1));
    }
}

/// The last pass reads no number but those of its places.
pub proof fn pass_three_reads_its_rolls(
    t: Turn,
    config: Config,
    ais: Seq<EntityId>,
    a: Seq<usize>,
    b: Seq<usize>,
    k: int,
)
    requires
        k <= ais.len(),
        same_rolls(a, b, 3 * ais.len()),
    ensures
        pass_three(t, config, ais, a, k) == pass_three(t, config, ais, b, k),
    decreases k,
{
    if k > 0 {
        pass_three_reads_its_rolls(t, config, ais, a, b, k - 1);
        assert(roll_at(a, 2 * ais.len() + k - 1) == roll_at(b, 2 * ais.len() + k - 1));
    }
}

/// A turn is determined by the world in which it starts, by the action
/// of the player and by the numbers drawn for the entities that plan,
/// three for each: two turns that start alike, with the same action and
/// with numbers that agree in those places, end alike, in the world, the
/// settings and the log of messages.
pub proof fn turn_is_determined(
    w: WorldView,
    config: Config,
    action: Action,
    a: Seq<usize>,
    b: Seq<usize>,
)
    requires
        w.data.entities.find_by_name(EntityName::Player) matches Some(player) ==> same_rolls(
            a,
            b,
            3 * ai_list(begin(w, player, action).world.data.entities).len(),
        ),
    ensures
        turn_of(w, config, action, a) == turn_of(w, config, action, b),
{
    match w.data.entities.find_by_name(EntityName::Player) {
        None => {},
        Some(player) => {
            let begun = begin(w, player, action);
            let ais = ai_list(begun.world.data.entities);
            let n = ais.len() as int;
            pass_one_reads_its_rolls(begun, config, ais, a, b, n);
            let two = pass_two(pass_one(begun, config, ais, a, n), ais, n);
            pass_three_reads_its_rolls(two, config, ais, a, b, n);
            assert(ai_turns(begun, config, a) == ai_turns(begun, config, b));
        },
    }
}

/// Outside the states in which turns are taken no number that is drawn
/// matters: the step is the same whatever the numbers.
pub proof fn rest_is_determined(g: GameView, a: Seq<usize>, b: Seq<usize>)
    requires
        !crate::game::takes_turns(g.world.settings.state),
    ensures
        stepped_game(g, a) == stepped_game(g, b),
{
}

} // verus!
