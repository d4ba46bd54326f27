//! One turn of the game as a function of the world: the action of the
//! player, the turns of the planning entities, and the housekeeping.

use crate::action::Action;
use crate::ai::ai_choice;
use crate::data::DataView;
use crate::entities::EntitiesView;
use crate::handlers::dead_status;
use crate::messaging::{Msg, MsgLogView};
use crate::object::{EntityName, Item, Status};
use crate::resolve::WorldView;
use crate::settings::{Config, GameSettings};
use crate::store::lookup;
use crate::types::EntityId;
use vstd::prelude::*;

verus! {

/// A world in the course of a turn, and whether the turn is still in
/// order. A turn in which a message named what cannot be is over: nothing
/// more happens in it.
pub struct Turn {
    pub world: WorldView,
    pub ok: bool,
}

impl WorldView {
    /// The world with one more message at the end of the log.
    pub open spec fn logged(self, msg: Msg) -> WorldView {
        WorldView { log: self.log.log(msg), ..self }
    }

    /// The world with other entities.
    pub open spec fn with_entities(self, entities: EntitiesView) -> WorldView {
        WorldView { data: DataView { entities: entities, ..self.data }, ..self }
    }

    /// The world after its messages have been resolved, as a turn.
    pub open spec fn settle(self) -> Turn {
        Turn { world: self.resolved(), ok: self.resolves() }
    }

    /// The world in which `id` has the action `action` noted.
    pub open spec fn with_action(self, id: EntityId, action: Action) -> WorldView {
        if id < self.data.entities.action.len() {
            self.with_entities(
                EntitiesView {
                    action: self.data.entities.action.update(id as int, Some(action)),
                    ..self.data.entities
                },
            )
        } else {
            self
        }
    }
}

/// Whether the level is won: the player stands where the exit is and
/// holds the goal.
pub open spec fn exit_met(d: DataView) -> bool {
    match (
        d.entities.find_by_name(EntityName::Player),
        d.entities.find_by_name(EntityName::Exit),
    ) {
        (Some(player), Some(exit)) => {
            &&& lookup(d.entities.pos, player as int) is Some
            &&& lookup(d.entities.pos, exit as int) == lookup(d.entities.pos, player as int)
            &&& d.entities.in_inventory(player, Item::Goal) is Some
        },
        _ => false,
    }
}

/// Whether the entity `i` plans this turn: it plans at all, fights, is
/// alive, is not frozen and is not kept out.
pub open spec fn plans(v: EntitiesView, i: int) -> bool {
    &&& lookup(v.ai, i) is Some
    &&& lookup(v.fighter, i) is Some
    &&& lookup(v.limbo, i) is None
    &&& lookup(v.status, i) matches Some(s) && s.alive && s.frozen == 0
}

/// The entities with an id below `k` that plan this turn, in the order in
/// which they were made.
pub open spec fn ai_upto(v: EntitiesView, k: int) -> Seq<EntityId>
    decreases k,
{
    if k <= 0 {
        Seq::empty()
    } else if plans(v, k - 1) {
        ai_upto(v, k - 1).push((k - 1) as usize)
    } else {
        ai_upto(v, k - 1)
    }
}

/// The entities that plan this turn.
pub open spec fn ai_list(v: EntitiesView) -> Seq<EntityId> {
    ai_upto(v, v.pos.len() as int)
}

/// The roll at the place `k`; zero where the rolls have run out.
pub open spec fn roll_at(rolls: Seq<usize>, k: int) -> usize {
    if 0 <= k < rolls.len() {
        rolls[k]
    } else {
        0
    }
}

/// The intent that the entity `id` forms in the world `w` with the roll
/// `roll`.
pub open spec fn plan_action(w: WorldView, config: Config, id: EntityId, roll: usize) -> Action {
    Action::of_ai(ai_choice(w.data, config, id, roll))
}

/// The first pass for one entity: it plans. A change of behavior is
/// carried out at once and the entity plans again, so that the change
/// does not cost it the turn.
pub open spec fn plan_one(t: Turn, config: Config, id: EntityId, first: usize, second: usize)
    -> Turn {
    if !t.ok {
        t
    } else {
        let action = plan_action(t.world, config, id, first);
        let noted = t.world.with_action(id, action);
        if action is StateChange {
            let changed = noted.logged(Msg::Action(id, action)).settle();
            if !changed.ok {
                changed
            } else {
                Turn {
                    world: changed.world.with_action(
                        id,
                        plan_action(changed.world, config, id, second),
                    ),
                    ok: true,
                }
            }
        } else {
            Turn { world: noted, ok: true }
        }
    }
}

/// The first pass for the first `k` of the entities `ais`.
pub open spec fn pass_one(t: Turn, config: Config, ais: Seq<EntityId>, rolls: Seq<usize>, k: int)
    -> Turn
    decreases k,
{
    if k <= 0 {
        t
    } else {
        plan_one(
            pass_one(t, config, ais, rolls, k - 1),
            config,
            ais[k - 1],
            roll_at(rolls, k - 1),
            roll_at(rolls, ais.len() + k - 1),
        )
    }
}

/// The store after the entity `id` was cleared away if it fights
/// without hit points: it is dead, blocks nothing, shows as a corpse,
/// and fights no more.
pub open spec fn reaped(v: EntitiesView, id: EntityId) -> EntitiesView {
    match lookup(v.fighter, id as int) {
        Some(f) => if f.hp <= 0 {
            EntitiesView {
                status: v.status.update(id as int, dead_status(v.status[id as int])),
                blocks: v.blocks.update(id as int, Some(false)),
                chr: v.chr.update(id as int, Some('%')),
                fighter: v.fighter.update(id as int, None),
                ..v
            }
        } else {
            v
        },
        None => v,
    }
}

/// The second pass for one entity: it carries out the action that it has
/// noted, and is cleared away if that left it without hit points.
pub open spec fn act_one(t: Turn, id: EntityId) -> Turn {
    if !t.ok {
        t
    } else {
        match lookup(t.world.data.entities.action, id as int) {
            Some(action) => {
                let done = t.world.logged(Msg::Action(id, action)).settle();
                if !done.ok {
                    done
                } else {
                    Turn {
                        world: done.world.with_entities(reaped(done.world.data.entities, id)),
                        ok: true,
                    }
                }
            },
            None => t,
        }
    }
}

/// The second pass for the first `k` of the entities `ais`.
pub open spec fn pass_two(t: Turn, ais: Seq<EntityId>, k: int) -> Turn
    decreases k,
{
    if k <= 0 {
        t
    } else {
        act_one(pass_two(t, ais, k - 1), ais[k - 1])
    }
}

/// What an entity has heard, forgotten.
pub open spec fn forgotten(heard: Option<Seq<Msg>>) -> Option<Seq<Msg>> {
    match heard {
        Some(_) => Some(Seq::empty()),
        None => None,
    }
}

/// The world in which the entity `id` has forgotten what it heard.
pub open spec fn deafened(w: WorldView, id: EntityId) -> WorldView {
    if id < w.data.entities.messages.len() {
        w.with_entities(
            EntitiesView {
                messages: w.data.entities.messages.update(
                    id as int,
                    forgotten(w.data.entities.messages[id as int]),
                ),
                ..w.data.entities
            },
        )
    } else {
        w
    }
}

/// The last pass for one entity: it forgets what it heard and plans once
/// more; a change of behavior is carried out, anything else is left.
pub open spec fn replan_one(t: Turn, config: Config, id: EntityId, roll: usize) -> Turn {
    if !t.ok {
        t
    } else {
        let quiet = deafened(t.world, id);
        let action = plan_action(quiet, config, id, roll);
        if action is StateChange {
            quiet.with_action(id, action).logged(Msg::Action(id, action)).settle()
        } else {
            Turn { world: quiet, ok: true }
        }
    }
}

/// The last pass for the first `k` of the entities `ais`.
pub open spec fn pass_three(t: Turn, config: Config, ais: Seq<EntityId>, rolls: Seq<usize>, k: int)
    -> Turn
    decreases k,
{
    if k <= 0 {
        t
    } else {
        replan_one(
            pass_three(t, config, ais, rolls, k - 1),
            config,
            ais[k - 1],
            roll_at(rolls, 2 * ais.len() + k - 1),
        )
    }
}

/// The turns of all planning entities: each plans, then each acts, then
/// each plans once more.
pub open spec fn ai_turns(t: Turn, config: Config, rolls: Seq<usize>) -> Turn {
    let ais = ai_list(t.world.data.entities);
    let n = ais.len() as int;
    pass_three(
        pass_two(pass_one(t, config, ais, rolls, n), ais, n),
        config,
        ais,
        rolls,
        n,
    )
}

/// A status one turn later: a frozen entity thaws by one turn.
pub open spec fn thawed(s: Option<Status>) -> Option<Status> {
    match s {
        Some(s) => Some(
            Status {
                frozen: if s.frozen > 0 {
                    (s.frozen - 1) as usize
                } else {
                    0
                },
                ..s
            },
        ),
        None => None,
    }
}

/// A count of turns one turn later.
pub open spec fn ticked(c: Option<usize>) -> Option<usize> {
    match c {
        Some(c) => Some(
            if c > 0 {
                (c - 1) as usize
            } else {
                0
            },
        ),
        None => None,
    }
}

/// Whether the entity `i` is to be removed at the end of the turn: its
/// count of turns has run out, or it is marked for removal and has no
/// animation left to play.
pub open spec fn due(v: EntitiesView, i: int) -> bool {
    ||| lookup(v.count_down, i) == Some(0usize)
    ||| (lookup(v.needs_removal, i) == Some(true) && match lookup(v.animation, i) {
        Some(a) => a.len() == 0,
        None => true,
    })
}

/// The store `v` without the entities below `k` that are due in `at`.
pub open spec fn swept(v: EntitiesView, at: EntitiesView, k: int) -> EntitiesView
    decreases k,
{
    if k <= 0 {
        v
    } else if due(at, k - 1) {
        swept(v, at, k - 1).removed((k - 1) as usize)
    } else {
        swept(v, at, k - 1)
    }
}

/// The store at the end of a turn: the frozen thaw, the counts of turns
/// go down, and the entities that are due are removed.
pub open spec fn kept_house(v: EntitiesView) -> EntitiesView {
    let aged = EntitiesView {
        status: Seq::new(v.status.len(), |i: int| thawed(v.status[i])),
        count_down: Seq::new(v.count_down.len(), |i: int| ticked(v.count_down[i])),
        ..v
    };
    swept(aged, v, v.pos.len() as int)
}

/// The number of turns after one more, where it can still be counted.
pub open spec fn next_count(n: usize) -> usize {
    if n < usize::MAX {
        (n + 1) as usize
    } else {
        n
    }
}

/// The end of a turn: the turn of the player is announced, the house is
/// kept, and a whole turn is counted.
pub open spec fn finish(t: Turn, whole: bool) -> Turn {
    if !t.ok {
        t
    } else {
        let told = t.world.logged(Msg::PlayerTurn()).settle();
        if !told.ok {
            told
        } else {
            Turn {
                world: WorldView {
                    settings: GameSettings {
                        turn_count: if whole {
                            next_count(told.world.settings.turn_count)
                        } else {
                            told.world.settings.turn_count
                        },
                        ..told.world.settings
                    },
                    ..told.world.with_entities(kept_house(told.world.data.entities))
                },
                ok: true,
            }
        }
    }
}

/// The start of a turn: the log is emptied, the action of the player is
/// noted and carried out.
pub open spec fn begin(w: WorldView, player: EntityId, action: Action) -> Turn {
    (WorldView { log: MsgLogView::empty(), ..w }).with_action(player, action).logged(
        Msg::Action(player, action),
    ).settle()
}

/// Whether the action of the player took a whole turn: it is one that
/// takes a turn, it could be done, and it was not the first half of a
/// move in two half steps.
pub open spec fn whole_turn(w: WorldView, player: EntityId, action: Action) -> bool {
    &&& action.takes_turn_spec()
    &&& !w.log.turn_messages.contains(Msg::Unavailable(player))
    &&& !(action is Move && half_stepped(w.data.entities, player))
}

/// Whether the last step of the entity took half a turn.
pub open spec fn half_stepped(v: EntitiesView, id: EntityId) -> bool {
    lookup(v.momentum, id as int) matches Some(m) && m.took_half_turn
}

/// Whether the player is alive.
pub open spec fn lives(v: EntitiesView, player: EntityId) -> bool {
    lookup(v.status, player as int) matches Some(s) && s.alive
}

/// One turn: the action of the player is carried out, and if the level
/// is won by it, that is all. Else, if the action took a whole turn and
/// the player lives, the planning entities take their turns; then the
/// turn ends. A world without a player has no turn.
pub open spec fn turn_of(w: WorldView, config: Config, action: Action, rolls: Seq<usize>) -> Turn {
    match w.data.entities.find_by_name(EntityName::Player) {
        None => Turn { world: w, ok: false },
        Some(player) => {
            let begun = begin(w, player, action);
            if !begun.ok || exit_met(begun.world.data) {
                begun
            } else {
                let whole = whole_turn(begun.world, player, action);
                let others = if whole && lives(begun.world.data.entities, player) {
                    ai_turns(begun, config, rolls)
                } else {
                    begun
                };
                finish(others, whole)
            }
        },
    }
}

} // verus!
