//! The factories that make the entities of the game.

use crate::action::MoveMode;
use crate::entities::{Entities, EntitiesView};
use crate::messaging::{Msg, MsgLog};
use crate::momentum::Momentum;
use crate::object::{Ai, Behavior, DeathCallback, EntityName, Fighter, Item, ObjType, Status, Trap};
use crate::settings::{Config, Stats};
use crate::types::{EntityId, Pos, Position, Reach};
use vstd::prelude::*;

verus! {

/// What a new entity starts with.
#[derive(Clone, Copy, Debug, PartialEq, Eq, Structural)]
pub struct Template {
    pub pos: Pos,
    pub name: EntityName,
    pub chr: char,
    pub blocks: bool,
    pub typ: ObjType,
    pub fighter: Option<Fighter>,
    pub ai: Option<Ai>,
    pub movement: Option<Reach>,
    pub attack: Option<Reach>,
    pub momentum: Option<Momentum>,
    pub move_mode: Option<MoveMode>,
    pub item: Option<Item>,
    pub trap: Option<Trap>,
    /// Whether the entity can hold items.
    pub holds: bool,
}

/// A new entity is not alive without hit points, and does not block its
/// tile then.
pub proof fn spawned_keeps_dead(v: EntitiesView, t: Template, blocking: bool)
    requires
        v.wf(),
        v.dead_when_spent(blocking),
    ensures
        v.spawned(t).dead_when_spent(blocking),
{
    let w = v.spawned(t);
    assert forall|a: int| 0 <= a < w.fighter.len() implies !#[trigger] w.spent(a, blocking) by {
        if a < v.fighter.len() {
            assert(!v.spent(a, blocking));
        }
    }
}

impl Template {
    /// The status of the new entity: alive if it does not fight, or
    /// fights with hit points left.
    pub open spec fn status(self) -> Status {
        Status {
            alive: match self.fighter {
                Some(f) => f.hp > 0,
                None => true,
            },
            frozen: 0,
        }
    }

    /// The behavior of the new entity: one that plans starts idle.
    pub open spec fn behavior(self) -> Option<Behavior> {
        match self.ai {
            Some(_) => Some(Behavior::Idle),
            None => None,
        }
    }

    /// What a planning entity has heard when it is made: nothing yet.
    pub open spec fn heard(self) -> Option<Seq<Msg>> {
        match self.ai {
            Some(_) => Some(Seq::empty()),
            None => None,
        }
    }

    /// The inventory of the new entity.
    pub open spec fn inventory(self) -> Option<Seq<EntityId>> {
        if self.holds {
            Some(Seq::empty())
        } else {
            None
        }
    }

    /// An entity that neither fights, nor plans, nor moves, nor holds
    /// anything.
    pub open spec fn plain(pos: Pos, name: EntityName, chr: char, blocks: bool, typ: ObjType)
        -> Template {
        Template {
            pos: pos,
            name: name,
            chr: chr,
            blocks: blocks,
            typ: typ,
            fighter: None,
            ai: None,
            movement: None,
            attack: None,
            momentum: None,
            move_mode: None,
            item: None,
            trap: None,
            holds: false,
        }
    }
}

fn plain_template(pos: Pos, name: EntityName, chr: char, blocks: bool, typ: ObjType) -> (t: Template)
    ensures
        t == Template::plain(pos, name, chr, blocks, typ),
{
    Template {
        pos: pos,
        name: name,
        chr: chr,
        blocks: blocks,
        typ: typ,
        fighter: None,
        ai: None,
        movement: None,
        attack: None,
        momentum: None,
        move_mode: None,
        item: None,
        trap: None,
        holds: false,
    }
}

impl EntitiesView {
    /// The store with one more entity, made from the template `t`.
    pub open spec fn spawned(self, t: Template) -> EntitiesView {
        let made = self.created();
        let id = self.pos.len() as int;
        EntitiesView {
            pos: made.pos.update(id, Some(t.pos)),
            name: made.name.update(id, Some(t.name)),
            chr: made.chr.update(id, Some(t.chr)),
            blocks: made.blocks.update(id, Some(t.blocks && t.status().alive)),
            typ: made.typ.update(id, Some(t.typ)),
            status: made.status.update(id, Some(t.status())),
            needs_removal: made.needs_removal.update(id, Some(false)),
            animation: made.animation.update(id, Some(Seq::empty())),
            fighter: made.fighter.update(id, t.fighter),
            ai: made.ai.update(id, t.ai),
            behavior: made.behavior.update(id, t.behavior()),
            messages: made.messages.update(id, t.heard()),
            movement: made.movement.update(id, t.movement),
            attack: made.attack.update(id, t.attack),
            momentum: made.momentum.update(id, t.momentum),
            move_mode: made.move_mode.update(id, t.move_mode),
            item: made.item.update(id, t.item),
            trap: made.trap.update(id, t.trap),
            inventory: made.inventory.update(id, t.inventory()),
            ..made
        }
    }
}

/// A new entity keeps the store valid if its momentum is within its
/// limit and if it does not block a tile that another entity blocks.
pub proof fn spawned_keeps_valid(v: EntitiesView, t: Template)
    requires
        v.valid(),
        v.pos.len() < usize::MAX,
        t.momentum matches Some(m) ==> m.wf(),
        t.blocks ==> v.blocker_at(t.pos, None) is None,
    ensures
        v.spawned(t).valid(),
{
    let w = v.spawned(t);
    let id = v.pos.len() as int;
    crate::entities::blocker_from_finds(v, t.pos, None, 0);
    assert forall|i: int, j: int| 0 <= i < j < w.ids.len() implies #[trigger] w.ids[i]
        < #[trigger] w.ids[j] by {
        if j < v.ids.len() {
            assert(v.ids[i] < v.ids[j]);
        } else {
            assert(v.ids[i] < v.pos.len());
        }
    }
    assert forall|i: int| 0 <= i < w.ids.len() implies #[trigger] w.ids[i] < w.pos.len() by {
        if i < v.ids.len() {
            assert(v.ids[i] < v.pos.len());
        }
    }
    assert forall|a: int, b: int|
        #![trigger w.blocks[a], w.blocks[b]]
        0 <= a < w.pos.len() && 0 <= b < w.pos.len() && a != b && w.blocks[a] == Some(true)
            && w.blocks[b] == Some(true) && w.pos[a] is Some implies w.pos[a] != w.pos[b] by {
        if a == id {
            assert(!(v.blocks_at(b, t.pos) && None::<EntityId> != Some(b as usize)));
        } else if b == id {
            assert(!(v.blocks_at(a, t.pos) && None::<EntityId> != Some(a as usize)));
        } else {
            assert(v.blocks[a] == Some(true) && v.blocks[b] == Some(true));
        }
    }
    assert forall|a: int| 0 <= a < w.momentum.len() implies (#[trigger] w.momentum[a] matches Some(
        m,
    ) ==> m.wf()) by {
        if a != id && v.momentum[a] is Some {
            assert(v.momentum[a]->0.wf());
        }
    }
}

/// Makes an entity from the template `t` and announces it.
#[verifier::rlimit(60)]
pub fn spawn(entities: &mut Entities, t: Template, msg_log: &mut MsgLog) -> (id: EntityId)
    requires
        old(entities).wf(),
    ensures
        final(entities).wf(),
        id == old(entities)@.pos.len(),
        final(entities)@ == old(entities)@.spawned(t),
        final(msg_log)@ == old(msg_log)@.log(Msg::SpawnedObject(id)),
{
    assert(old(entities)@.wf());
    let id: EntityId = entities.create();
    entities.pos.insert(id, t.pos);
    entities.name.insert(id, t.name);
    entities.chr.insert(id, t.chr);
    let alive: bool = match t.fighter {
        Some(f) => f.hp > 0,
        None => true,
    };
    entities.blocks.insert(id, t.blocks && alive);
    entities.typ.insert(id, t.typ);
    entities.status.insert(id, Status { alive: alive, frozen: 0 });
    entities.needs_removal.insert(id, false);
    entities.animation.insert_empty(id);
    entities.fighter.put(id, t.fighter);
    entities.ai.put(id, t.ai);
    entities.movement.put(id, t.movement);
    entities.attack.put(id, t.attack);
    entities.momentum.put(id, t.momentum);
    entities.move_mode.put(id, t.move_mode);
    entities.item.put(id, t.item);
    entities.trap.put(id, t.trap);
    let ghost made = old(entities)@.created();
    match t.ai {
        Some(_) => {
            entities.behavior.insert(id, Behavior::Idle);
            entities.messages.insert_empty(id);
        },
        None => {
            assert(entities.behavior@ =~= made.behavior.update(id as int, None));
            assert(entities.messages@ =~= made.messages.update(id as int, None));
        },
    }
    if t.holds {
        entities.inventory.insert_empty(id);
    } else {
        assert(entities.inventory@ =~= made.inventory.update(id as int, None));
    }
    msg_log.log(Msg::SpawnedObject(id));
    id
}

/// The fighter that starts with the values `stats`.
pub open spec fn fighter_of(stats: Stats, on_death: DeathCallback) -> Fighter {
    Fighter {
        max_hp: stats.hp,
        hp: stats.hp,
        defense: stats.defense,
        power: stats.power,
        on_death: on_death,
    }
}

/// The player: it blocks its tile, fights, walks, and holds items.
pub open spec fn player_template(config: Config) -> Template {
    Template {
        fighter: Some(fighter_of(config.player, DeathCallback::Player)),
        movement: Some(Reach::Single(1)),
        attack: Some(Reach::Single(1)),
        momentum: Some(Momentum { mx: 0, my: 0, took_half_turn: false, max: 1 }),
        move_mode: Some(MoveMode::Walk),
        holds: true,
        ..Template::plain(Position(0, 0), EntityName::Player, '@', true, ObjType::Player)
    }
}

/// A monster of the kind `name` at `pos`: it blocks its tile, fights and
/// plans.
pub open spec fn monster_template(stats: Stats, name: EntityName, chr: char, pos: Pos, attack: Reach)
    -> Template {
    Template {
        fighter: Some(fighter_of(stats, DeathCallback::Monster)),
        ai: Some(Ai::Basic),
        movement: Some(Reach::Single(1)),
        attack: Some(attack),
        ..Template::plain(pos, name, chr, true, ObjType::Enemy)
    }
}

/// An item of the kind `item` at `pos`.
pub open spec fn item_template(name: EntityName, chr: char, pos: Pos, item: Item) -> Template {
    Template { item: Some(item), ..Template::plain(pos, name, chr, false, ObjType::Item) }
}

/// A trap of the kind `trap` at `pos`.
pub open spec fn trap_template(name: EntityName, pos: Pos, trap: Trap) -> Template {
    Template { trap: Some(trap), ..Template::plain(pos, name, '^', false, ObjType::Trap) }
}

fn fighter_from(stats: Stats, on_death: DeathCallback) -> (f: Fighter)
    ensures
        f == fighter_of(stats, on_death),
{
    Fighter {
        max_hp: stats.hp,
        hp: stats.hp,
        defense: stats.defense,
        power: stats.power,
        on_death: on_death,
    }
}

pub fn make_player(entities: &mut Entities, config: &Config, msg_log: &mut MsgLog) -> (id: EntityId)
    requires
        old(entities).wf(),
    ensures
        final(entities).wf(),
        id == old(entities)@.pos.len(),
        final(entities)@ == old(entities)@.spawned(player_template(*config)),
        final(msg_log)@ == old(msg_log)@.log(Msg::SpawnedObject(id)),
{
    let mut t = plain_template(Position(0, 0), EntityName::Player, '@', true, ObjType::Player);
    t.fighter = Some(fighter_from(config.player, DeathCallback::Player));
    t.movement = Some(Reach::Single(1));
    t.attack = Some(Reach::Single(1));
    t.momentum = Some(Momentum { mx: 0, my: 0, took_half_turn: false, max: 1 });
    t.move_mode = Some(MoveMode::Walk);
    t.holds = true;
    spawn(entities, t, msg_log)
}

fn make_monster(
    entities: &mut Entities,
    stats: Stats,
    name: EntityName,
    chr: char,
    pos: Pos,
    attack: Reach,
    msg_log: &mut MsgLog,
) -> (id: EntityId)
    requires
        old(entities).wf(),
    ensures
        final(entities).wf(),
        id == old(entities)@.pos.len(),
        final(entities)@ == old(entities)@.spawned(monster_template(stats, name, chr, pos, attack)),
        final(msg_log)@ == old(msg_log)@.log(Msg::SpawnedObject(id)),
{
    let mut t = plain_template(pos, name, chr, true, ObjType::Enemy);
    t.fighter = Some(fighter_from(stats, DeathCallback::Monster));
    t.ai = Some(Ai::Basic);
    t.movement = Some(Reach::Single(1));
    t.attack = Some(attack);
    spawn(entities, t, msg_log)
}

pub fn make_gol(entities: &mut Entities, config: &Config, pos: Pos, msg_log: &mut MsgLog) -> (id:
    EntityId)
    requires
        old(entities).wf(),
    ensures
        final(entities).wf(),
        id == old(entities)@.pos.len(),
        final(entities)@ == old(entities)@.spawned(
            monster_template(config.gol, EntityName::Gol, 'g', pos, Reach::Diag(5)),
        ),
        final(msg_log)@ == old(msg_log)@.log(Msg::SpawnedObject(id)),
{
    make_monster(entities, config.gol, EntityName::Gol, 'g', pos, Reach::Diag(5), msg_log)
}

pub fn make_pawn(entities: &mut Entities, config: &Config, pos: Pos, msg_log: &mut MsgLog) -> (id:
    EntityId)
    requires
        old(entities).wf(),
    ensures
        final(entities).wf(),
        id == old(entities)@.pos.len(),
        final(entities)@ == old(entities)@.spawned(
            monster_template(config.pawn, EntityName::Pawn, 'p', pos, Reach::Single(1)),
        ),
        final(msg_log)@ == old(msg_log)@.log(Msg::SpawnedObject(id)),
{
    make_monster(entities, config.pawn, EntityName::Pawn, 'p', pos, Reach::Single(1), msg_log)
}

fn make_item(
    entities: &mut Entities,
    name: EntityName,
    chr: char,
    pos: Pos,
    item: Item,
    msg_log: &mut MsgLog,
) -> (id: EntityId)
    requires
        old(entities).wf(),
    ensures
        final(entities).wf(),
        id == old(entities)@.pos.len(),
        final(entities)@ == old(entities)@.spawned(item_template(name, chr, pos, item)),
        final(msg_log)@ == old(msg_log)@.log(Msg::SpawnedObject(id)),
{
    let mut t = plain_template(pos, name, chr, false, ObjType::Item);
    t.item = Some(item);
    spawn(entities, t, msg_log)
}

pub fn make_stone(entities: &mut Entities, config: &Config, pos: Pos, msg_log: &mut MsgLog) -> (id:
    EntityId)
    requires
        old(entities).wf(),
    ensures
        final(entities).wf(),
        id == old(entities)@.pos.len(),
        final(entities)@ == old(entities)@.spawned(
            item_template(EntityName::Stone, 'o', pos, Item::Stone),
        ),
        final(msg_log)@ == old(msg_log)@.log(Msg::SpawnedObject(id)),
{
    make_item(entities, EntityName::Stone, 'o', pos, Item::Stone, msg_log)
}

pub fn make_hammer(entities: &mut Entities, config: &Config, pos: Pos, msg_log: &mut MsgLog) -> (id:
    EntityId)
    requires
        old(entities).wf(),
    ensures
        final(entities).wf(),
        id == old(entities)@.pos.len(),
        final(entities)@ == old(entities)@.spawned(
            item_template(EntityName::Hammer, 'h', pos, Item::Hammer),
        ),
        final(msg_log)@ == old(msg_log)@.log(Msg::SpawnedObject(id)),
{
    make_item(entities, EntityName::Hammer, 'h', pos, Item::Hammer, msg_log)
}

/// Makes the goal of the level, which the player must hold to leave.
pub fn make_goal(entities: &mut Entities, config: &Config, pos: Pos, msg_log: &mut MsgLog) -> (id:
    EntityId)
    requires
        old(entities).wf(),
    ensures
        final(entities).wf(),
        id == old(entities)@.pos.len(),
        final(entities)@ == old(entities)@.spawned(
            item_template(EntityName::Goal, 'k', pos, Item::Goal),
        ),
        final(msg_log)@ == old(msg_log)@.log(Msg::SpawnedObject(id)),
{
    make_item(entities, EntityName::Goal, 'k', pos, Item::Goal, msg_log)
}

/// Makes the exit of the level.
pub fn make_exit(entities: &mut Entities, config: &Config, pos: Pos, msg_log: &mut MsgLog) -> (id:
    EntityId)
    requires
        old(entities).wf(),
    ensures
        final(entities).wf(),
        id == old(entities)@.pos.len(),
        final(entities)@ == old(entities)@.spawned(
            Template::plain(pos, EntityName::Exit, '>', false, ObjType::Other),
        ),
        final(msg_log)@ == old(msg_log)@.log(Msg::SpawnedObject(id)),
{
    spawn(entities, plain_template(pos, EntityName::Exit, '>', false, ObjType::Other), msg_log)
}

/// Makes the entity that stands for the mouse pointer.
pub fn make_mouse(entities: &mut Entities, config: &Config, msg_log: &mut MsgLog) -> (id: EntityId)
    requires
        old(entities).wf(),
    ensures
        final(entities).wf(),
        id == old(entities)@.pos.len(),
        final(entities)@ == old(entities)@.spawned(
            Template::plain(Position(-1i32, -1i32), EntityName::Mouse, ' ', false, ObjType::Other),
        ),
        final(msg_log)@ == old(msg_log)@.log(Msg::SpawnedObject(id)),
{
    spawn(
        entities,
        plain_template(Position(-1, -1), EntityName::Mouse, ' ', false, ObjType::Other),
        msg_log,
    )
}

/// Makes a trap of the kind `trap`.
pub fn make_trap(entities: &mut Entities, trap: Trap, pos: Pos, msg_log: &mut MsgLog) -> (id:
    EntityId)
    requires
        old(entities).wf(),
    ensures
        final(entities).wf(),
        id == old(entities)@.pos.len(),
        final(entities)@ == old(entities)@.spawned(
            trap_template(
                match trap {
                    Trap::Spikes => EntityName::SpikeTrap,
                    Trap::Sound => EntityName::SoundTrap,
                },
                pos,
                trap,
            ),
        ),
        final(msg_log)@ == old(msg_log)@.log(Msg::SpawnedObject(id)),
{
    let name = match trap {
        Trap::Spikes => EntityName::SpikeTrap,
        Trap::Sound => EntityName::SoundTrap,
    };
    let mut t = plain_template(pos, name, '^', false, ObjType::Trap);
    t.trap = Some(trap);
    spawn(entities, t, msg_log)
}

} // verus!
