//! The components that an entity can carry, and the record form of a single
//! entity with the rules of damage and death.

use crate::momentum::Momentum;
use crate::types::{ObjectId, Position, Reach};
use vstd::prelude::*;

verus! {

/// The symbolic name of an entity.
#[derive(Clone, Copy, Debug, PartialEq, Eq, Structural)]
pub enum EntityName {
    Player,
    Gol,
    Pawn,
    Stone,
    Hammer,
    Goal,
    Exit,
    Mouse,
    SpikeTrap,
    SoundTrap,
}

/// The broad kind of an entity.
#[derive(Clone, Copy, Debug, PartialEq, Eq, Structural)]
pub enum ObjType {
    Player,
    Enemy,
    Item,
    Trap,
    Other,
}

/// What a trap does to the entity that steps on it.
#[derive(Clone, Copy, Debug, PartialEq, Eq, Structural)]
pub enum Trap {
    Spikes,
    Sound,
}

/// Whether an entity is alive, and for how many more turns it is frozen.
#[derive(Clone, Copy, Debug, PartialEq, Eq, Structural)]
pub struct Status {
    pub alive: bool,
    pub frozen: usize,
}

/// What an item is.
#[derive(Clone, Copy, Debug, PartialEq, Eq, Structural)]
pub enum Item {
    Stone,
    Goal,
    Hammer,
}

impl Item {
    /// Tools go to the front of an inventory, everything else to the back.
    pub open spec fn is_tool_spec(self) -> bool {
        self == Item::Hammer
    }

    #[verifier::when_used_as_spec(is_tool_spec)]
    pub fn is_tool(self) -> (b: bool)
        ensures
            b == self.is_tool_spec(),
    {
        match self {
            Item::Hammer => true,
            _ => false,
        }
    }
}

#[derive(Clone, Copy, Debug, PartialEq, Eq, Structural)]
pub enum UseResult {
    UsedUp,
    Cancelled,
    Keep,
}

/// How much of a turn an action of the player took.
#[derive(Clone, Copy, Debug, PartialEq, Eq, Structural)]
pub enum PlayerAction {
    TookTurn,
    TookHalfTurn,
    DidntTakeTurn,
    Exit,
}

#[derive(Clone, Copy, Debug, PartialEq, Eq, Structural)]
pub enum PatrolDir {
    Forward,
    Reverse,
}

/// A description of an animation; the simulation only counts them.
#[derive(Clone, Copy, Debug, PartialEq, Eq, Structural)]
pub enum Animation {
    Idle(),
}

/// Marks an entity that takes part in planning.
#[derive(Clone, Copy, Debug, PartialEq, Eq, Structural)]
pub enum Ai {
    Basic,
}

/// The state of an entity that plans its own actions.
#[derive(Clone, Copy, Debug, PartialEq, Eq, Structural)]
pub enum Behavior {
    Idle,
    Investigating(Position),
    Attacking(ObjectId),
}

/// What a planning entity decided to do.
#[derive(Clone, Copy, Debug, PartialEq)]
pub enum AiAction {
    /// Move by the offset.
    Move((i32, i32)),
    /// Strike the entity, which stands at the position.
    Attack(ObjectId, (i32, i32)),
    /// Change to the behavior.
    StateChange(Behavior),
}

/// The actions that one entity planned for one turn, in order.
#[derive(Clone, Debug, PartialEq)]
pub struct AiTurn(pub Vec<AiAction>);

impl View for AiTurn {
    type V = Seq<AiAction>;

    open spec fn view(&self) -> Seq<AiAction> {
        self.0@
    }
}

impl AiTurn {
    pub fn new() -> (t: AiTurn)
        ensures
            t@ == Seq::<AiAction>::empty(),
    {
        return AiTurn(Vec::new());
    }

    pub fn add(&mut self, action: AiAction)
        ensures
            final(self)@ == old(self)@.push(action),
    {
        self.0.push(action);
    }

    pub fn actions(self) -> (v: Vec<AiAction>)
        ensures
            v@ == self@,
    {
        return self.0;
    }
}

/// What happens to an entity when its hit points run out.
#[derive(Clone, Copy, Debug, PartialEq, Eq, Structural)]
pub enum DeathCallback {
    Player,
    Monster,
}

/// The combat values of an entity.
#[derive(Clone, Copy, Debug, PartialEq, Eq, Structural)]
pub struct Fighter {
    pub max_hp: i32,
    pub hp: i32,
    pub defense: i32,
    pub power: i32,
    pub on_death: DeathCallback,
}

/// The damage of one blow: the power of the attacker less the defense of
/// the target, with absent values counting as zero.
pub open spec fn blow_damage(attacker: Option<Fighter>, target: Option<Fighter>) -> int {
    (match attacker {
        Some(f) => f.power as int,
        None => 0,
    }) - (match target {
        Some(f) => f.defense as int,
        None => 0,
    })
}

impl Fighter {
    /// The fighter after losing `damage` hit points; a damage that is not
    /// positive changes nothing.
    pub open spec fn damaged(self, damage: int) -> Fighter {
        if damage > 0 {
            Fighter { hp: (self.hp - damage) as i32, ..self }
        } else {
            self
        }
    }

    /// The fighter after gaining `amount` hit points, up to its maximum.
    pub open spec fn healed(self, amount: int) -> Fighter {
        if self.hp + amount > self.max_hp {
            Fighter { hp: self.max_hp, ..self }
        } else {
            Fighter { hp: (self.hp + amount) as i32, ..self }
        }
    }
}

/// A single entity as one record.
#[derive(Clone, Debug, PartialEq)]
pub struct Object {
    pub x: i32,
    pub y: i32,
    pub char: char,
    pub name: String,
    pub blocks: bool,
    pub alive: bool,
    pub fighter: Option<Fighter>,
    pub ai: Option<Ai>,
    pub behavior: Option<Behavior>,
    pub item: Option<Item>,
    pub momentum: Option<Momentum>,
    pub movement: Option<Reach>,
    pub attack: Option<Reach>,
    pub animation: Option<Animation>,
}

/// The mathematical value of an [`Object`].
pub struct ObjectView {
    pub x: i32,
    pub y: i32,
    pub char: char,
    pub name: Seq<char>,
    pub blocks: bool,
    pub alive: bool,
    pub fighter: Option<Fighter>,
    pub ai: Option<Ai>,
    pub behavior: Option<Behavior>,
    pub item: Option<Item>,
    pub momentum: Option<Momentum>,
    pub movement: Option<Reach>,
    pub attack: Option<Reach>,
    pub animation: Option<Animation>,
}

impl View for Object {
    type V = ObjectView;

    open spec fn view(&self) -> ObjectView {
        ObjectView {
            x: self.x,
            y: self.y,
            char: self.char,
            name: self.name@,
            blocks: self.blocks,
            alive: self.alive,
            fighter: self.fighter,
            ai: self.ai,
            behavior: self.behavior,
            item: self.item,
            momentum: self.momentum,
            movement: self.movement,
            attack: self.attack,
            animation: self.animation,
        }
    }
}

/// The words put before the name of a dead monster.
pub open spec fn remains_prefix() -> Seq<char> {
    "remains of "@
}

impl ObjectView {
    /// A dead player only changes its glyph.
    pub open spec fn player_dead(self) -> ObjectView {
        ObjectView { char: '%', ..self }
    }

    /// A dead monster becomes a corpse: it changes its glyph and its name,
    /// stops blocking, and loses its combat values and its planning.
    pub open spec fn monster_dead(self) -> ObjectView {
        ObjectView {
            char: '%',
            blocks: false,
            fighter: None,
            ai: None,
            name: remains_prefix() + self.name,
            ..self
        }
    }

    /// The object after its death of the given kind.
    pub open spec fn dead(self, kind: DeathCallback) -> ObjectView {
        match kind {
            DeathCallback::Player => self.player_dead(),
            DeathCallback::Monster => self.monster_dead(),
        }
    }

    /// The object after taking `damage`: a fighter loses the hit points, and
    /// if none are left the object is no longer alive and dies in the way
    /// that its fighter names.
    pub open spec fn damaged(self, damage: int) -> ObjectView {
        match self.fighter {
            Some(f) => {
                let hit = f.damaged(damage);
                let wounded = ObjectView { fighter: Some(hit), ..self };
                if hit.hp <= 0 {
                    (ObjectView { alive: false, ..wounded }).dead(hit.on_death)
                } else {
                    wounded
                }
            },
            None => self,
        }
    }

    /// The object after gaining `amount` hit points.
    pub open spec fn healed(self, amount: int) -> ObjectView {
        match self.fighter {
            Some(f) => ObjectView { fighter: Some(f.healed(amount)), ..self },
            None => self,
        }
    }
}

impl Object {
    pub fn new(x: i32, y: i32, chr: char, name: &str, blocks: bool) -> (o: Object)
        ensures
            o@ == (ObjectView {
                x: x,
                y: y,
                char: chr,
                name: name@,
                blocks: blocks,
                alive: false,
                fighter: None,
                ai: None,
                behavior: None,
                item: None,
                momentum: None,
                movement: None,
                attack: None,
                animation: None,
            }),
    {
        Object {
            x: x,
            y: y,
            char: chr,
            name: name.to_owned(),
            blocks: blocks,
            alive: false,
            fighter: None,
            ai: None,
            behavior: None,
            item: None,
            momentum: None,
            movement: None,
            attack: None,
            animation: None,
        }
    }

    pub fn pos(&self) -> (p: (i32, i32))
        ensures
            p == (self.x, self.y),
    {
        (self.x, self.y)
    }

    pub fn set_pos(&mut self, x: i32, y: i32)
        ensures
            final(self)@ == (ObjectView { x: x, y: y, ..old(self)@ }),
    {
        self.x = x;
        self.y = y;
    }

    /// Takes `damage` hit points from the object. Afterwards an object
    /// whose fighter has no hit points left is not alive.
    pub fn take_damage(&mut self, damage: i32)
        requires
            old(self).fighter matches Some(f) ==> damage > 0 ==> f.hp - damage >= i32::MIN,
        ensures
            final(self)@ == old(self)@.damaged(damage as int),
            final(self).fighter matches Some(f) && f.hp <= 0 ==> !final(self).alive,
    {
        let mut death: Option<DeathCallback> = None;
        match self.fighter {
            Some(fighter) => {
                let mut hit: Fighter = fighter;
                if damage > 0 {
                    hit.hp = hit.hp - damage;
                }
                self.fighter = Some(hit);
                if hit.hp <= 0 {
                    self.alive = false;
                    death = Some(hit.on_death);
                }
            },
            None => {},
        }
        match death {
            Some(kind) => kind.callback(self),
            None => {},
        }
    }

    /// Strikes `target` with the power of this object against its defense;
    /// a blow without damage has no effect.
    pub fn attack(&mut self, target: &mut Object)
        requires
            i32::MIN <= blow_damage(old(self).fighter, old(target).fighter) <= i32::MAX,
            old(target).fighter matches Some(f) ==> f.hp - blow_damage(
                old(self).fighter,
                old(target).fighter,
            ) >= i32::MIN,
        ensures
            final(self)@ == old(self)@,
            final(target)@ == if blow_damage(old(self).fighter, old(target).fighter) > 0 {
                old(target)@.damaged(blow_damage(old(self).fighter, old(target).fighter))
            } else {
                old(target)@
            },
    {
        let power: i32 = match self.fighter {
            Some(f) => f.power,
            None => 0,
        };
        let defense: i32 = match target.fighter {
            Some(f) => f.defense,
            None => 0,
        };
        let damage: i32 = power - defense;
        if damage > 0 {
            target.take_damage(damage);
        }
    }

    /// Gives back `amount` hit points, up to the maximum.
    pub fn heal(&mut self, amount: i32)
        requires
            old(self).fighter matches Some(f) ==> i32::MIN <= f.hp + amount <= i32::MAX,
        ensures
            final(self)@ == old(self)@.healed(amount as int),
    {
        match self.fighter {
            Some(fighter) => {
                let mut f: Fighter = fighter;
                f.hp = f.hp + amount;
                if f.hp > f.max_hp {
                    f.hp = f.max_hp;
                }
                self.fighter = Some(f);
            },
            None => {},
        }
    }

    pub fn make_stone(x: i32, y: i32) -> (o: Object)
        ensures
            o@ == Object::new_view(x, y, 'o', "stone"@, false),
    {
        Object::new(x, y, 'o', "stone", false)
    }

    /// The value of a new object.
    pub open spec fn new_view(x: i32, y: i32, chr: char, name: Seq<char>, blocks: bool)
        -> ObjectView {
        ObjectView {
            x: x,
            y: y,
            char: chr,
            name: name,
            blocks: blocks,
            alive: false,
            fighter: None,
            ai: None,
            behavior: None,
            item: None,
            momentum: None,
            movement: None,
            attack: None,
            animation: None,
        }
    }
}

impl DeathCallback {
    /// Applies the death of this kind to `object`.
    pub fn callback(self, object: &mut Object)
        ensures
            final(object)@ == old(object)@.dead(self),
    {
        match self {
            DeathCallback::Player => player_death(object),
            DeathCallback::Monster => monster_death(object),
        }
    }
}

pub fn player_death(player: &mut Object)
    ensures
        final(player)@ == old(player)@.player_dead(),
{
    player.char = '%';
}

pub fn monster_death(monster: &mut Object)
    ensures
        final(monster)@ == old(monster)@.monster_dead(),
{
    monster.char = '%';
    monster.blocks = false;
    monster.fighter = None;
    monster.ai = None;
    monster.name = crate::text::join("remains of ", monster.name.as_str());
}

} // verus!
