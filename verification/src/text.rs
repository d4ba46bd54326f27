//! The line of text that tells of a message.

use crate::action::{GameState, MoveMode};
use crate::data::{DataView, GameData};
use crate::messaging::Msg;
use crate::object::{Behavior, EntityName};
use crate::store::lookup;
use crate::types::{EntityId, Position};
use vstd::prelude::*;
use vstd::string::StringExecFns;

verus! {

/// How one decimal digit is written.
pub open spec fn digit_word(d: int) -> Seq<char> {
    if d == 0 {
        "0"@
    } else if d == 1 {
        "1"@
    } else if d == 2 {
        "2"@
    } else if d == 3 {
        "3"@
    } else if d == 4 {
        "4"@
    } else if d == 5 {
        "5"@
    } else if d == 6 {
        "6"@
    } else if d == 7 {
        "7"@
    } else if d == 8 {
        "8"@
    } else {
        "9"@
    }
}

/// The decimal digits of a number that is not negative, the highest
/// first, without leading zeros.
pub open spec fn digits_text(n: nat) -> Seq<char>
    decreases n,
{
    if n < 10 {
        digit_word(n as int)
    } else {
        digits_text(n / 10) + digit_word((n % 10) as int)
    }
}

/// The decimal digits of a number, with a minus sign before a negative
/// one.
pub open spec fn decimal_text(v: int) -> Seq<char> {
    if v < 0 {
        "-"@ + digits_text((-v) as nat)
    } else {
        digits_text(v as nat)
    }
}

/// The first text followed by the second.
pub(crate) fn join(a: &str, b: &str) -> (s: String)
    ensures
        s@ == a@ + b@,
{
    a.to_owned().concat(b)
}

fn digit(d: u128) -> (s: &'static str)
    requires
        d < 10,
    ensures
        s@ == digit_word(d as int),
{
    if d == 0 {
        "0"
    } else if d == 1 {
        "1"
    } else if d == 2 {
        "2"
    } else if d == 3 {
        "3"
    } else if d == 4 {
        "4"
    } else if d == 5 {
        "5"
    } else if d == 6 {
        "6"
    } else if d == 7 {
        "7"
    } else if d == 8 {
        "8"
    } else {
        "9"
    }
}

fn digits(n: u128) -> (s: String)
    ensures
        s@ == digits_text(n as nat),
    decreases n,
{
    if n < 10 {
        digit(n).to_owned()
    } else {
        digits(n / 10).concat(digit(n % 10))
    }
}

/// Writes a number in decimal digits.
fn number(v: i128) -> (s: String)
    ensures
        s@ == decimal_text(v as int),
{
    if v < 0 {
        let below: u128 = (-(v + 1)) as u128 + 1;
        let d = digits(below);
        join("-", d.as_str())
    } else {
        digits(v as u128)
    }
}

/// The word for an entity name.
pub open spec fn name_word(name: EntityName) -> Seq<char> {
    match name {
        EntityName::Player => "player"@,
        EntityName::Gol => "gol"@,
        EntityName::Pawn => "pawn"@,
        EntityName::Stone => "stone"@,
        EntityName::Hammer => "hammer"@,
        EntityName::Goal => "goal"@,
        EntityName::Exit => "exit"@,
        EntityName::Mouse => "mouse"@,
        EntityName::SpikeTrap => "spike trap"@,
        EntityName::SoundTrap => "sound trap"@,
    }
}

/// The word for the entity `id`: that of its name, or "something" for an
/// entity without a name.
pub open spec fn entity_word(d: DataView, id: EntityId) -> Seq<char> {
    match lookup(d.entities.name, id as int) {
        Some(name) => name_word(name),
        None => "something"@,
    }
}

fn entity_text(data: &GameData, id: EntityId) -> (s: &'static str)
    ensures
        s@ == entity_word(data@, id),
{
    match data.entities.name.get(id) {
        Some(EntityName::Player) => "player",
        Some(EntityName::Gol) => "gol",
        Some(EntityName::Pawn) => "pawn",
        Some(EntityName::Stone) => "stone",
        Some(EntityName::Hammer) => "hammer",
        Some(EntityName::Goal) => "goal",
        Some(EntityName::Exit) => "exit",
        Some(EntityName::Mouse) => "mouse",
        Some(EntityName::SpikeTrap) => "spike trap",
        Some(EntityName::SoundTrap) => "sound trap",
        None => "something",
    }
}

/// How a behavior is written.
pub open spec fn behavior_word(b: Behavior) -> Seq<char> {
    match b {
        Behavior::Idle => "Idle"@,
        Behavior::Investigating(p) => "Investigating(Position("@ + decimal_text(p.0 as int) + ", "@
            + decimal_text(p.1 as int) + "))"@,
        Behavior::Attacking(t) => "Attacking("@ + decimal_text(t as int) + ")"@,
    }
}

fn behavior_text(b: Behavior) -> (s: String)
    ensures
        s@ == behavior_word(b),
{
    match b {
        Behavior::Idle => "Idle".to_owned(),
        Behavior::Investigating(p) => {
            let x = number(p.0 as i128);
            let y = number(p.1 as i128);
            let a = join("Investigating(Position(", x.as_str());
            let b = join(a.as_str(), ", ");
            let c = join(b.as_str(), y.as_str());
            join(c.as_str(), "))")
        },
        Behavior::Attacking(t) => {
            let n = number(t as i128);
            let a = join("Attacking(", n.as_str());
            join(a.as_str(), ")")
        },
    }
}

impl Msg {
    /// The line that tells of the message; empty for a message of which
    /// nothing is told.
    pub open spec fn line_text(self, d: DataView) -> Seq<char> {
        match self {
            Msg::Crushed(_, _, _) => "An object has been crushed"@,
            Msg::Pass() => "Player passed their turn"@,
            Msg::SoundTrapTriggered(_, _) => "Sound trap triggered"@,
            Msg::SpikeTrapTriggered(_, _) => "Spike trap triggered"@,
            Msg::PlayerDeath => "Player died!"@,
            Msg::PickedUp(entity, item) => entity_word(d, entity) + " picked up a "@ + entity_word(
                d,
                item,
            ),
            Msg::DropItem(entity, item) => entity_word(d, entity) + " dropped a "@ + entity_word(
                d,
                item,
            ),
            Msg::ItemThrow(_, _, _, _) => "Item throw"@,
            Msg::Attack(attacker, attacked, damage) => entity_word(d, attacker) + " attacked "@
                + entity_word(d, attacked) + " for "@ + decimal_text(damage as int) + " damage"@,
            Msg::Killed(_, _, _) => "Killed"@,
            Msg::Moved(id, _, _) => entity_word(d, id) + " moved"@,
            Msg::JumpWall(_, _, _) => "Jumped a wall"@,
            Msg::WallKick(_, _) => "Did a wallkick"@,
            Msg::StateChange(_, behavior) => "Changed state to "@ + behavior_word(behavior),
            Msg::Yell(_) => "Yelled"@,
            Msg::Collided(_, _) => "Collided"@,
            Msg::GameState(state) => match state {
                GameState::Inventory => "Opened Inventory"@,
                GameState::Playing => "Closed Inventory"@,
                _ => ""@,
            },
            Msg::MoveMode(mode) => match mode {
                MoveMode::Sneak => "Sneaking"@,
                MoveMode::Walk => "Walking"@,
                MoveMode::Run => "Running"@,
            },
            Msg::TriedRunWithShield => "Can't run with shield!"@,
            Msg::HammerHitEntity(ent, target) => entity_word(d, ent) + " hit "@ + entity_word(
                d,
                target,
            ) + " with a hammer"@,
            Msg::HammerHitWall(ent, _) => entity_word(d, ent) + " hit a wall with a hammer"@,
            _ => ""@,
        }
    }

    /// The line that tells of the message.
    pub fn msg_line(&self, game_data: &GameData) -> (s: String)
        ensures
            s@ == self.line_text(game_data@),
    {
        match self {
            Msg::Crushed(_obj_id, _pos, _obj_type) => {
                return "An object has been crushed".to_owned();
            },
            Msg::Pass() => {
                return "Player passed their turn".to_owned();
            },
            Msg::SoundTrapTriggered(_trap, _entity) => {
                return "Sound trap triggered".to_owned();
            },
            Msg::SpikeTrapTriggered(_trap, _entity) => {
                return "Spike trap triggered".to_owned();
            },
            Msg::PlayerDeath => {
                return "Player died!".to_owned();
            },
            Msg::PickedUp(entity, item) => {
                let a = join(entity_text(game_data, *entity), " picked up a ");
                return join(a.as_str(), entity_text(game_data, *item));
            },
            Msg::DropItem(entity, item) => {
                let a = join(entity_text(game_data, *entity), " dropped a ");
                return join(a.as_str(), entity_text(game_data, *item));
            },
            Msg::ItemThrow(_thrower, _item, _start, _end) => {
                return "Item throw".to_owned();
            },
            Msg::Attack(attacker, attacked, damage) => {
                let n = number(*damage as i128);
                let a = join(entity_text(game_data, *attacker), " attacked ");
                let b = join(a.as_str(), entity_text(game_data, *attacked));
                let c = join(b.as_str(), " for ");
                let d = join(c.as_str(), n.as_str());
                return join(d.as_str(), " damage");
            },
            Msg::Killed(_attacker, _attacked, _damage) => {
                return "Killed".to_owned();
            },
            Msg::Moved(object_id, _movement, _pos) => {
                return join(entity_text(game_data, *object_id), " moved");
            },
            Msg::JumpWall(_object_id, _start, _end) => {
                return "Jumped a wall".to_owned();
            },
            Msg::WallKick(_object_id, _pos) => {
                return "Did a wallkick".to_owned();
            },
            Msg::StateChange(_object_id, behavior) => {
                let b = behavior_text(*behavior);
                return join("Changed state to ", b.as_str());
            },
            Msg::Yell(_pos) => {
                return "Yelled".to_owned();
            },
            Msg::Collided(_object_id, _pos) => {
                return "Collided".to_owned();
            },
            Msg::GameState(game_state) => {
                match game_state {
                    GameState::Inventory => {
                        return "Opened Inventory".to_owned();
                    },
                    GameState::Playing => {
                        return "Closed Inventory".to_owned();
                    },
                    _ => {
                        return "".to_owned();
                    },
                }
            },
            Msg::MoveMode(move_mode) => {
                match move_mode {
                    MoveMode::Sneak => {
                        return "Sneaking".to_owned();
                    },
                    MoveMode::Walk => {
                        return "Walking".to_owned();
                    },
                    MoveMode::Run => {
                        return "Running".to_owned();
                    },
                }
            },
            Msg::TriedRunWithShield => {
                return "Can't run with shield!".to_owned();
            },
            Msg::HammerHitEntity(ent, target) => {
                let a = join(entity_text(game_data, *ent), " hit ");
                let b = join(a.as_str(), entity_text(game_data, *target));
                return join(b.as_str(), " with a hammer");
            },
            Msg::HammerHitWall(ent, _pos) => {
                return join(entity_text(game_data, *ent), " hit a wall with a hammer");
            },
            _ => {
                return "".to_owned();
            },
        }
    }
}

} // verus!
