//! What the player asks for, what an entity intends to do, and the states
//! of the game.

use crate::input::{KeyDir, MouseClick};
use crate::object::{AiAction, Behavior};
use crate::types::{Direction, EntityId, Pos, Position};
use vstd::prelude::*;

verus! {

/// The top-level state of the game.
#[derive(Clone, Copy, Debug, PartialEq, Eq, Structural)]
pub enum GameState {
    Playing,
    Win,
    Lose,
    Inventory,
    Selection,
    SkillMenu,
    ClassMenu,
    ConfirmQuit,
}

impl GameState {
    /// The states in which a menu is open.
    pub open spec fn is_menu_spec(self) -> bool {
        self == GameState::Inventory || self == GameState::SkillMenu || self
            == GameState::ClassMenu || self == GameState::ConfirmQuit
    }

    #[verifier::when_used_as_spec(is_menu_spec)]
    pub fn is_menu(self) -> (b: bool)
        ensures
            b == self.is_menu_spec(),
    {
        match self {
            GameState::Inventory => true,
            GameState::SkillMenu => true,
            GameState::ClassMenu => true,
            GameState::ConfirmQuit => true,
            _ => false,
        }
    }
}

/// The tempo at which the player moves.
#[derive(Clone, Copy, Debug, PartialEq, Eq, Structural)]
pub enum MoveMode {
    Sneak,
    Walk,
    Run,
}

impl MoveMode {
    /// The next faster tempo; running stays running.
    pub open spec fn increased(self) -> MoveMode {
        match self {
            MoveMode::Sneak => MoveMode::Walk,
            MoveMode::Walk => MoveMode::Run,
            MoveMode::Run => MoveMode::Run,
        }
    }

    /// The next slower tempo; sneaking stays sneaking.
    pub open spec fn decreased(self) -> MoveMode {
        match self {
            MoveMode::Sneak => MoveMode::Sneak,
            MoveMode::Walk => MoveMode::Sneak,
            MoveMode::Run => MoveMode::Walk,
        }
    }

    /// The most momentum that an entity builds up at this tempo: two when
    /// running, one otherwise.
    pub open spec fn max_momentum(self) -> int {
        match self {
            MoveMode::Run => 2,
            _ => 1,
        }
    }

    pub fn increase(self) -> (m: MoveMode)
        ensures
            m == self.increased(),
    {
        match self {
            MoveMode::Sneak => MoveMode::Walk,
            MoveMode::Walk => MoveMode::Run,
            MoveMode::Run => MoveMode::Run,
        }
    }

    pub fn decrease(self) -> (m: MoveMode)
        ensures
            m == self.decreased(),
    {
        match self {
            MoveMode::Sneak => MoveMode::Sneak,
            MoveMode::Walk => MoveMode::Sneak,
            MoveMode::Run => MoveMode::Walk,
        }
    }

    pub fn momentum_limit(self) -> (m: i32)
        ensures
            m == self.max_momentum(),
    {
        match self {
            MoveMode::Run => 2,
            _ => 1,
        }
    }
}

/// Which of the two uses of an item or skill is meant.
#[derive(Clone, Copy, Debug, PartialEq, Eq, Structural)]
pub enum ActionMode {
    Primary,
    Alternate,
}

/// An intent of the player or of a planning entity.
#[derive(Clone, Copy, Debug, PartialEq, Eq, Structural)]
pub enum Action {
    /// Move as far as the reach of the entity allows in the direction.
    Move(Direction),
    /// Strike the entity, which stands at the position.
    Attack(EntityId, Pos),
    /// Change to the behavior.
    StateChange(Behavior),
    Pass,
    /// Pick up the item on the tile of the entity.
    Pickup,
    /// Drop the first item of the inventory.
    DropItem,
    /// Use the first item of the inventory on the tile.
    UseItem(Pos),
    Yell,
    IncreaseMoveMode,
    DecreaseMoveMode,
    NoAction,
}

impl Action {
    /// The actions that use up the turn of the entity.
    pub open spec fn takes_turn_spec(self) -> bool {
        match self {
            Action::Move(_) => true,
            Action::Attack(_, _) => true,
            Action::Pass => true,
            Action::Pickup => true,
            Action::DropItem => true,
            Action::UseItem(_) => true,
            Action::Yell => true,
            Action::StateChange(_) => false,
            Action::IncreaseMoveMode => false,
            Action::DecreaseMoveMode => false,
            Action::NoAction => false,
        }
    }

    #[verifier::when_used_as_spec(takes_turn_spec)]
    pub fn takes_turn(self) -> (b: bool)
        ensures
            b == self.takes_turn_spec(),
    {
        match self {
            Action::Move(_) => true,
            Action::Attack(_, _) => true,
            Action::Pass => true,
            Action::Pickup => true,
            Action::DropItem => true,
            Action::UseItem(_) => true,
            Action::Yell => true,
            _ => false,
        }
    }

    /// The intent that stands for what a planning entity decided: a move
    /// by an offset becomes a move in the direction of the offset, and a
    /// move by nothing no action.
    pub open spec fn of_ai(a: AiAction) -> Action {
        match a {
            AiAction::Move(d) => match Direction::of_delta(d.0 as int, d.1 as int) {
                Some(dir) => Action::Move(dir),
                None => Action::NoAction,
            },
            AiAction::Attack(target, pos) => Action::Attack(target, Position(pos.0, pos.1)),
            AiAction::StateChange(b) => Action::StateChange(b),
        }
    }

    pub fn from_ai(a: AiAction) -> (r: Action)
        ensures
            r == Action::of_ai(a),
    {
        match a {
            AiAction::Move(d) => match Direction::from_delta(d.0, d.1) {
                Some(dir) => Action::Move(dir),
                None => Action::NoAction,
            },
            AiAction::Attack(target, pos) => Action::Attack(target, Position(pos.0, pos.1)),
            AiAction::StateChange(b) => Action::StateChange(b),
        }
    }
}

/// What the player asked for, as the input layer understood it.
#[derive(Clone, Copy, Debug, PartialEq, Eq, Structural)]
pub enum InputAction {
    Move(Direction),
    Pass,
    /// A click on the map: where the mouse is, and the tile under it.
    MapClick(Pos, Pos),
    MouseButton(MouseClick, KeyDir),
    Pickup,
    DropItem,
    DropItemByIndex(usize),
    Yell,
    Inventory,
    SkillMenu,
    ClassMenu,
    Exit,
    Esc,
    ForceExit,
    ExploreAll,
    RegenerateMap,
    GodMode,
    IncreaseMoveMode,
    DecreaseMoveMode,
    OverlayOn,
    OverlayOff,
    /// Start using the first item of the inventory; the next click on the
    /// map picks the tile.
    UseItem,
    /// Use the item at the index of the inventory in the direction.
    UseItemDir(Direction, usize),
    SelectItem(usize),
    CursorToggle,
    CursorReturn,
    CursorMove(Direction, bool, bool),
    CursorApplyItem(ActionMode, usize),
    CursorApplySkill(ActionMode, usize),
    Interact(Option<Direction>),
    /// No input.
    Nothing,
}

} // verus!
