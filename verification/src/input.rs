//! Turns key and mouse events into input actions, and remembers which
//! keys are held.

use crate::action::{ActionMode, GameState, InputAction, MoveMode};
use crate::settings::{Config, GameSettings};
use crate::types::{Direction, Pos};
use std::collections::HashMap;
use std::str::FromStr;
use vstd::prelude::*;
use vstd::string::StringSliceAdditionalSpecFns;

verus! {

broadcast use vstd::std_specs::hash::group_hash_axioms;

/// Whether a key went up, went down, or is still down.
#[derive(Clone, Debug, Copy, Eq, PartialEq, Structural)]
pub enum KeyDir {
    Up,
    Held,
    Down,
}

/// The lower-case form of an ASCII letter; any other byte as it is.
pub open spec fn ascii_lower(b: u8) -> u8 {
    if 65 <= b <= 90 {
        (b + 32) as u8
    } else {
        b
    }
}

/// Whether `text` is `word` but for the case of its ASCII letters, where
/// `word` is in lower case.
pub open spec fn is_word(text: Seq<u8>, word: Seq<u8>) -> bool {
    &&& text.len() == word.len()
    &&& forall|i: int| 0 <= i < word.len() ==> ascii_lower(#[trigger] text[i]) == word[i]
}

/// The bytes of the word for [`KeyDir::Down`].
pub open spec fn word_down() -> Seq<u8> {
    seq![100u8, 111u8, 119u8, 110u8]
}

/// The bytes of the word for [`KeyDir::Held`].
pub open spec fn word_held() -> Seq<u8> {
    seq![104u8, 101u8, 108u8, 100u8]
}

/// The bytes of the word for [`KeyDir::Up`].
pub open spec fn word_up() -> Seq<u8> {
    seq![117u8, 112u8]
}

/// The key direction that `text` names, whatever the case of its letters.
pub open spec fn key_dir_named(text: Seq<u8>) -> Option<KeyDir> {
    if is_word(text, word_down()) {
        Some(KeyDir::Down)
    } else if is_word(text, word_held()) {
        Some(KeyDir::Held)
    } else if is_word(text, word_up()) {
        Some(KeyDir::Up)
    } else {
        None
    }
}

fn lower(b: u8) -> (r: u8)
    ensures
        r == ascii_lower(b),
{
    if 65 <= b && b <= 90 {
        b + 32
    } else {
        b
    }
}

impl KeyDir {
    /// Reads a key direction from its name, "down", "held" or "up" in any
    /// case; any other text is handed back as the error.
    pub fn parse(string: &str) -> (r: Result<KeyDir, String>)
        ensures
            match r {
                Ok(dir) => key_dir_named(string.spec_bytes()) == Some(dir),
                Err(text) => key_dir_named(string.spec_bytes()) is None && text@ == string@,
            },
    {
        let bytes = string.as_bytes();
        let n: usize = bytes.len();
        if n == 4 && lower(bytes[0]) == 100 && lower(bytes[1]) == 111 && lower(bytes[2]) == 119
            && lower(bytes[3]) == 110 {
            return Ok(KeyDir::Down);
        }
        if n == 4 && lower(bytes[0]) == 104 && lower(bytes[1]) == 101 && lower(bytes[2]) == 108
            && lower(bytes[3]) == 100 {
            assert(!is_word(bytes@, word_down())) by {
                assert(ascii_lower(bytes@[0]) != word_down()[0]);
            }
            return Ok(KeyDir::Held);
        }
        if n == 2 && lower(bytes[0]) == 117 && lower(bytes[1]) == 112 {
            return Ok(KeyDir::Up);
        }
        proof {
            let t = bytes@;
            if is_word(t, word_down()) {
                assert(ascii_lower(t[0]) == word_down()[0]);
                assert(ascii_lower(t[1]) == word_down()[1]);
                assert(ascii_lower(t[2]) == word_down()[2]);
                assert(ascii_lower(t[3]) == word_down()[3]);
            }
            if is_word(t, word_held()) {
                assert(ascii_lower(t[0]) == word_held()[0]);
                assert(ascii_lower(t[1]) == word_held()[1]);
                assert(ascii_lower(t[2]) == word_held()[2]);
                assert(ascii_lower(t[3]) == word_held()[3]);
            }
            if is_word(t, word_up()) {
                assert(ascii_lower(t[0]) == word_up()[0]);
                assert(ascii_lower(t[1]) == word_up()[1]);
            }
        }
        Err(string.to_owned())
    }
}

impl FromStr for KeyDir {
    type Err = String;

    /// Reads a key direction from its name, as [`KeyDir::parse`] does.
    fn from_str(string: &str) -> (r: Result<Self, Self::Err>)
        ensures
            match r {
                Ok(dir) => key_dir_named(string.spec_bytes()) == Some(dir),
                Err(text) => key_dir_named(string.spec_bytes()) is None && text@ == string@,
            },
    {
        KeyDir::parse(string)
    }
}

/// What the next direction key applies to.
#[derive(Clone, Debug, Copy, Eq, PartialEq, Structural)]
pub enum Target {
    Item(usize),
    Skill(usize),
}

impl Target {
    pub fn item(index: usize) -> (t: Target)
        ensures
            t == Target::Item(index),
    {
        return Target::Item(index);
    }

    pub fn skill(index: usize) -> (t: Target)
        ensures
            t == Target::Skill(index),
    {
        return Target::Skill(index);
    }
}

#[derive(Clone, Debug, Copy, Eq, PartialEq, Structural)]
pub enum MouseClick {
    Left,
    Right,
    Middle,
}

/// Since when a key is down, in milliseconds, and how often it has
/// repeated since.
#[derive(Clone, Debug, Copy, PartialEq, Eq, Structural)]
pub struct HeldState {
    pub down_time: u64,
    pub repetitions: usize,
}

impl HeldState {
    pub fn new(down_time: u64, repetitions: usize) -> (h: HeldState)
        ensures
            h == (HeldState { down_time: down_time, repetitions: repetitions }),
    {
        return HeldState { down_time, repetitions };
    }

    /// The same state with one more repetition.
    pub fn repeated(&self) -> (h: HeldState)
        requires
            self.repetitions < usize::MAX,
        ensures
            h == (HeldState {
                down_time: self.down_time,
                repetitions: (self.repetitions + 1) as usize,
            }),
    {
        return HeldState::new(self.down_time, self.repetitions + 1);
    }
}

/// An event of the keyboard or the mouse.
#[derive(Clone, Debug, Copy, Eq, PartialEq, Structural)]
pub enum InputEvent {
    Char(char, KeyDir),
    Ctrl(KeyDir),
    Shift(KeyDir),
    Alt(KeyDir),
    MousePos(i32, i32),
    /// The button, the position of the mouse, the tile under it if there
    /// is one, and what the button did.
    MouseButton(MouseClick, Pos, Option<Pos>, KeyDir),
    Esc,
    Tab,
    Quit,
}

/// The state of the modifier keys, of the cursor and of the held keys.
#[derive(Clone, Debug)]
pub struct Input {
    pub ctrl: bool,
    pub alt: bool,
    pub shift: bool,
    pub target: Option<Target>,
    pub cursor: bool,
    /// The held keys, each under the number of its character.
    pub char_held: HashMap<u32, HeldState>,
}

/// The mathematical value of an [`Input`].
pub struct InputView {
    pub ctrl: bool,
    pub alt: bool,
    pub shift: bool,
    pub target: Option<Target>,
    pub cursor: bool,
    pub char_held: Map<u32, HeldState>,
}

impl View for Input {
    type V = InputView;

    open spec fn view(&self) -> InputView {
        InputView {
            ctrl: self.ctrl,
            alt: self.alt,
            shift: self.shift,
            target: self.target,
            cursor: self.cursor,
            char_held: self.char_held@,
        }
    }
}

/// The direction of a digit of the number pad.
pub open spec fn digit_direction(chr: char) -> Option<Direction> {
    if chr == '4' {
        Some(Direction::Left)
    } else if chr == '6' {
        Some(Direction::Right)
    } else if chr == '8' {
        Some(Direction::Up)
    } else if chr == '2' {
        Some(Direction::Down)
    } else if chr == '1' {
        Some(Direction::DownLeft)
    } else if chr == '3' {
        Some(Direction::DownRight)
    } else if chr == '7' {
        Some(Direction::UpLeft)
    } else if chr == '9' {
        Some(Direction::UpRight)
    } else {
        None
    }
}

/// The action of a letter key.
pub open spec fn letter_action(chr: char) -> InputAction {
    if chr == 'q' {
        InputAction::Exit
    } else if chr == 'g' {
        InputAction::Pickup
    } else if chr == 'd' {
        InputAction::DropItem
    } else if chr == 'i' {
        InputAction::Inventory
    } else if chr == 'y' {
        InputAction::Yell
    } else if chr == 'l' {
        InputAction::ExploreAll
    } else if chr == 't' {
        InputAction::GodMode
    } else if chr == 'p' {
        InputAction::RegenerateMap
    } else if chr == 'e' {
        InputAction::IncreaseMoveMode
    } else if chr == 'w' {
        InputAction::DecreaseMoveMode
    } else if chr == 'o' {
        InputAction::OverlayOff
    } else if chr == 'j' {
        InputAction::SkillMenu
    } else if chr == 'h' {
        InputAction::ClassMenu
    } else {
        InputAction::Nothing
    }
}

/// Whether the character is one of the digits 0 to 9.
pub open spec fn is_digit(chr: char) -> bool {
    '0' <= chr <= '9'
}

/// The place of a skill key among the skill keys.
pub open spec fn skill_key(chr: char) -> Option<usize> {
    if chr == 'a' {
        Some(0usize)
    } else if chr == 's' {
        Some(1usize)
    } else if chr == 'd' {
        Some(2usize)
    } else {
        None
    }
}

/// The place of an item key among the item keys.
pub open spec fn item_key(chr: char) -> Option<usize> {
    if chr == 'z' {
        Some(0usize)
    } else if chr == 'x' {
        Some(1usize)
    } else if chr == 'c' {
        Some(2usize)
    } else {
        None
    }
}

/// How many repeat delays fit into the time that a key has been down. A
/// delay of zero repeats without end once any time has passed.
pub open spec fn repeats_in(time_since: int, delay: int) -> int {
    if delay == 0 {
        if time_since == 0 {
            0
        } else {
            usize::MAX as int
        }
    } else if time_since / delay > usize::MAX {
        usize::MAX as int
    } else {
        time_since / delay
    }
}

/// The actions that a held key does not repeat.
pub open spec fn no_repeat(action: InputAction) -> bool {
    action == InputAction::OverlayOff || action == InputAction::Inventory || action
        == InputAction::SkillMenu || action == InputAction::Exit || action
        == InputAction::CursorToggle || action == InputAction::ClassMenu
}

/// What a mouse button does: a left button that goes down over a tile
/// clicks the map there, anything else is reported as it is.
pub open spec fn mouse_button_action(
    clicked: MouseClick,
    mouse_pos: Pos,
    target_pos: Option<Pos>,
    dir: KeyDir,
) -> InputAction {
    if clicked == MouseClick::Left && dir == KeyDir::Down && target_pos is Some {
        InputAction::MapClick(mouse_pos, target_pos->0)
    } else {
        InputAction::MouseButton(clicked, dir)
    }
}

impl InputView {
    /// Shift means running, else control means sneaking, else walking.
    pub open spec fn move_mode(self) -> MoveMode {
        if self.shift {
            MoveMode::Run
        } else if self.ctrl {
            MoveMode::Sneak
        } else {
            MoveMode::Walk
        }
    }

    /// A key is held once it has repeated.
    pub open spec fn is_held(self, chr: char) -> bool {
        self.char_held.contains_key(chr as u32) && self.char_held[chr as u32].repetitions > 0
    }

    /// An item key in cursor mode applies the item and forgets the target.
    pub open spec fn use_item(self, item_index: usize) -> (InputView, InputAction) {
        if self.cursor {
            (
                InputView { target: None, ..self },
                InputAction::CursorApplyItem(ActionMode::Alternate, item_index),
            )
        } else {
            (self, InputAction::Nothing)
        }
    }

    /// A skill key in cursor mode applies the skill.
    pub open spec fn use_skill(self, skill_index: usize) -> InputAction {
        if self.cursor {
            InputAction::CursorApplySkill(ActionMode::Alternate, skill_index)
        } else {
            InputAction::Nothing
        }
    }

    /// The action of a key that is neither an item key nor a skill key.
    pub open spec fn key_to_action(self, chr: char, state: GameState) -> (
        InputView,
        InputAction,
    ) {
        if is_digit(chr) {
            if state.is_menu_spec() {
                (self, InputAction::SelectItem((chr as u32 - '0' as u32) as usize))
            } else if chr == '5' {
                if self.alt {
                    (self, InputAction::Interact(None))
                } else if let Some(Target::Item(index)) = self.target {
                    (self, InputAction::DropItemByIndex(index))
                } else {
                    (self, InputAction::Pass)
                }
            } else if let Some(dir) = digit_direction(chr) {
                if self.cursor {
                    (self, InputAction::CursorMove(dir, self.ctrl, self.shift))
                } else if self.alt {
                    (self, InputAction::Interact(Some(dir)))
                } else if let Some(Target::Item(index)) = self.target {
                    (InputView { target: None, ..self }, InputAction::UseItemDir(dir, index))
                } else {
                    (self, InputAction::Move(dir))
                }
            } else {
                (self, InputAction::Nothing)
            }
        } else if chr == ' ' {
            (self, InputAction::Nothing)
        } else {
            (self, letter_action(chr))
        }
    }

    /// A key that goes up after repeating does nothing more. Any other key
    /// is forgotten and acts.
    pub open spec fn char_up(self, chr: char, state: GameState) -> (InputView, InputAction) {
        if self.is_held(chr) {
            (self, InputAction::Nothing)
        } else {
            let released = InputView { char_held: self.char_held.remove(chr as u32), ..self };
            if let Some(index) = item_key(chr) {
                released.use_item(index)
            } else if let Some(index) = skill_key(chr) {
                (released, released.use_skill(index))
            } else {
                released.key_to_action(chr, state)
            }
        }
    }

    /// A key that goes down: the space bar toggles the cursor, an item or
    /// skill key sets the target.
    pub open spec fn char_down(self, chr: char) -> (InputView, InputAction) {
        let action = if chr == ' ' {
            InputAction::CursorToggle
        } else if chr == 'o' {
            InputAction::OverlayOn
        } else {
            InputAction::Nothing
        };
        let cursor = if chr == ' ' {
            !self.cursor
        } else {
            self.cursor
        };
        let target = if let Some(index) = item_key(chr) {
            Some(Target::Item(index))
        } else if let Some(index) = skill_key(chr) {
            Some(Target::Skill(index))
        } else {
            self.target
        };
        (InputView { cursor: cursor, target: target, ..self }, action)
    }

    /// A key that stays down acts again each time another repeat delay has
    /// passed, unless its action is one that does not repeat.
    pub open spec fn char_held(self, chr: char, time: u64, state: GameState, delay: u64) -> (
        InputView,
        InputAction,
    ) {
        if self.char_held.contains_key(chr as u32) {
            let held = self.char_held[chr as u32];
            let time_since = if time >= held.down_time {
                time - held.down_time
            } else {
                0
            };
            if repeats_in(time_since, delay as int) > held.repetitions {
                let (after, action) = self.key_to_action(chr, state);
                if no_repeat(action) {
                    (after, InputAction::Nothing)
                } else {
                    (
                        InputView {
                            char_held: after.char_held.insert(
                                chr as u32,
                                HeldState {
                                    down_time: held.down_time,
                                    repetitions: (held.repetitions + 1) as usize,
                                },
                            ),
                            ..after
                        },
                        action,
                    )
                }
            } else {
                (self, InputAction::Nothing)
            }
        } else {
            (self, InputAction::Nothing)
        }
    }

    /// The new state of a modifier key.
    pub open spec fn modifier(current: bool, dir: KeyDir) -> bool {
        if dir != KeyDir::Held {
            dir == KeyDir::Down
        } else {
            current
        }
    }

    /// The input state and the action after an event at the time `time`.
    pub open spec fn handle_event(self, state: GameState, event: InputEvent, time: u64, delay: u64)
        -> (InputView, InputAction) {
        let noted = if let InputEvent::Char(chr, KeyDir::Down) = event {
            InputView {
                char_held: self.char_held.insert(
                    chr as u32,
                    HeldState { down_time: time, repetitions: 0 },
                ),
                ..self
            }
        } else {
            self
        };
        match event {
            InputEvent::MousePos(_, _) => (noted, InputAction::Nothing),
            InputEvent::Quit => (noted, InputAction::ForceExit),
            InputEvent::Esc => (noted, InputAction::Esc),
            InputEvent::Tab => (noted, InputAction::CursorReturn),
            InputEvent::Ctrl(dir) => (
                InputView { ctrl: InputView::modifier(noted.ctrl, dir), ..noted },
                InputAction::Nothing,
            ),
            InputEvent::Shift(dir) => (
                InputView { shift: InputView::modifier(noted.shift, dir), ..noted },
                InputAction::Nothing,
            ),
            InputEvent::Alt(dir) => (
                InputView { alt: InputView::modifier(noted.alt, dir), ..noted },
                InputAction::Nothing,
            ),
            InputEvent::Char(chr, dir) => match dir {
                KeyDir::Up => noted.char_up(chr, state),
                KeyDir::Down => noted.char_down(chr),
                KeyDir::Held => noted.char_held(chr, time, state, delay),
            },
            InputEvent::MouseButton(clicked, mouse_pos, target_pos, dir) => (
                noted,
                mouse_button_action(clicked, mouse_pos, target_pos, dir),
            ),
        }
    }
}

fn is_digit_char(chr: char) -> (b: bool)
    ensures
        b == is_digit(chr),
{
    '0' <= chr && chr <= '9'
}

fn skill_key_of(chr: char) -> (r: Option<usize>)
    ensures
        r == skill_key(chr),
{
    if chr == 'a' {
        Some(0)
    } else if chr == 's' {
        Some(1)
    } else if chr == 'd' {
        Some(2)
    } else {
        None
    }
}

fn item_key_of(chr: char) -> (r: Option<usize>)
    ensures
        r == item_key(chr),
{
    if chr == 'z' {
        Some(0)
    } else if chr == 'x' {
        Some(1)
    } else if chr == 'c' {
        Some(2)
    } else {
        None
    }
}

fn repeats(time_since: u64, delay: u64) -> (r: usize)
    ensures
        r == repeats_in(time_since as int, delay as int),
{
    if delay == 0 {
        if time_since == 0 {
            0
        } else {
            usize::MAX
        }
    } else {
        let q: u64 = time_since / delay;
        if q > usize::MAX as u64 {
            usize::MAX
        } else {
            q as usize
        }
    }
}

fn does_not_repeat(action: InputAction) -> (b: bool)
    ensures
        b == no_repeat(action),
{
    action == InputAction::OverlayOff || action == InputAction::Inventory || action
        == InputAction::SkillMenu || action == InputAction::Exit || action
        == InputAction::CursorToggle || action == InputAction::ClassMenu
}

impl Input {
    pub fn new() -> (i: Input)
        ensures
            i@ == (InputView {
                ctrl: false,
                alt: false,
                shift: false,
                target: None,
                cursor: false,
                char_held: Map::<u32, HeldState>::empty(),
            }),
    {
        return Input {
            ctrl: false,
            alt: false,
            shift: false,
            target: None,
            cursor: false,
            char_held: HashMap::new(),
        };
    }

    pub fn move_mode(&self) -> (m: MoveMode)
        ensures
            m == self@.move_mode(),
    {
        if self.shift {
            return MoveMode::Run;
        } else if self.ctrl {
            return MoveMode::Sneak;
        } else {
            return MoveMode::Walk;
        }
    }

    pub fn is_held(&self, chr: char) -> (b: bool)
        ensures
            b == self@.is_held(chr),
    {
        let key: u32 = chr as u32;
        if let Some(held_state) = self.char_held.get(&key) {
            return held_state.repetitions > 0;
        }
        return false;
    }

    /// Handles one event of the keyboard or the mouse at the time `time`,
    /// in milliseconds, and says which action it asks for.
    pub fn handle_event(
        &mut self,
        settings: &mut GameSettings,
        event: InputEvent,
        time: u64,
        config: &Config,
    ) -> (action: InputAction)
        ensures
            *final(settings) == *old(settings),
            (final(self)@, action) == old(self)@.handle_event(
                old(settings).state,
                event,
                time,
                config.repeat_delay,
            ),
    {
        let mut action: InputAction = InputAction::Nothing;
        if let InputEvent::Char(chr, dir) = event {
            if dir == KeyDir::Down {
                let held_state = HeldState { down_time: time, repetitions: 0 };
                self.char_held.insert(chr as u32, held_state);
            }
        }
        match event {
            InputEvent::MousePos(_, _) => {},
            InputEvent::Quit => {
                action = InputAction::ForceExit;
            },
            InputEvent::Esc => {
                action = InputAction::Esc;
            },
            InputEvent::Tab => {
                action = InputAction::CursorReturn;
            },
            InputEvent::Ctrl(dir) => {
                if dir != KeyDir::Held {
                    self.ctrl = dir == KeyDir::Down;
                }
            },
            InputEvent::Shift(dir) => {
                if dir != KeyDir::Held {
                    self.shift = dir == KeyDir::Down;
                }
            },
            InputEvent::Alt(dir) => {
                if dir != KeyDir::Held {
                    self.alt = dir == KeyDir::Down;
                }
            },
            InputEvent::Char(chr, dir) => {
                action = self.handle_char(chr, dir, time, settings, config);
            },
            InputEvent::MouseButton(clicked, mouse_pos, target_pos, dir) => {
                action = self.handle_mouse_button(clicked, mouse_pos, target_pos, dir);
            },
        }
        return action;
    }

    pub fn handle_mouse_button(
        &mut self,
        clicked: MouseClick,
        mouse_pos: Pos,
        target_pos: Option<Pos>,
        dir: KeyDir,
    ) -> (action: InputAction)
        ensures
            final(self)@ == old(self)@,
            action == mouse_button_action(clicked, mouse_pos, target_pos, dir),
    {
        let mut action: InputAction = InputAction::MouseButton(clicked, dir);
        let down: bool = dir == KeyDir::Down;
        match clicked {
            MouseClick::Left => {
                if down {
                    if let Some(target_pos) = target_pos {
                        action = InputAction::MapClick(mouse_pos, target_pos);
                    }
                }
            },
            MouseClick::Middle => {
                action = InputAction::MouseButton(clicked, dir);
            },
            MouseClick::Right => {
                action = InputAction::MouseButton(clicked, dir);
            },
        }
        return action;
    }

    fn handle_char_up(&mut self, chr: char, settings: &GameSettings) -> (action: InputAction)
        ensures
            (final(self)@, action) == old(self)@.char_up(chr, settings.state),
    {
        if self.is_held(chr) {
            return InputAction::Nothing;
        }
        let key: u32 = chr as u32;
        self.char_held.remove(&key);
        if let Some(index) = item_key_of(chr) {
            return self.use_item(index);
        }
        if let Some(index) = skill_key_of(chr) {
            return self.use_skill(index);
        }
        return self.key_to_action(chr, settings);
    }

    pub fn use_item(&mut self, item_index: usize) -> (action: InputAction)
        ensures
            (final(self)@, action) == old(self)@.use_item(item_index),
    {
        if self.cursor {
            self.target = None;
            return InputAction::CursorApplyItem(ActionMode::Alternate, item_index);
        } else {
            return InputAction::Nothing;
        }
    }

    pub fn use_skill(&mut self, skill_index: usize) -> (action: InputAction)
        ensures
            final(self)@ == old(self)@,
            action == old(self)@.use_skill(skill_index),
    {
        if self.cursor {
            return InputAction::CursorApplySkill(ActionMode::Alternate, skill_index);
        } else {
            return InputAction::Nothing;
        }
    }

    pub fn handle_char_down(&mut self, chr: char) -> (action: InputAction)
        ensures
            (final(self)@, action) == old(self)@.char_down(chr),
    {
        let mut action: InputAction = InputAction::Nothing;
        if chr == 'o' {
            action = InputAction::OverlayOn;
        }
        if chr == ' ' {
            self.cursor = !self.cursor;
            action = InputAction::CursorToggle;
        }
        if let Some(index) = skill_key_of(chr) {
            self.target = Some(Target::skill(index));
        }
        if let Some(index) = item_key_of(chr) {
            self.target = Some(Target::item(index));
        }
        return action;
    }

    fn handle_char_held(&mut self, chr: char, time: u64, settings: &GameSettings, config: &Config)
        -> (action: InputAction)
        ensures
            (final(self)@, action) == old(self)@.char_held(
                chr,
                time,
                settings.state,
                config.repeat_delay,
            ),
    {
        let mut action: InputAction = InputAction::Nothing;
        let key: u32 = chr as u32;
        let found: Option<HeldState> = match self.char_held.get(&key) {
            Some(held_state) => Some(*held_state),
            None => None,
        };
        if let Some(held_state) = found {
            let time_since: u64 = if time >= held_state.down_time {
                time - held_state.down_time
            } else {
                0
            };
            let new_repeats: usize = repeats(time_since, config.repeat_delay);
            if new_repeats > held_state.repetitions {
                action = self.key_to_action(chr, settings);
                if does_not_repeat(action) {
                    action = InputAction::Nothing;
                } else {
                    self.char_held.insert(key, held_state.repeated());
                }
            }
        }
        return action;
    }

    fn handle_char(
        &mut self,
        chr: char,
        dir: KeyDir,
        time: u64,
        settings: &GameSettings,
        config: &Config,
    ) -> (action: InputAction)
        ensures
            (final(self)@, action) == match dir {
                KeyDir::Up => old(self)@.char_up(chr, settings.state),
                KeyDir::Down => old(self)@.char_down(chr),
                KeyDir::Held => old(self)@.char_held(
                    chr,
                    time,
                    settings.state,
                    config.repeat_delay,
                ),
            },
    {
        match dir {
            KeyDir::Up => {
                return self.handle_char_up(chr, settings);
            },
            KeyDir::Down => {
                return self.handle_char_down(chr);
            },
            KeyDir::Held => {
                return self.handle_char_held(chr, time, settings, config);
            },
        }
    }

    fn key_to_action(&mut self, chr: char, settings: &GameSettings) -> (action: InputAction)
        ensures
            (final(self)@, action) == old(self)@.key_to_action(chr, settings.state),
    {
        let action: InputAction;
        if is_digit_char(chr) {
            if settings.state.is_menu() {
                action = InputAction::SelectItem((chr as u32 - '0' as u32) as usize);
            } else if chr == '5' {
                if self.alt {
                    action = InputAction::Interact(None);
                } else {
                    if let Some(Target::Item(index)) = self.target {
                        action = InputAction::DropItemByIndex(index);
                    } else {
                        action = InputAction::Pass;
                    }
                }
            } else if let Some(dir) = from_digit(chr) {
                if self.cursor {
                    action = InputAction::CursorMove(dir, self.ctrl, self.shift);
                } else if self.alt {
                    action = InputAction::Interact(Some(dir));
                } else if let Some(Target::Item(index)) = self.target {
                    action = InputAction::UseItemDir(dir, index);
                    self.target = None;
                } else {
                    action = InputAction::Move(dir);
                }
            } else {
                action = InputAction::Nothing;
            }
        } else if chr == ' ' {
            action = InputAction::Nothing;
        } else {
            action = alpha_up_to_action(chr);
        }
        return action;
    }
}

/// The action of a letter key that goes up.
pub fn alpha_up_to_action(chr: char) -> (input_action: InputAction)
    ensures
        input_action == letter_action(chr),
{
    let input_action: InputAction;
    match chr {
        'q' => {
            input_action = InputAction::Exit;
        },
        'g' => {
            input_action = InputAction::Pickup;
        },
        'd' => {
            input_action = InputAction::DropItem;
        },
        'i' => {
            input_action = InputAction::Inventory;
        },
        'y' => {
            input_action = InputAction::Yell;
        },
        'l' => {
            input_action = InputAction::ExploreAll;
        },
        't' => {
            input_action = InputAction::GodMode;
        },
        'p' => {
            input_action = InputAction::RegenerateMap;
        },
        'e' => {
            input_action = InputAction::IncreaseMoveMode;
        },
        'w' => {
            input_action = InputAction::DecreaseMoveMode;
        },
        'o' => {
            input_action = InputAction::OverlayOff;
        },
        'j' => {
            input_action = InputAction::SkillMenu;
        },
        'h' => {
            input_action = InputAction::ClassMenu;
        },
        _ => {
            input_action = InputAction::Nothing;
        },
    }
    return input_action;
}

/// The direction of a digit of the number pad.
pub fn from_digit(chr: char) -> (d: Option<Direction>)
    ensures
        d == digit_direction(chr),
{
    match chr {
        '4' => Some(Direction::Left),
        '6' => Some(Direction::Right),
        '8' => Some(Direction::Up),
        '2' => Some(Direction::Down),
        '1' => Some(Direction::DownLeft),
        '3' => Some(Direction::DownRight),
        '7' => Some(Direction::UpLeft),
        '9' => Some(Direction::UpRight),
        _ => None,
    }
}

} // verus!
