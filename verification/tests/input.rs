use roguelike_engine::action::{ActionMode, GameState, InputAction, MoveMode};
use roguelike_engine::input::{
    alpha_up_to_action, from_digit, HeldState, Input, InputEvent, KeyDir, MouseClick, Target,
};
use roguelike_engine::settings::{Config, GameSettings};
use roguelike_engine::types::{Direction, Position};
use std::str::FromStr;

fn setup() -> (Input, GameSettings, Config) {
    (Input::new(), GameSettings::new(0, false), Config::standard())
}

fn key(input: &mut Input, settings: &mut GameSettings, config: &Config, chr: char, dir: KeyDir, time: u64) -> InputAction {
    input.handle_event(settings, InputEvent::Char(chr, dir), time, config)
}

#[test]
fn key_dir_is_read_in_any_case() {
    assert_eq!(KeyDir::parse("down"), Ok(KeyDir::Down));
    assert_eq!(KeyDir::parse("DOWN"), Ok(KeyDir::Down));
    assert_eq!(KeyDir::parse("Held"), Ok(KeyDir::Held));
    assert_eq!(KeyDir::parse("uP"), Ok(KeyDir::Up));
    assert_eq!(KeyDir::from_str("held"), Ok(KeyDir::Held));
    assert_eq!(KeyDir::parse("sideways"), Err("sideways".to_string()));
    assert_eq!(KeyDir::parse(""), Err(String::new()));
    assert_eq!(KeyDir::parse("dow"), Err("dow".to_string()));
    assert_eq!(KeyDir::parse("downn"), Err("downn".to_string()));
    assert_eq!(KeyDir::parse("u\u{70}"), Ok(KeyDir::Up));
    assert_eq!(KeyDir::parse("d\u{f6}wn"), Err("d\u{f6}wn".to_string()));
}

#[test]
fn targets_and_held_state() {
    assert_eq!(Target::item(2), Target::Item(2));
    assert_eq!(Target::skill(1), Target::Skill(1));
    let held = HeldState::new(17, 3);
    assert_eq!(held.down_time, 17);
    assert_eq!(held.repetitions, 3);
    assert_eq!(held.repeated(), HeldState { down_time: 17, repetitions: 4 });
}

#[test]
fn new_input_is_blank() {
    let input = Input::new();
    assert!(!input.ctrl && !input.alt && !input.shift && !input.cursor);
    assert_eq!(input.target, None);
    assert!(input.char_held.is_empty());
    assert_eq!(input.move_mode(), MoveMode::Walk);
    assert!(!input.is_held('a'));
}

#[test]
fn modifiers_set_the_move_mode() {
    let (mut input, mut settings, config) = setup();
    assert_eq!(input.handle_event(&mut settings, InputEvent::Shift(KeyDir::Down), 0, &config), InputAction::Nothing);
    assert_eq!(input.move_mode(), MoveMode::Run);
    input.handle_event(&mut settings, InputEvent::Shift(KeyDir::Held), 1, &config);
    assert!(input.shift);
    input.handle_event(&mut settings, InputEvent::Shift(KeyDir::Up), 2, &config);
    assert_eq!(input.move_mode(), MoveMode::Walk);
    input.handle_event(&mut settings, InputEvent::Ctrl(KeyDir::Down), 3, &config);
    assert_eq!(input.move_mode(), MoveMode::Sneak);
    input.handle_event(&mut settings, InputEvent::Shift(KeyDir::Down), 4, &config);
    assert_eq!(input.move_mode(), MoveMode::Run);
    input.handle_event(&mut settings, InputEvent::Alt(KeyDir::Down), 5, &config);
    assert!(input.alt);
    assert_eq!(settings, GameSettings::new(0, false));
}

#[test]
fn plain_events() {
    let (mut input, mut settings, config) = setup();
    assert_eq!(input.handle_event(&mut settings, InputEvent::Quit, 0, &config), InputAction::ForceExit);
    assert_eq!(input.handle_event(&mut settings, InputEvent::Esc, 0, &config), InputAction::Esc);
    assert_eq!(input.handle_event(&mut settings, InputEvent::Tab, 0, &config), InputAction::CursorReturn);
    assert_eq!(input.handle_event(&mut settings, InputEvent::MousePos(3, 4), 0, &config), InputAction::Nothing);
}

#[test]
fn mouse_buttons() {
    let (mut input, mut settings, config) = setup();
    let at = Position(100, 200);
    let tile = Position(3, 4);
    assert_eq!(
        input.handle_event(&mut settings, InputEvent::MouseButton(MouseClick::Left, at, Some(tile), KeyDir::Down), 0, &config),
        InputAction::MapClick(at, tile)
    );
    assert_eq!(
        input.handle_mouse_button(MouseClick::Left, at, None, KeyDir::Down),
        InputAction::MouseButton(MouseClick::Left, KeyDir::Down)
    );
    assert_eq!(
        input.handle_mouse_button(MouseClick::Left, at, Some(tile), KeyDir::Up),
        InputAction::MouseButton(MouseClick::Left, KeyDir::Up)
    );
    assert_eq!(
        input.handle_mouse_button(MouseClick::Right, at, Some(tile), KeyDir::Down),
        InputAction::MouseButton(MouseClick::Right, KeyDir::Down)
    );
    assert_eq!(
        input.handle_mouse_button(MouseClick::Middle, at, Some(tile), KeyDir::Down),
        InputAction::MouseButton(MouseClick::Middle, KeyDir::Down)
    );
}

#[test]
fn letters_act_when_released() {
    let (mut input, mut settings, config) = setup();
    assert_eq!(key(&mut input, &mut settings, &config, 'q', KeyDir::Down, 0), InputAction::Nothing);
    assert!(input.char_held.contains_key(&('q' as u32)));
    assert_eq!(key(&mut input, &mut settings, &config, 'q', KeyDir::Up, 10), InputAction::Exit);
    assert!(!input.char_held.contains_key(&('q' as u32)));
    assert_eq!(key(&mut input, &mut settings, &config, 'g', KeyDir::Up, 10), InputAction::Pickup);
    assert_eq!(key(&mut input, &mut settings, &config, 'o', KeyDir::Down, 10), InputAction::OverlayOn);
    assert_eq!(key(&mut input, &mut settings, &config, 'o', KeyDir::Up, 11), InputAction::OverlayOff);
}

#[test]
fn alpha_keys() {
    assert_eq!(alpha_up_to_action('q'), InputAction::Exit);
    assert_eq!(alpha_up_to_action('g'), InputAction::Pickup);
    assert_eq!(alpha_up_to_action('d'), InputAction::DropItem);
    assert_eq!(alpha_up_to_action('i'), InputAction::Inventory);
    assert_eq!(alpha_up_to_action('y'), InputAction::Yell);
    assert_eq!(alpha_up_to_action('l'), InputAction::ExploreAll);
    assert_eq!(alpha_up_to_action('t'), InputAction::GodMode);
    assert_eq!(alpha_up_to_action('p'), InputAction::RegenerateMap);
    assert_eq!(alpha_up_to_action('e'), InputAction::IncreaseMoveMode);
    assert_eq!(alpha_up_to_action('w'), InputAction::DecreaseMoveMode);
    assert_eq!(alpha_up_to_action('o'), InputAction::OverlayOff);
    assert_eq!(alpha_up_to_action('j'), InputAction::SkillMenu);
    assert_eq!(alpha_up_to_action('h'), InputAction::ClassMenu);
    assert_eq!(alpha_up_to_action('u'), InputAction::Nothing);
}

#[test]
fn digits_are_directions() {
    assert_eq!(from_digit('4'), Some(Direction::Left));
    assert_eq!(from_digit('6'), Some(Direction::Right));
    assert_eq!(from_digit('8'), Some(Direction::Up));
    assert_eq!(from_digit('2'), Some(Direction::Down));
    assert_eq!(from_digit('1'), Some(Direction::DownLeft));
    assert_eq!(from_digit('3'), Some(Direction::DownRight));
    assert_eq!(from_digit('7'), Some(Direction::UpLeft));
    assert_eq!(from_digit('9'), Some(Direction::UpRight));
    assert_eq!(from_digit('5'), None);
    assert_eq!(from_digit('0'), None);
    assert_eq!(from_digit('x'), None);
}

#[test]
fn digit_keys_move_pass_and_interact() {
    let (mut input, mut settings, config) = setup();
    assert_eq!(key(&mut input, &mut settings, &config, '4', KeyDir::Up, 0), InputAction::Move(Direction::Left));
    assert_eq!(key(&mut input, &mut settings, &config, '5', KeyDir::Up, 0), InputAction::Pass);
    assert_eq!(key(&mut input, &mut settings, &config, '0', KeyDir::Up, 0), InputAction::Nothing);
    input.alt = true;
    assert_eq!(key(&mut input, &mut settings, &config, '5', KeyDir::Up, 0), InputAction::Interact(None));
    assert_eq!(key(&mut input, &mut settings, &config, '9', KeyDir::Up, 0), InputAction::Interact(Some(Direction::UpRight)));
    input.alt = false;
    input.cursor = true;
    input.ctrl = true;
    assert_eq!(key(&mut input, &mut settings, &config, '2', KeyDir::Up, 0), InputAction::CursorMove(Direction::Down, true, false));
}

#[test]
fn digits_select_items_in_a_menu() {
    let (mut input, mut settings, config) = setup();
    settings.state = GameState::Inventory;
    assert_eq!(key(&mut input, &mut settings, &config, '3', KeyDir::Up, 0), InputAction::SelectItem(3));
    assert_eq!(key(&mut input, &mut settings, &config, '5', KeyDir::Up, 0), InputAction::SelectItem(5));
    settings.state = GameState::Selection;
    assert_eq!(key(&mut input, &mut settings, &config, '3', KeyDir::Up, 0), InputAction::Move(Direction::DownRight));
}

#[test]
fn item_keys_set_the_target() {
    let (mut input, mut settings, config) = setup();
    assert_eq!(key(&mut input, &mut settings, &config, 'x', KeyDir::Down, 0), InputAction::Nothing);
    assert_eq!(input.target, Some(Target::Item(1)));
    assert_eq!(key(&mut input, &mut settings, &config, '5', KeyDir::Up, 1), InputAction::DropItemByIndex(1));
    assert_eq!(input.target, Some(Target::Item(1)));
    assert_eq!(key(&mut input, &mut settings, &config, '6', KeyDir::Up, 2), InputAction::UseItemDir(Direction::Right, 1));
    assert_eq!(input.target, None);
    assert_eq!(key(&mut input, &mut settings, &config, 'x', KeyDir::Up, 3), InputAction::Nothing);
    assert_eq!(key(&mut input, &mut settings, &config, 's', KeyDir::Down, 4), InputAction::Nothing);
    assert_eq!(input.target, Some(Target::Skill(1)));
    assert_eq!(key(&mut input, &mut settings, &config, '6', KeyDir::Up, 5), InputAction::Move(Direction::Right));
    assert_eq!(key(&mut input, &mut settings, &config, 'd', KeyDir::Up, 6), InputAction::Nothing);
}

#[test]
fn cursor_mode_applies_items_and_skills() {
    let (mut input, mut settings, config) = setup();
    assert_eq!(key(&mut input, &mut settings, &config, ' ', KeyDir::Down, 0), InputAction::CursorToggle);
    assert!(input.cursor);
    assert_eq!(key(&mut input, &mut settings, &config, ' ', KeyDir::Up, 1), InputAction::Nothing);
    key(&mut input, &mut settings, &config, 'c', KeyDir::Down, 2);
    assert_eq!(input.target, Some(Target::Item(2)));
    assert_eq!(key(&mut input, &mut settings, &config, 'c', KeyDir::Up, 3), InputAction::CursorApplyItem(ActionMode::Alternate, 2));
    assert_eq!(input.target, None);
    assert_eq!(key(&mut input, &mut settings, &config, 'a', KeyDir::Up, 4), InputAction::CursorApplySkill(ActionMode::Alternate, 0));
    assert_eq!(input.use_item(1), InputAction::CursorApplyItem(ActionMode::Alternate, 1));
    assert_eq!(input.use_skill(2), InputAction::CursorApplySkill(ActionMode::Alternate, 2));
    assert_eq!(input.handle_char_down(' '), InputAction::CursorToggle);
    assert!(!input.cursor);
    assert_eq!(input.use_item(1), InputAction::Nothing);
    assert_eq!(input.use_skill(2), InputAction::Nothing);
}

#[test]
fn held_keys_repeat_after_each_delay() {
    let (mut input, mut settings, config) = setup();
    assert_eq!(config.repeat_delay, 200);
    key(&mut input, &mut settings, &config, '4', KeyDir::Down, 1000);
    assert!(!input.is_held('4'));
    assert_eq!(key(&mut input, &mut settings, &config, '4', KeyDir::Held, 1100), InputAction::Nothing);
    assert_eq!(key(&mut input, &mut settings, &config, '4', KeyDir::Held, 1200), InputAction::Move(Direction::Left));
    assert!(input.is_held('4'));
    assert_eq!(input.char_held.get(&('4' as u32)), Some(&HeldState::new(1000, 1)));
    assert_eq!(key(&mut input, &mut settings, &config, '4', KeyDir::Held, 1399), InputAction::Nothing);
    assert_eq!(key(&mut input, &mut settings, &config, '4', KeyDir::Held, 1400), InputAction::Move(Direction::Left));
    assert_eq!(input.char_held.get(&('4' as u32)), Some(&HeldState::new(1000, 2)));
    assert_eq!(key(&mut input, &mut settings, &config, '4', KeyDir::Up, 1500), InputAction::Nothing);
    assert!(input.char_held.contains_key(&('4' as u32)));
    assert_eq!(key(&mut input, &mut settings, &config, '7', KeyDir::Held, 1500), InputAction::Nothing);
    assert_eq!(key(&mut input, &mut settings, &config, '4', KeyDir::Held, 900), InputAction::Nothing);
}

#[test]
fn some_actions_do_not_repeat() {
    let (mut input, mut settings, config) = setup();
    key(&mut input, &mut settings, &config, 'q', KeyDir::Down, 0);
    assert_eq!(key(&mut input, &mut settings, &config, 'q', KeyDir::Held, 1000), InputAction::Nothing);
    assert_eq!(input.char_held.get(&('q' as u32)), Some(&HeldState::new(0, 0)));
    assert_eq!(key(&mut input, &mut settings, &config, 'q', KeyDir::Up, 1001), InputAction::Exit);
    key(&mut input, &mut settings, &config, 'y', KeyDir::Down, 0);
    assert_eq!(key(&mut input, &mut settings, &config, 'y', KeyDir::Held, 1000), InputAction::Yell);
}

#[test]
fn a_delay_of_zero_repeats_at_once() {
    let (mut input, mut settings, mut config) = setup();
    config.repeat_delay = 0;
    key(&mut input, &mut settings, &config, '6', KeyDir::Down, 5);
    assert_eq!(key(&mut input, &mut settings, &config, '6', KeyDir::Held, 5), InputAction::Nothing);
    assert_eq!(key(&mut input, &mut settings, &config, '6', KeyDir::Held, 6), InputAction::Move(Direction::Right));
    assert_eq!(key(&mut input, &mut settings, &config, '6', KeyDir::Held, 7), InputAction::Move(Direction::Right));
}
