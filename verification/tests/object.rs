use roguelike_engine::action::{Action, GameState, MoveMode};
use roguelike_engine::object::{
    monster_death, player_death, AiAction, AiTurn, Behavior, DeathCallback, Fighter, Item, Object,
};
use roguelike_engine::settings::{GameResult, GameSettings};
use roguelike_engine::types::{Direction, Position};

fn fighter(hp: i32, power: i32, defense: i32, on_death: DeathCallback) -> Fighter {
    Fighter { max_hp: 10, hp, defense, power, on_death }
}

#[test]
fn new_object_has_no_components() {
    let o = Object::new(3, 4, 'g', "gol", true);
    assert_eq!(o.pos(), (3, 4));
    assert_eq!(o.char, 'g');
    assert_eq!(o.name, "gol");
    assert!(o.blocks);
    assert!(!o.alive);
    assert_eq!(o.fighter, None);
    assert_eq!(o.ai, None);
    assert_eq!(o.behavior, None);
    assert_eq!(o.item, None);
    assert_eq!(o.momentum, None);
    assert_eq!(o.movement, None);
    assert_eq!(o.attack, None);
    assert_eq!(o.animation, None);
}

#[test]
fn stone_is_a_plain_object() {
    let s = Object::make_stone(1, 2);
    assert_eq!(s, Object::new(1, 2, 'o', "stone", false));
}

#[test]
fn set_pos_moves_the_object() {
    let mut o = Object::new(0, 0, '@', "player", true);
    o.set_pos(5, -6);
    assert_eq!(o.pos(), (5, -6));
    assert_eq!(o.name, "player");
}

#[test]
fn damage_lowers_hit_points() {
    let mut o = Object::new(0, 0, 'g', "gol", true);
    o.alive = true;
    o.fighter = Some(fighter(10, 1, 0, DeathCallback::Monster));
    o.take_damage(3);
    assert_eq!(o.fighter.unwrap().hp, 7);
    assert!(o.alive);
    o.take_damage(0);
    o.take_damage(-5);
    assert_eq!(o.fighter.unwrap().hp, 7);
    assert_eq!(o.char, 'g');
}

#[test]
fn a_monster_without_hit_points_becomes_remains() {
    let mut o = Object::new(0, 0, 'g', "gol", true);
    o.alive = true;
    o.ai = Some(roguelike_engine::object::Ai::Basic);
    o.fighter = Some(fighter(3, 1, 0, DeathCallback::Monster));
    o.take_damage(3);
    assert!(!o.alive);
    assert_eq!(o.char, '%');
    assert!(!o.blocks);
    assert_eq!(o.fighter, None);
    assert_eq!(o.ai, None);
    assert_eq!(o.name, "remains of gol");
}

#[test]
fn a_player_without_hit_points_keeps_its_fighter() {
    let mut o = Object::new(0, 0, '@', "player", true);
    o.alive = true;
    o.fighter = Some(fighter(3, 1, 0, DeathCallback::Player));
    o.take_damage(5);
    assert!(!o.alive);
    assert_eq!(o.char, '%');
    assert!(o.blocks);
    assert_eq!(o.fighter.unwrap().hp, -2);
    assert_eq!(o.name, "player");
}

#[test]
fn damage_without_fighter_does_nothing() {
    let mut o = Object::new(0, 0, 'o', "stone", false);
    o.alive = true;
    o.take_damage(100);
    assert_eq!(o, {
        let mut same = Object::new(0, 0, 'o', "stone", false);
        same.alive = true;
        same
    });
}

#[test]
fn attack_takes_power_less_defense() {
    let mut a = Object::new(0, 0, '@', "player", true);
    a.fighter = Some(fighter(10, 5, 0, DeathCallback::Player));
    let mut t = Object::new(1, 0, 'g', "gol", true);
    t.alive = true;
    t.fighter = Some(fighter(10, 1, 2, DeathCallback::Monster));
    a.attack(&mut t);
    assert_eq!(t.fighter.unwrap().hp, 7);
    assert_eq!(a.fighter.unwrap().hp, 10);
    t.attack(&mut a);
    assert_eq!(a.fighter.unwrap().hp, 9);
}

#[test]
fn attack_without_effect_changes_nothing() {
    let mut a = Object::new(0, 0, 'g', "gol", true);
    a.fighter = Some(fighter(10, 1, 0, DeathCallback::Monster));
    let mut t = Object::new(1, 0, '@', "player", true);
    t.alive = true;
    t.fighter = Some(fighter(0, 1, 3, DeathCallback::Player));
    a.attack(&mut t);
    assert!(t.alive);
    assert_eq!(t.fighter.unwrap().hp, 0);
    assert_eq!(t.char, '@');
}

#[test]
fn heal_stops_at_the_maximum() {
    let mut o = Object::new(0, 0, '@', "player", true);
    o.fighter = Some(fighter(4, 1, 0, DeathCallback::Player));
    o.heal(3);
    assert_eq!(o.fighter.unwrap().hp, 7);
    o.heal(30);
    assert_eq!(o.fighter.unwrap().hp, 10);
    let mut s = Object::make_stone(0, 0);
    s.heal(5);
    assert_eq!(s.fighter, None);
}

#[test]
fn deaths() {
    let mut p = Object::new(0, 0, '@', "player", true);
    player_death(&mut p);
    assert_eq!(p.char, '%');
    assert!(p.blocks);
    let mut m = Object::new(0, 0, 'p', "pawn", true);
    m.fighter = Some(fighter(1, 1, 1, DeathCallback::Monster));
    monster_death(&mut m);
    assert_eq!(m.name, "remains of pawn");
    assert_eq!(m.fighter, None);
    let mut c = Object::new(0, 0, 'p', "pawn", true);
    DeathCallback::Monster.callback(&mut c);
    assert_eq!(c.name, "remains of pawn");
    let mut d = Object::new(0, 0, '@', "player", true);
    DeathCallback::Player.callback(&mut d);
    assert_eq!(d.name, "player");
    assert_eq!(d.char, '%');
}

#[test]
fn ai_turn_keeps_actions_in_order() {
    let mut turn = AiTurn::new();
    assert!(turn.clone().actions().is_empty());
    turn.add(AiAction::Move((1, 0)));
    turn.add(AiAction::StateChange(Behavior::Idle));
    turn.add(AiAction::Attack(3, (2, 2)));
    assert_eq!(
        turn.actions(),
        vec![AiAction::Move((1, 0)), AiAction::StateChange(Behavior::Idle), AiAction::Attack(3, (2, 2))]
    );
}

#[test]
fn actions_of_planning_entities() {
    assert_eq!(Action::from_ai(AiAction::Move((0, 3))), Action::Move(Direction::Down));
    assert_eq!(Action::from_ai(AiAction::Move((-2, -2))), Action::Move(Direction::UpLeft));
    assert_eq!(Action::from_ai(AiAction::Move((0, 0))), Action::NoAction);
    assert_eq!(Action::from_ai(AiAction::Attack(4, (1, 2))), Action::Attack(4, Position(1, 2)));
    assert_eq!(
        Action::from_ai(AiAction::StateChange(Behavior::Attacking(0))),
        Action::StateChange(Behavior::Attacking(0))
    );
}

#[test]
fn which_actions_take_a_turn() {
    assert!(Action::Move(Direction::Left).takes_turn());
    assert!(Action::Pass.takes_turn());
    assert!(Action::Pickup.takes_turn());
    assert!(Action::DropItem.takes_turn());
    assert!(Action::Yell.takes_turn());
    assert!(Action::UseItem(Position(0, 0)).takes_turn());
    assert!(Action::Attack(1, Position(0, 0)).takes_turn());
    assert!(!Action::StateChange(Behavior::Idle).takes_turn());
    assert!(!Action::IncreaseMoveMode.takes_turn());
    assert!(!Action::DecreaseMoveMode.takes_turn());
    assert!(!Action::NoAction.takes_turn());
}

#[test]
fn modes_states_and_settings() {
    assert_eq!(MoveMode::Sneak.increase(), MoveMode::Walk);
    assert_eq!(MoveMode::Walk.increase(), MoveMode::Run);
    assert_eq!(MoveMode::Run.increase(), MoveMode::Run);
    assert_eq!(MoveMode::Run.decrease(), MoveMode::Walk);
    assert_eq!(MoveMode::Walk.decrease(), MoveMode::Sneak);
    assert_eq!(MoveMode::Sneak.decrease(), MoveMode::Sneak);
    assert_eq!(MoveMode::Run.momentum_limit(), 2);
    assert_eq!(MoveMode::Walk.momentum_limit(), 1);
    assert_eq!(MoveMode::Sneak.momentum_limit(), 1);
    assert!(GameState::Inventory.is_menu());
    assert!(GameState::SkillMenu.is_menu());
    assert!(GameState::ClassMenu.is_menu());
    assert!(GameState::ConfirmQuit.is_menu());
    assert!(!GameState::Playing.is_menu());
    assert!(!GameState::Selection.is_menu());
    assert!(Item::Hammer.is_tool());
    assert!(!Item::Stone.is_tool());
    assert!(!Item::Goal.is_tool());
    let s = GameSettings::new(7, true);
    assert_eq!(s.turn_count, 7);
    assert!(s.god_mode);
    assert_eq!(s.state, GameState::Playing);
    assert!(!s.exiting && s.running && s.render_map);
    assert_eq!(s.level_num, 0);
    assert_ne!(GameResult::Continue, GameResult::Stop);
}
