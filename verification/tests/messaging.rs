use roguelike_engine::action::{Action, GameState, MoveMode};
use roguelike_engine::data::GameData;
use roguelike_engine::entities::Entities;
use roguelike_engine::make::{make_gol, make_player, make_stone};
use roguelike_engine::map::TileMap;
use roguelike_engine::messaging::{Msg, MsgLog};
use roguelike_engine::momentum::Movement;
use roguelike_engine::object::{Behavior, ObjType};
use roguelike_engine::settings::Config;
use roguelike_engine::types::Position;

#[test]
fn log_writes_to_both_queues() {
    let mut log = MsgLog::new();
    assert!(log.messages.is_empty() && log.turn_messages.is_empty());
    log.log(Msg::Pass());
    log.log(Msg::PlayerDeath);
    assert_eq!(log.messages.iter().copied().collect::<Vec<Msg>>(), vec![Msg::Pass(), Msg::PlayerDeath]);
    assert_eq!(log.turn_messages.iter().copied().collect::<Vec<Msg>>(), vec![Msg::Pass(), Msg::PlayerDeath]);
}

#[test]
fn log_front_comes_first() {
    let mut log = MsgLog::new();
    log.log(Msg::Pass());
    log.log_front(Msg::Yell(Position(1, 2)));
    assert_eq!(log.messages.iter().copied().collect::<Vec<Msg>>(), vec![Msg::Yell(Position(1, 2)), Msg::Pass()]);
    assert_eq!(log.turn_messages.iter().copied().collect::<Vec<Msg>>(), vec![Msg::Yell(Position(1, 2)), Msg::Pass()]);
}

#[test]
fn pop_takes_the_oldest_and_keeps_the_turn() {
    let mut log = MsgLog::new();
    assert_eq!(log.pop(), None);
    log.log(Msg::Pass());
    log.log(Msg::ChangeLevel());
    assert_eq!(log.pop(), Some(Msg::Pass()));
    assert_eq!(log.messages.len(), 1);
    assert_eq!(log.turn_messages.len(), 2);
    assert_eq!(log.pop(), Some(Msg::ChangeLevel()));
    assert_eq!(log.pop(), None);
    assert_eq!(log.turn_messages.len(), 2);
}

#[test]
fn clear_empties_both_queues() {
    let mut log = MsgLog::new();
    log.log(Msg::Pass());
    log.pop();
    log.log(Msg::PlayerTurn());
    log.clear();
    assert!(log.messages.is_empty() && log.turn_messages.is_empty());
}

fn named_world() -> GameData {
    let config = Config::standard();
    let mut entities = Entities::new();
    let mut log = MsgLog::new();
    make_player(&mut entities, &config, &mut log);
    make_gol(&mut entities, &config, Position(2, 2), &mut log);
    make_stone(&mut entities, &config, Position(1, 1), &mut log);
    entities.create();
    GameData::new(TileMap::from_dims(5, 5), entities)
}

#[test]
fn lines_of_fixed_text() {
    let data = named_world();
    assert_eq!(Msg::Crushed(0, Position(0, 0), ObjType::Enemy).msg_line(&data), "An object has been crushed");
    assert_eq!(Msg::Sound(0, Position(0, 0), 3, true).msg_line(&data), "");
    assert_eq!(Msg::Pass().msg_line(&data), "Player passed their turn");
    assert_eq!(Msg::SoundTrapTriggered(0, 1).msg_line(&data), "Sound trap triggered");
    assert_eq!(Msg::SpikeTrapTriggered(0, 1).msg_line(&data), "Spike trap triggered");
    assert_eq!(Msg::PlayerDeath.msg_line(&data), "Player died!");
    assert_eq!(Msg::ItemThrow(0, 2, Position(0, 0), Position(1, 1)).msg_line(&data), "Item throw");
    assert_eq!(Msg::Killed(0, 1, 3).msg_line(&data), "Killed");
    assert_eq!(Msg::JumpWall(0, Position(0, 0), Position(0, 2)).msg_line(&data), "Jumped a wall");
    assert_eq!(Msg::WallKick(0, Position(0, 0)).msg_line(&data), "Did a wallkick");
    assert_eq!(Msg::Yell(Position(0, 0)).msg_line(&data), "Yelled");
    assert_eq!(Msg::Collided(0, Position(0, 0)).msg_line(&data), "Collided");
    assert_eq!(Msg::TriedRunWithShield.msg_line(&data), "Can't run with shield!");
    assert_eq!(Msg::SpawnedObject(1).msg_line(&data), "");
    assert_eq!(Msg::ChangeLevel().msg_line(&data), "");
    assert_eq!(Msg::PlayerTurn().msg_line(&data), "");
    assert_eq!(Msg::Action(0, Action::Pass).msg_line(&data), "");
    assert_eq!(Msg::Unavailable(0).msg_line(&data), "");
}

#[test]
fn lines_that_name_entities() {
    let data = named_world();
    assert_eq!(Msg::PickedUp(0, 2).msg_line(&data), "player picked up a stone");
    assert_eq!(Msg::DropItem(0, 2).msg_line(&data), "player dropped a stone");
    assert_eq!(Msg::Attack(1, 0, 7).msg_line(&data), "gol attacked player for 7 damage");
    assert_eq!(Msg::Attack(0, 1, -12).msg_line(&data), "player attacked gol for -12 damage");
    assert_eq!(Msg::Attack(0, 1, 0).msg_line(&data), "player attacked gol for 0 damage");
    assert_eq!(
        Msg::Attack(0, 1, i32::MIN).msg_line(&data),
        "player attacked gol for -2147483648 damage"
    );
    assert_eq!(
        Msg::Attack(0, 1, i32::MAX).msg_line(&data),
        "player attacked gol for 2147483647 damage"
    );
    assert_eq!(Msg::Attack(0, 1, 1090).msg_line(&data), "player attacked gol for 1090 damage");
    assert_eq!(Msg::Moved(1, Movement::Move(2, 3), Position(2, 3)).msg_line(&data), "gol moved");
    assert_eq!(Msg::Moved(3, Movement::Move(2, 3), Position(2, 3)).msg_line(&data), "something moved");
    assert_eq!(Msg::Moved(99, Movement::Move(2, 3), Position(2, 3)).msg_line(&data), "something moved");
    assert_eq!(Msg::HammerHitEntity(0, 1).msg_line(&data), "player hit gol with a hammer");
    assert_eq!(Msg::HammerHitWall(0, Position(0, 1)).msg_line(&data), "player hit a wall with a hammer");
}

#[test]
fn lines_of_states_and_modes() {
    let data = named_world();
    assert_eq!(Msg::StateChange(1, Behavior::Idle).msg_line(&data), "Changed state to Idle");
    assert_eq!(
        Msg::StateChange(1, Behavior::Investigating(Position(3, -4))).msg_line(&data),
        "Changed state to Investigating(Position(3, -4))"
    );
    assert_eq!(Msg::StateChange(1, Behavior::Attacking(0)).msg_line(&data), "Changed state to Attacking(0)");
    assert_eq!(
        Msg::StateChange(1, Behavior::Attacking(usize::MAX)).msg_line(&data),
        format!("Changed state to Attacking({})", usize::MAX)
    );
    assert_eq!(Msg::GameState(GameState::Inventory).msg_line(&data), "Opened Inventory");
    assert_eq!(Msg::GameState(GameState::Playing).msg_line(&data), "Closed Inventory");
    assert_eq!(Msg::GameState(GameState::Selection).msg_line(&data), "");
    assert_eq!(Msg::GameState(GameState::Win).msg_line(&data), "");
    assert_eq!(Msg::MoveMode(MoveMode::Sneak).msg_line(&data), "Sneaking");
    assert_eq!(Msg::MoveMode(MoveMode::Walk).msg_line(&data), "Walking");
    assert_eq!(Msg::MoveMode(MoveMode::Run).msg_line(&data), "Running");
}
