use roguelike_engine::action::InputAction;
use roguelike_engine::audit::momentum_is_wf;
use roguelike_engine::game::Game;
use roguelike_engine::make::{make_gol, make_hammer, make_pawn, make_stone, make_trap};
use roguelike_engine::map::{Tile, TileMap, Wall};
use roguelike_engine::momentum::Momentum;
use roguelike_engine::object::{Fighter, Status, Trap};
use roguelike_engine::settings::Config;
use roguelike_engine::types::{Direction, EntityId, Position};

fn play() -> (Game, EntityId, EntityId) {
    let mut sturdy = Config::standard();
    sturdy.player.hp = 1_000_000;
    let mut game = Game::new(7, sturdy).unwrap();
    game.data.map = TileMap::from_dims(12, 12);
    game.data.entities.pos.insert(0, Position(5, 5));
    let config = Config::standard();
    let gol = make_gol(&mut game.data.entities, &config, Position(8, 5), &mut game.msg_log);
    let pawn = make_pawn(&mut game.data.entities, &config, Position(5, 9), &mut game.msg_log);
    (game, gol, pawn)
}

#[test]
fn a_fresh_world_is_sound() {
    let (game, _gol, _pawn) = play();
    assert!(game.data.is_sound());
    assert!(game.data.entities.blockers_are_apart());
    assert!(game.data.entities.momentum_is_bounded());
    assert!(game.data.entities.is_dead_when_spent());
    assert!(game.data.blockers_are_on_map());
    let fresh = Game::new(7, Config::standard()).unwrap();
    assert!(!fresh.data.is_sound());
    assert!(!fresh.data.blockers_are_on_map());
}

#[test]
fn two_blockers_on_one_tile_are_found() {
    let (mut game, gol, pawn) = play();
    game.data.entities.pos.insert(pawn, Position(8, 5));
    assert!(!game.data.entities.blockers_are_apart());
    assert!(!game.data.is_sound());
    game.data.entities.blocks.insert(gol, false);
    assert!(game.data.entities.blockers_are_apart());
    assert!(game.data.is_sound());
}

#[test]
fn a_momentum_beyond_its_limit_is_found() {
    let (mut game, _gol, _pawn) = play();
    assert!(momentum_is_wf(&Momentum { mx: 2, my: -2, took_half_turn: true, max: 2 }));
    assert!(!momentum_is_wf(&Momentum { mx: 3, my: 0, took_half_turn: false, max: 2 }));
    assert!(!momentum_is_wf(&Momentum { mx: 0, my: i32::MIN, took_half_turn: false, max: i32::MAX }));
    assert!(!momentum_is_wf(&Momentum { mx: 0, my: 0, took_half_turn: false, max: -1 }));
    game.data.entities.momentum.insert(0, Momentum { mx: 0, my: -3, took_half_turn: false, max: 2 });
    assert!(!game.data.entities.momentum_is_bounded());
    assert!(!game.data.is_sound());
}

#[test]
fn an_entity_alive_without_hit_points_is_found() {
    let (mut game, gol, _pawn) = play();
    let f: Fighter = game.data.entities.fighter.get(gol).unwrap();
    game.data.entities.fighter.insert(gol, Fighter { hp: 0, ..f });
    assert!(!game.data.entities.is_dead_when_spent());
    game.data.entities.status.insert(gol, Status { alive: false, frozen: 0 });
    assert!(!game.data.entities.is_dead_when_spent());
    game.data.entities.blocks.insert(gol, false);
    assert!(game.data.entities.is_dead_when_spent());
    assert!(game.data.is_sound());
}

#[test]
fn a_blocker_off_the_map_is_found() {
    let (mut game, gol, _pawn) = play();
    game.data.entities.pos.insert(gol, Position(12, 5));
    assert!(!game.data.blockers_are_on_map());
    assert!(!game.data.is_sound());
    game.data.entities.pos.remove(gol);
    assert!(game.data.is_sound());
}

#[test]
fn the_world_stays_sound_through_a_long_play() {
    let (mut game, gol, pawn) = play();
    let config = Config::standard();
    make_stone(&mut game.data.entities, &config, Position(6, 5), &mut game.msg_log);
    let hammer = make_hammer(&mut game.data.entities, &config, Position(-1, -1), &mut game.msg_log);
    game.data.entities.inventory.push_front(0, hammer);
    make_trap(&mut game.data.entities, Trap::Spikes, Position(7, 5), &mut game.msg_log);
    make_trap(&mut game.data.entities, Trap::Sound, Position(5, 6), &mut game.msg_log);
    game.data.map.set_tile(Position(4, 4), Tile::wall());
    game.data.map.set_tile(Position(6, 6), Tile { left_wall: Wall::ShortWall, ..Tile::empty() });
    game.data.map.set_tile(Position(5, 7), Tile { bottom_wall: Wall::TallWall, ..Tile::empty() });
    assert!(game.data.is_sound());
    let around = [
        Direction::Right,
        Direction::Down,
        Direction::DownLeft,
        Direction::Left,
        Direction::UpLeft,
        Direction::Up,
        Direction::UpRight,
        Direction::DownRight,
    ];
    let mut inputs: Vec<InputAction> = vec![
        InputAction::Move(Direction::Right),
        InputAction::Pickup,
        InputAction::Move(Direction::Right),
        InputAction::Yell,
        InputAction::IncreaseMoveMode,
    ];
    for round in 0..12 {
        for (i, dir) in around.iter().enumerate() {
            inputs.push(InputAction::Move(*dir));
            if (round + i) % 5 == 0 {
                inputs.push(InputAction::Pass);
            }
            if (round + i) % 7 == 0 {
                inputs.push(InputAction::UseItem);
                inputs.push(InputAction::MapClick(Position(0, 0), Position(5 + (i as i32 % 3), 6)));
            }
            if (round + i) % 11 == 0 {
                inputs.push(InputAction::DropItem);
                inputs.push(InputAction::DecreaseMoveMode);
                inputs.push(InputAction::IncreaseMoveMode);
            }
        }
    }
    let mut last_count = 0;
    for input in inputs {
        game.input_action = input;
        assert!(game.step_game().is_ok());
        assert!(game.data.is_sound());
        assert!(game.msg_log.messages.is_empty());
        assert!(game.settings.turn_count >= last_count && game.settings.turn_count <= last_count + 1);
        last_count = game.settings.turn_count;
    }
    assert!(last_count > 20);
    assert!(game.data.entities.contains(0));
    let _ = (gol, pawn);
}
