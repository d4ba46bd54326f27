use roguelike_engine::act::player_move_or_attack;
use roguelike_engine::action::MoveMode;
use roguelike_engine::data::GameData;
use roguelike_engine::entities::Entities;
use roguelike_engine::make::{make_gol, make_player};
use roguelike_engine::map::{Tile, TileMap, Wall};
use roguelike_engine::messaging::{Msg, MsgLog};
use roguelike_engine::momentum::{Momentum, Movement};
use roguelike_engine::movement::{
    calculate_move, check_collision, line_inclusive, move_just_before, move_valid, Collision,
};
use roguelike_engine::object::{ObjType, PlayerAction};
use roguelike_engine::settings::{Config, GameSettings};
use roguelike_engine::types::{EntityId, MoveAction, Position, Reach};

fn world(player_pos: Position) -> (GameData, EntityId) {
    let config = Config::standard();
    let mut entities = Entities::new();
    let mut log = MsgLog::new();
    let player = make_player(&mut entities, &config, &mut log);
    entities.pos.insert(player, player_pos);
    (GameData::new(TileMap::from_dims(10, 10), entities), player)
}

fn add_gol(data: &mut GameData, pos: Position) -> EntityId {
    let mut log = MsgLog::new();
    make_gol(&mut data.entities, &Config::standard(), pos, &mut log)
}

#[test]
fn collision_variants() {
    assert!(Collision::NoCollision(1, 2).no_collsion());
    assert!(!Collision::BlockedTile((1, 2), (0, 2)).no_collsion());
    assert!(!Collision::Wall((1, 2), (0, 2)).no_collsion());
    assert!(!Collision::Entity(3, (0, 2)).no_collsion());
    assert_eq!(Collision::NoCollision(1, 2).move_location(), (1, 2));
    assert_eq!(Collision::BlockedTile((1, 2), (0, 2)).move_location(), (0, 2));
    assert_eq!(Collision::Wall((1, 2), (0, 3)).move_location(), (0, 3));
    assert_eq!(Collision::Entity(3, (0, 4)).move_location(), (0, 4));
}

#[test]
fn a_clear_line_has_no_collision() {
    let (data, player) = world(Position(4, 4));
    assert_eq!(check_collision(player, &data, 3, 0), Collision::NoCollision(7, 4));
    assert_eq!(check_collision(player, &data, 0, 0), Collision::NoCollision(4, 4));
    assert_eq!(check_collision(player, &data, -4, -4), Collision::NoCollision(0, 0));
    assert!(move_valid(player, &data, 2, 2));
    assert_eq!(move_just_before(player, &data, 2, 2), None);
}

#[test]
fn leaving_the_map_is_a_wall_at_the_start() {
    let (data, player) = world(Position(4, 4));
    assert_eq!(check_collision(player, &data, 6, 0), Collision::Wall((4, 4), (4, 4)));
    assert_eq!(check_collision(player, &data, 0, -5), Collision::Wall((4, 4), (4, 4)));
    assert_eq!(check_collision(player, &data, i32::MAX, 0), Collision::Wall((4, 4), (4, 4)));
    assert!(!move_valid(player, &data, 6, 0));
    assert_eq!(move_just_before(player, &data, 6, 0), None);
}

#[test]
fn a_blocked_tile_stops_the_move_before_it() {
    let (mut data, player) = world(Position(4, 4));
    data.map.set_tile(Position(7, 4), Tile::wall());
    assert_eq!(check_collision(player, &data, 5, 0), Collision::BlockedTile((7, 4), (6, 4)));
    assert_eq!(check_collision(player, &data, 2, 0), Collision::NoCollision(6, 4));
    assert_eq!(move_just_before(player, &data, 5, 0), Some((6, 4)));
    data.map.set_tile(Position(5, 4), Tile::water());
    assert_eq!(check_collision(player, &data, 5, 0), Collision::BlockedTile((5, 4), (4, 4)));
    assert_eq!(move_just_before(player, &data, 5, 0), None);
}

#[test]
fn an_entity_in_the_way_is_found() {
    let (mut data, player) = world(Position(4, 4));
    let gol = add_gol(&mut data, Position(4, 1));
    assert_eq!(check_collision(player, &data, 0, -4), Collision::Entity(gol, (4, 2)));
    assert_eq!(check_collision(gol, &data, 0, 4), Collision::Entity(player, (4, 3)));
    data.entities.blocks.insert(gol, false);
    assert_eq!(check_collision(player, &data, 0, -4), Collision::NoCollision(4, 0));
}

#[test]
fn a_wall_is_found_where_the_tile_behind_it_is_free() {
    let (mut data, player) = world(Position(4, 4));
    data.map.set_tile(Position(4, 4), Tile { bottom_wall: Wall::ShortWall, ..Tile::empty() });
    assert_eq!(check_collision(player, &data, 0, 1), Collision::Wall((4, 5), (4, 4)));
    assert_eq!(check_collision(player, &data, 0, 3), Collision::Wall((4, 5), (4, 4)));
    data.map.set_tile(Position(6, 4), Tile { left_wall: Wall::TallWall, ..Tile::empty() });
    assert_eq!(check_collision(player, &data, 4, 0), Collision::Wall((6, 4), (5, 4)));
}

#[test]
fn a_tile_or_an_entity_behind_a_wall_comes_before_the_wall() {
    let (mut data, player) = world(Position(4, 4));
    let gol = add_gol(&mut data, Position(4, 5));
    data.map.set_tile(Position(4, 4), Tile { bottom_wall: Wall::ShortWall, ..Tile::empty() });
    assert_eq!(check_collision(player, &data, 0, 1), Collision::Entity(gol, (4, 4)));
    assert_eq!(check_collision(gol, &data, 0, -1), Collision::Entity(player, (4, 5)));
    data.map.set_tile(Position(4, 3), Tile { bottom_wall: Wall::ShortWall, ..Tile::wall() });
    assert_eq!(check_collision(player, &data, 0, -1), Collision::BlockedTile((4, 3), (4, 4)));
}

#[test]
fn line_through_a_tile() {
    assert_eq!(line_inclusive(4, 4, 1, 0), vec![(4, 4), (5, 4)]);
    assert_eq!(line_inclusive(4, 4, -1, 1), vec![(4, 4), (3, 5)]);
    assert_eq!(line_inclusive(0, 0, 0, 0), vec![]);
    assert_eq!(line_inclusive(2, 2, 2, 1), vec![(1, 2), (2, 2), (3, 3), (4, 3)]);
}

#[test]
fn a_free_move_goes_to_its_end() {
    let (data, player) = world(Position(4, 4));
    assert_eq!(calculate_move(MoveAction::Right, Reach::Single(1), player, &data), Some(Movement::Move(5, 4)));
    assert_eq!(calculate_move(MoveAction::UpLeft, Reach::Single(3), player, &data), Some(Movement::Move(1, 1)));
    assert_eq!(calculate_move(MoveAction::Center, Reach::Single(1), player, &data), Some(Movement::Move(4, 4)));
    assert_eq!(calculate_move(MoveAction::Down, Reach::Horiz(2), player, &data), Some(Movement::Move(4, 6)));
}

#[test]
fn a_move_that_the_reach_does_not_allow_is_none() {
    let (data, player) = world(Position(4, 4));
    assert_eq!(calculate_move(MoveAction::Right, Reach::Diag(1), player, &data), None);
    assert_eq!(calculate_move(MoveAction::UpLeft, Reach::Horiz(1), player, &data), None);
    assert_eq!(calculate_move(MoveAction::Center, Reach::Horiz(1), player, &data), None);
}

#[test]
fn a_blocked_tile_ends_the_move_before_it() {
    let (mut data, player) = world(Position(4, 4));
    data.map.set_tile(Position(6, 4), Tile::wall());
    assert_eq!(calculate_move(MoveAction::Right, Reach::Single(3), player, &data), Some(Movement::Move(5, 4)));
    data.map.set_tile(Position(5, 4), Tile::wall());
    assert_eq!(calculate_move(MoveAction::Right, Reach::Single(3), player, &data), Some(Movement::Move(4, 4)));
}

#[test]
fn an_entity_in_the_way_is_attacked() {
    let (mut data, player) = world(Position(4, 4));
    let gol = add_gol(&mut data, Position(6, 4));
    assert_eq!(calculate_move(MoveAction::Right, Reach::Single(3), player, &data), Some(Movement::Attack(5, 4, gol)));
    assert_eq!(calculate_move(MoveAction::Right, Reach::Single(1), player, &data), Some(Movement::Move(5, 4)));
    assert_eq!(calculate_move(MoveAction::Left, Reach::Single(1), gol, &data), Some(Movement::Move(5, 4)));
    assert_eq!(calculate_move(MoveAction::Left, Reach::Single(2), gol, &data), Some(Movement::Attack(5, 4, player)));
}

#[test]
fn a_wall_is_jumped_at_full_momentum() {
    let (mut data, player) = world(Position(4, 4));
    data.map.set_tile(Position(4, 4), Tile { bottom_wall: Wall::ShortWall, ..Tile::empty() });
    assert_eq!(calculate_move(MoveAction::Down, Reach::Single(1), player, &data), Some(Movement::Move(4, 4)));
    data.entities.momentum.insert(player, Momentum { mx: 0, my: 2, took_half_turn: false, max: 2 });
    assert_eq!(calculate_move(MoveAction::Down, Reach::Single(1), player, &data), Some(Movement::JumpWall(4, 5)));
    data.entities.momentum.insert(player, Momentum { mx: 0, my: 1, took_half_turn: false, max: 2 });
    assert_eq!(calculate_move(MoveAction::Down, Reach::Single(1), player, &data), Some(Movement::Move(4, 4)));
    data.entities.momentum.insert(player, Momentum { mx: -2, my: 0, took_half_turn: false, max: 2 });
    data.map.set_tile(Position(4, 5), Tile::wall());
    assert_eq!(calculate_move(MoveAction::Down, Reach::Single(1), player, &data), Some(Movement::Move(4, 4)));
    data.map.set_tile(Position(4, 5), Tile::empty());
    let gol = add_gol(&mut data, Position(4, 5));
    assert_eq!(
        calculate_move(MoveAction::Down, Reach::Single(1), player, &data),
        Some(Movement::Attack(4, 4, gol))
    );
}

#[test]
fn without_momentum_a_wall_does_not_shorten_the_move() {
    let (mut data, _player) = world(Position(0, 0));
    let gol = add_gol(&mut data, Position(4, 4));
    data.map.set_tile(Position(4, 4), Tile { bottom_wall: Wall::ShortWall, ..Tile::empty() });
    assert_eq!(data.entities.momentum.get(gol), None);
    assert_eq!(calculate_move(MoveAction::Down, Reach::Single(2), gol, &data), Some(Movement::Move(4, 6)));
}

#[test]
fn a_diagonal_move_kicks_off_a_wall() {
    let (mut data, player) = world(Position(4, 4));
    data.map.set_tile(Position(5, 5), Tile::wall());
    assert_eq!(calculate_move(MoveAction::DownRight, Reach::Single(1), player, &data), Some(Movement::Move(4, 4)));
    data.map.set_tile(Position(5, 4), Tile::wall());
    assert_eq!(
        calculate_move(MoveAction::DownRight, Reach::Single(1), player, &data),
        Some(Movement::WallKick(4, 5, 0, 1))
    );
    data.map.set_tile(Position(5, 4), Tile::empty());
    data.map.set_tile(Position(4, 5), Tile::wall());
    assert_eq!(
        calculate_move(MoveAction::DownRight, Reach::Single(1), player, &data),
        Some(Movement::WallKick(5, 4, 1, 0))
    );
    data.map.set_tile(Position(5, 4), Tile::wall());
    assert_eq!(calculate_move(MoveAction::DownRight, Reach::Single(1), player, &data), Some(Movement::Move(4, 4)));
    assert_eq!(calculate_move(MoveAction::Right, Reach::Single(1), player, &data), Some(Movement::Move(4, 4)));
}

#[test]
fn a_move_is_put_on_the_log() {
    let (data, player) = world(Position(4, 4));
    let settings = GameSettings::new(0, false);
    let mut log = MsgLog::new();
    let share = player_move_or_attack(MoveAction::Right, player, &data, &settings, &mut log);
    assert_eq!(share, PlayerAction::TookTurn);
    assert_eq!(
        log.messages.iter().copied().collect::<Vec<Msg>>(),
        vec![Msg::Moved(player, Movement::Move(5, 4), Position(5, 4))]
    );
    assert_eq!(data.entities.pos.get(player), Some(Position(4, 4)));
}

#[test]
fn a_move_that_cannot_be_made_takes_no_turn() {
    let (mut data, player) = world(Position(4, 4));
    let settings = GameSettings::new(0, false);
    let mut log = MsgLog::new();
    data.entities.movement.insert(player, Reach::Diag(1));
    assert_eq!(
        player_move_or_attack(MoveAction::Right, player, &data, &settings, &mut log),
        PlayerAction::DidntTakeTurn
    );
    assert!(log.messages.is_empty());
    assert_eq!(log.turn_messages.iter().copied().collect::<Vec<Msg>>(), vec![Msg::Unavailable(player)]);
    data.entities.movement.remove(player);
    assert_eq!(
        player_move_or_attack(MoveAction::Right, player, &data, &settings, &mut log),
        PlayerAction::DidntTakeTurn
    );
    assert_eq!(
        player_move_or_attack(MoveAction::Right, 77, &data, &settings, &mut log),
        PlayerAction::DidntTakeTurn
    );
}

#[test]
fn the_second_step_of_a_run_takes_half_a_turn() {
    let (mut data, player) = world(Position(4, 4));
    let settings = GameSettings::new(0, false);
    let mut log = MsgLog::new();
    data.entities.momentum.insert(player, Momentum { mx: 1, my: 0, took_half_turn: false, max: 2 });
    assert_eq!(
        player_move_or_attack(MoveAction::Right, player, &data, &settings, &mut log),
        PlayerAction::TookHalfTurn
    );
    data.entities.momentum.insert(player, Momentum { mx: 2, my: 0, took_half_turn: true, max: 2 });
    assert_eq!(
        player_move_or_attack(MoveAction::Right, player, &data, &settings, &mut log),
        PlayerAction::TookTurn
    );
    data.entities.momentum.insert(player, Momentum { mx: 2, my: 0, took_half_turn: false, max: 2 });
    assert_eq!(
        player_move_or_attack(MoveAction::Left, player, &data, &settings, &mut log),
        PlayerAction::TookTurn
    );
}

#[test]
fn walking_into_an_entity_attacks_it() {
    let (mut data, player) = world(Position(4, 4));
    let gol = add_gol(&mut data, Position(5, 4));
    let settings = GameSettings::new(0, false);
    let mut log = MsgLog::new();
    assert_eq!(
        player_move_or_attack(MoveAction::Right, player, &data, &settings, &mut log),
        PlayerAction::TookTurn
    );
    assert_eq!(
        log.messages.iter().copied().collect::<Vec<Msg>>(),
        vec![
            Msg::Attack(player, gol, 5),
            Msg::Moved(player, Movement::Attack(4, 4, gol), Position(4, 4))
        ]
    );
}

#[test]
fn running_into_an_entity_pushes_or_crushes_it() {
    let (mut data, player) = world(Position(4, 4));
    let gol = add_gol(&mut data, Position(5, 4));
    data.entities.move_mode.insert(player, MoveMode::Run);
    let settings = GameSettings::new(0, false);
    let mut log = MsgLog::new();
    player_move_or_attack(MoveAction::Right, player, &data, &settings, &mut log);
    assert_eq!(
        log.messages.iter().copied().collect::<Vec<Msg>>(),
        vec![
            Msg::Moved(gol, Movement::Move(6, 4), Position(6, 4)),
            Msg::Moved(player, Movement::Move(5, 4), Position(5, 4))
        ]
    );
    data.map.set_tile(Position(5, 4), Tile { left_wall: Wall::ShortWall, ..Tile::empty() });
    log.clear();
    player_move_or_attack(MoveAction::Right, player, &data, &settings, &mut log);
    assert_eq!(
        log.messages.iter().copied().collect::<Vec<Msg>>(),
        vec![
            Msg::Moved(gol, Movement::Move(6, 4), Position(6, 4)),
            Msg::Moved(player, Movement::Move(5, 4), Position(5, 4))
        ]
    );
    data.map.set_tile(Position(5, 4), Tile::empty());
    data.map.set_tile(Position(6, 4), Tile { left_wall: Wall::ShortWall, ..Tile::empty() });
    log.clear();
    player_move_or_attack(MoveAction::Right, player, &data, &settings, &mut log);
    assert_eq!(
        log.messages.iter().copied().collect::<Vec<Msg>>(),
        vec![
            Msg::Crushed(player, Position(5, 4), ObjType::Enemy),
            Msg::Moved(player, Movement::Move(5, 4), Position(5, 4))
        ]
    );
}
