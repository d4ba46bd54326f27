use roguelike_engine::ai::{ai_plan, ai_take_turn, dist_sq_of, stats_of};
use roguelike_engine::data::GameData;
use roguelike_engine::entities::Entities;
use roguelike_engine::hammer::{is_adjacent, is_within_radius};
use roguelike_engine::make::{make_gol, make_pawn, make_player};
use roguelike_engine::map::{Tile, TileMap};
use roguelike_engine::messaging::{Msg, MsgLog};
use roguelike_engine::object::{AiAction, Behavior, EntityName, Status};
use roguelike_engine::settings::Config;
use roguelike_engine::types::{EntityId, Position, Reach};

fn world(player_pos: Position, gol_pos: Position) -> (GameData, EntityId, EntityId) {
    let config = Config::standard();
    let mut entities = Entities::new();
    let mut log = MsgLog::new();
    let player = make_player(&mut entities, &config, &mut log);
    entities.pos.insert(player, player_pos);
    let gol = make_gol(&mut entities, &config, gol_pos, &mut log);
    (GameData::new(TileMap::from_dims(20, 20), entities), player, gol)
}

#[test]
fn distances() {
    assert_eq!(dist_sq_of(Position(0, 0), Position(3, 4)), 25);
    assert_eq!(dist_sq_of(Position(-2, 5), Position(-2, 5)), 0);
    assert_eq!(dist_sq_of(Position(i32::MIN, 0), Position(i32::MAX, 0)), (u32::MAX as u128) * (u32::MAX as u128));
    assert!(is_within_radius(Position(0, 0), Position(3, 4), 5));
    assert!(!is_within_radius(Position(0, 0), Position(3, 4), 4));
    assert!(is_within_radius(Position(1, 1), Position(1, 1), 0));
    assert!(is_within_radius(Position(i32::MIN, i32::MIN), Position(i32::MAX, i32::MAX), usize::MAX));
    assert!(is_adjacent(Position(1, 1), Position(2, 2)));
    assert!(is_adjacent(Position(1, 1), Position(1, 0)));
    assert!(!is_adjacent(Position(1, 1), Position(1, 1)));
    assert!(!is_adjacent(Position(1, 1), Position(3, 1)));
}

#[test]
fn reach_covers_its_directions() {
    let at = Position(5, 5);
    assert!(Reach::Single(2).covers_offset(at, Position(7, 5)));
    assert!(Reach::Single(2).covers_offset(at, Position(3, 3)));
    assert!(!Reach::Single(2).covers_offset(at, Position(8, 5)));
    assert!(!Reach::Single(2).covers_offset(at, Position(6, 7)));
    assert!(!Reach::Single(2).covers_offset(at, at));
    assert!(Reach::Horiz(3).covers_offset(at, Position(5, 2)));
    assert!(!Reach::Horiz(3).covers_offset(at, Position(4, 4)));
    assert!(Reach::Diag(5).covers_offset(at, Position(1, 9)));
    assert!(!Reach::Diag(5).covers_offset(at, Position(5, 9)));
    assert!(!Reach::Diag(3).covers_offset(at, Position(1, 1)));
    assert!(Reach::Diag(usize::MAX).covers_offset(at, Position(1, 1)));
}

#[test]
fn every_offset_of_a_reach_is_covered() {
    let at = Position(0, 0);
    for reach in [Reach::Single(3), Reach::Horiz(4), Reach::Diag(2), Reach::Single(0)] {
        let offsets = reach.offsets();
        for offset in offsets.iter() {
            assert!(reach.covers_offset(at, *offset));
        }
        let mut covered = 0;
        for x in -5..6 {
            for y in -5..6 {
                if reach.covers_offset(at, Position(x, y)) {
                    covered += 1;
                    assert!(offsets.contains(&Position(x, y)));
                }
            }
        }
        assert_eq!(covered, offsets.len());
    }
}

#[test]
fn stats_by_name() {
    let config = Config::standard();
    assert_eq!(stats_of(&config, Some(EntityName::Gol)), config.gol);
    assert_eq!(stats_of(&config, Some(EntityName::Pawn)), config.pawn);
    assert_eq!(stats_of(&config, Some(EntityName::Player)), config.player);
    assert_eq!(stats_of(&config, None), config.player);
}

#[test]
fn an_idle_entity_with_nothing_to_do_stays() {
    let (data, _player, gol) = world(Position(0, 0), Position(10, 10));
    let config = Config::standard();
    assert_eq!(ai_plan(gol, &data, &config), vec![AiAction::Move((0, 0))]);
    assert_eq!(ai_take_turn(gol, &data, &config, 7), AiAction::Move((0, 0)));
    assert_eq!(ai_plan(99, &data, &config), vec![AiAction::Move((0, 0))]);
}

#[test]
fn an_idle_entity_attacks_the_enemy_that_it_sees() {
    let (mut data, player, gol) = world(Position(7, 10), Position(10, 10));
    let config = Config::standard();
    assert_eq!(ai_plan(gol, &data, &config), vec![AiAction::StateChange(Behavior::Attacking(player))]);
    data.map.set_tile(Position(8, 10), Tile::wall());
    assert_eq!(ai_plan(gol, &data, &config), vec![AiAction::Move((0, 0))]);
    data.map.set_tile(Position(8, 10), Tile::empty());
    data.entities.status.insert(player, Status { alive: false, frozen: 0 });
    assert_eq!(ai_plan(gol, &data, &config), vec![AiAction::Move((0, 0))]);
    data.entities.status.insert(player, Status { alive: true, frozen: 0 });
    data.entities.pos.insert(player, Position(4, 10));
    assert_eq!(ai_plan(gol, &data, &config), vec![AiAction::Move((0, 0))]);
    data.entities.pos.insert(player, Position(5, 10));
    assert_eq!(ai_plan(gol, &data, &config), vec![AiAction::StateChange(Behavior::Attacking(player))]);
}

#[test]
fn an_idle_entity_looks_where_it_heard_a_sound() {
    let (mut data, player, gol) = world(Position(0, 0), Position(10, 10));
    let config = Config::standard();
    data.entities.messages.push_back(gol, Msg::Pass());
    data.entities.messages.push_back(gol, Msg::Sound(player, Position(10, 16), 9, true));
    data.entities.messages.push_back(gol, Msg::Sound(player, Position(10, 13), 9, true));
    data.entities.messages.push_back(gol, Msg::Sound(player, Position(10, 12), 9, true));
    assert_eq!(
        ai_plan(gol, &data, &config),
        vec![AiAction::StateChange(Behavior::Investigating(Position(10, 13)))]
    );
}

#[test]
fn an_investigating_entity_goes_where_it_is_heading() {
    let (mut data, player, gol) = world(Position(0, 0), Position(10, 10));
    let config = Config::standard();
    data.entities.behavior.insert(gol, Behavior::Investigating(Position(10, 13)));
    assert_eq!(ai_plan(gol, &data, &config), vec![AiAction::Move((0, 1))]);
    data.entities.behavior.insert(gol, Behavior::Investigating(Position(13, 7)));
    assert_eq!(ai_plan(gol, &data, &config), vec![AiAction::Move((1, -1))]);
    data.entities.behavior.insert(gol, Behavior::Investigating(Position(10, 10)));
    assert_eq!(ai_plan(gol, &data, &config), vec![AiAction::StateChange(Behavior::Idle)]);
    data.entities.pos.insert(player, Position(10, 8));
    assert_eq!(ai_plan(gol, &data, &config), vec![AiAction::StateChange(Behavior::Attacking(player))]);
}

#[test]
fn equally_good_moves_are_chosen_by_the_roll() {
    let (mut data, _player, gol) = world(Position(0, 0), Position(12, 12));
    let config = Config::standard();
    data.entities.behavior.insert(gol, Behavior::Investigating(Position(10, 10)));
    assert_eq!(ai_plan(gol, &data, &config), vec![AiAction::Move((-1, -1))]);
    data.map.set_tile(Position(11, 11), Tile::wall());
    assert_eq!(ai_plan(gol, &data, &config), vec![AiAction::Move((-1, 0)), AiAction::Move((0, -1))]);
    assert_eq!(ai_take_turn(gol, &data, &config, 0), AiAction::Move((-1, 0)));
    assert_eq!(ai_take_turn(gol, &data, &config, 1), AiAction::Move((0, -1)));
    assert_eq!(ai_take_turn(gol, &data, &config, 2), AiAction::Move((-1, 0)));
    assert_eq!(ai_take_turn(gol, &data, &config, usize::MAX), AiAction::Move((0, -1)));
}

#[test]
fn an_entity_that_cannot_move_stays() {
    let (mut data, _player, gol) = world(Position(0, 0), Position(12, 12));
    let config = Config::standard();
    data.entities.behavior.insert(gol, Behavior::Investigating(Position(10, 10)));
    data.entities.movement.remove(gol);
    assert_eq!(ai_plan(gol, &data, &config), vec![AiAction::Move((0, 0))]);
    data.entities.movement.insert(gol, Reach::Single(1));
    for x in 11..14 {
        for y in 11..14 {
            if (x, y) != (12, 12) {
                data.map.set_tile(Position(x, y), Tile::wall());
            }
        }
    }
    assert_eq!(ai_plan(gol, &data, &config), vec![AiAction::Move((0, 0))]);
}

#[test]
fn an_attacking_entity_strikes_within_its_reach() {
    let (mut data, player, gol) = world(Position(8, 8), Position(10, 10));
    let config = Config::standard();
    data.entities.behavior.insert(gol, Behavior::Attacking(player));
    assert_eq!(ai_plan(gol, &data, &config), vec![AiAction::Attack(player, (8, 8))]);
    data.entities.pos.insert(player, Position(10, 7));
    assert_eq!(ai_plan(gol, &data, &config), vec![AiAction::Move((0, -1))]);
    let mut log = MsgLog::new();
    let pawn = make_pawn(&mut data.entities, &config, Position(10, 6), &mut log);
    data.entities.behavior.insert(pawn, Behavior::Attacking(player));
    assert_eq!(ai_plan(pawn, &data, &config), vec![AiAction::Attack(player, (10, 7))]);
}

#[test]
fn an_attacking_entity_looks_for_a_target_out_of_sight() {
    let (mut data, player, gol) = world(Position(10, 2), Position(10, 10));
    let config = Config::standard();
    data.entities.behavior.insert(gol, Behavior::Attacking(player));
    assert_eq!(
        ai_plan(gol, &data, &config),
        vec![AiAction::StateChange(Behavior::Investigating(Position(10, 2)))]
    );
    data.entities.pos.insert(player, Position(10, 7));
    data.entities.status.insert(player, Status { alive: false, frozen: 0 });
    assert_eq!(
        ai_plan(gol, &data, &config),
        vec![AiAction::StateChange(Behavior::Investigating(Position(10, 7)))]
    );
    data.entities.remove(player);
    assert_eq!(ai_plan(gol, &data, &config), vec![AiAction::StateChange(Behavior::Idle)]);
}
