use roguelike_engine::action::{Action, GameState, InputAction, MoveMode};
use roguelike_engine::effect::GameError;
use roguelike_engine::game::Game;
use roguelike_engine::make::{make_exit, make_goal, make_gol, make_hammer, make_pawn};
use roguelike_engine::map::{Surface, Tile, TileMap, TileType, Wall};
use roguelike_engine::messaging::Msg;
use roguelike_engine::object::{Behavior, Status};
use roguelike_engine::settings::{Config, GameResult};
use roguelike_engine::types::{Direction, EntityId, Position};

fn new_game() -> (Game, EntityId) {
    let game = Game::new(0, Config::standard()).unwrap();
    let player_id = game.data.find_player().unwrap();
    (game, player_id)
}

fn small_game(player_pos: Position) -> (Game, EntityId) {
    let (mut game, player_id) = new_game();
    game.data.map = TileMap::from_dims(10, 10);
    game.data.entities.pos.insert(player_id, player_pos);
    (game, player_id)
}

fn pos_of(game: &Game, id: EntityId) -> Position {
    game.data.entities.pos.get(id).unwrap()
}

fn step(game: &mut Game, input: InputAction) -> GameResult {
    game.input_action = input;
    game.step_game().unwrap()
}

#[test]
fn test_game_step() {
    let (mut game, player_id) = new_game();
    game.make_map();
    let player_pos = pos_of(&game, player_id);
    assert_eq!(Position::new(0, 0), player_pos);

    step(&mut game, InputAction::Move(Direction::Right));
    let player_pos = pos_of(&game, player_id);
    assert_eq!(Position::new(1, 0), player_pos);

    step(&mut game, InputAction::Move(Direction::Down));
    let player_pos = pos_of(&game, player_id);
    assert_eq!(Position::new(1, 1), player_pos);

    step(&mut game, InputAction::Move(Direction::Left));
    let player_pos = pos_of(&game, player_id);
    assert_eq!(Position::new(0, 1), player_pos);

    step(&mut game, InputAction::Move(Direction::Up));
    let player_pos = pos_of(&game, player_id);
    assert_eq!(Position::new(0, 0), player_pos);
}

#[test]
fn walk_cycle_on_the_empty_map_counts_four_turns() {
    let (mut game, player_id) = new_game();
    game.make_map();
    assert_eq!(game.data.map.width(), 80);
    assert_eq!(game.data.map.height(), 50);
    let moves = [Direction::Right, Direction::Down, Direction::Left, Direction::Up];
    let expected = [(1, 0), (1, 1), (0, 1), (0, 0)];
    for i in 0..4 {
        assert_eq!(step(&mut game, InputAction::Move(moves[i])), GameResult::Continue);
        assert_eq!(pos_of(&game, player_id), Position(expected[i].0, expected[i].1));
        assert_eq!(game.settings.turn_count, i + 1);
    }
    assert_eq!(game.settings.turn_count, 4);
}

#[test]
fn test_running() {
    let (mut game, player_id) = small_game(Position::new(4, 4));
    let gol_pos = Position::new(4, 5);
    let gol = make_gol(&mut game.data.entities, &game.config, gol_pos, &mut game.msg_log);
    game.data.map.set_tile(Position(4, 6), Tile { block_move: true, ..Tile::empty() });

    step(&mut game, InputAction::IncreaseMoveMode);
    assert!(game.data.entities.ids.contains(&gol));
    step(&mut game, InputAction::Move(Direction::Down));
    let player_pos = pos_of(&game, player_id);
    assert_eq!(gol_pos, player_pos);
    assert!(!game.data.entities.ids.contains(&gol));

    let pawn_pos = Position::new(5, 5);
    let pawn = make_pawn(&mut game.data.entities, &game.config, pawn_pos, &mut game.msg_log);
    game.data.map.set_tile(Position(7, 5), Tile { tile_type: TileType::Water, ..Tile::empty() });
    step(&mut game, InputAction::Move(Direction::Right));
    assert_eq!(Position::new(5, 5), pos_of(&game, player_id));
    assert_eq!(Position::new(6, 5), pos_of(&game, pawn));
}

#[test]
fn run_crush_against_wall() {
    let (mut game, player_id) = small_game(Position::new(4, 4));
    let gol = make_gol(&mut game.data.entities, &game.config, Position(4, 5), &mut game.msg_log);
    game.data.map.set_tile(Position(4, 6), Tile::wall());
    step(&mut game, InputAction::IncreaseMoveMode);
    assert_eq!(game.data.entities.move_mode.get(player_id), Some(MoveMode::Run));
    assert_eq!(game.settings.turn_count, 0);
    step(&mut game, InputAction::Move(Direction::Down));
    assert!(!game.data.entities.contains(gol));
    assert_eq!(game.data.entities.pos.get(gol), None);
    assert_eq!(pos_of(&game, player_id), Position(4, 5));
    assert!(game.msg_log.turn_messages.iter().any(|msg| match msg {
        Msg::Crushed(by, pos, _) => *by == player_id && *pos == Position(4, 5),
        _ => false,
    }));
    assert_eq!(game.data.map.tile(Position(4, 5)).surface, Surface::Rubble);
    assert_eq!(game.settings.turn_count, 1);
}

#[test]
fn run_push_to_water_edge() {
    let (mut game, player_id) = small_game(Position::new(4, 4));
    let pawn = make_pawn(&mut game.data.entities, &game.config, Position(5, 4), &mut game.msg_log);
    game.data.map.set_tile(Position(7, 4), Tile::water());
    step(&mut game, InputAction::IncreaseMoveMode);
    step(&mut game, InputAction::Move(Direction::Right));
    assert_eq!(pos_of(&game, player_id), Position(5, 4));
    assert_eq!(pos_of(&game, pawn), Position(6, 4));
    assert!(!game.msg_log.turn_messages.iter().any(|msg| matches!(msg, Msg::Crushed(_, _, _))));
    assert!(game.data.entities.contains(pawn));
}

#[test]
fn run_does_not_push_into_water() {
    let (mut game, player_id) = small_game(Position::new(4, 4));
    let pawn = make_pawn(&mut game.data.entities, &game.config, Position(5, 4), &mut game.msg_log);
    game.data.map.set_tile(Position(6, 4), Tile { tile_type: TileType::Water, ..Tile::empty() });
    step(&mut game, InputAction::IncreaseMoveMode);
    step(&mut game, InputAction::Move(Direction::Right));
    assert_eq!(pos_of(&game, player_id), Position(5, 4));
    assert!(!game.data.entities.contains(pawn));
    assert!(game.msg_log.turn_messages.iter().any(|msg| matches!(msg, Msg::Crushed(_, _, _))));
}

#[test]
fn test_hammer_small_wall() {
    let (mut game, player_id) = small_game(Position::new(4, 4));
    let player_pos = Position::new(4, 4);
    let tile = game.data.map.tile(player_pos);
    game.data.map.set_tile(player_pos, Tile { bottom_wall: Wall::ShortWall, ..tile });

    let gol_pos = Position::new(4, 5);
    let gol = make_gol(&mut game.data.entities, &game.config, gol_pos, &mut game.msg_log);
    let hammer =
        make_hammer(&mut game.data.entities, &game.config, Position::new(4, 7), &mut game.msg_log);
    game.data.entities.inventory.push_front(player_id, hammer);

    step(&mut game, InputAction::UseItem);
    step(&mut game, InputAction::MapClick(gol_pos, gol_pos));

    for msg in game.msg_log.turn_messages.iter() {
        println!("{:?}", msg);
    }

    assert!(game.data.entities.is_dead(gol));
    assert!(game
        .msg_log
        .turn_messages
        .iter()
        .any(|msg| { matches!(msg, Msg::HammerHitWall(id, _) if *id == player_id) }));
    assert_eq!(Surface::Rubble, game.data.map.tile(gol_pos).surface);

    let pawn_pos = Position::new(3, 4);
    let pawn = make_pawn(&mut game.data.entities, &game.config, pawn_pos, &mut game.msg_log);
    assert_eq!(true, game.data.entities.status.get(pawn).unwrap().alive);

    let hammer =
        make_hammer(&mut game.data.entities, &game.config, Position::new(4, 7), &mut game.msg_log);
    game.data.entities.inventory.push_front(player_id, hammer);

    step(&mut game, InputAction::UseItem);
    step(&mut game, InputAction::MapClick(pawn_pos, pawn_pos));

    assert!(game.data.entities.is_dead(pawn));
    assert!(game
        .msg_log
        .turn_messages
        .iter()
        .any(|msg| { matches!(msg, Msg::HammerHitEntity(id, hit) if *id == player_id && *hit == pawn) }));
    assert_ne!(Surface::Rubble, game.data.map.tile(pawn_pos).surface);
}

#[test]
fn hammer_on_short_wall_hits_wall_and_entity() {
    let (mut game, player_id) = small_game(Position::new(4, 4));
    let tile = game.data.map.tile(Position(4, 4));
    game.data.map.set_tile(Position(4, 4), Tile { bottom_wall: Wall::ShortWall, ..tile });
    let gol = make_gol(&mut game.data.entities, &game.config, Position(4, 5), &mut game.msg_log);
    let hammer =
        make_hammer(&mut game.data.entities, &game.config, Position(4, 7), &mut game.msg_log);
    game.data.entities.inventory.push_front(player_id, hammer);
    step(&mut game, InputAction::UseItem);
    assert_eq!(game.settings.state, GameState::Selection);
    step(&mut game, InputAction::MapClick(Position(4, 5), Position(4, 5)));
    assert_eq!(game.settings.state, GameState::Playing);
    assert!(game.data.entities.is_dead(gol));
    assert_eq!(game.data.map.tile(Position(4, 5)).surface, Surface::Rubble);
    assert_eq!(game.data.map.tile(Position(4, 4)).bottom_wall, Wall::Empty);
    let log: Vec<Msg> = game.msg_log.turn_messages.iter().copied().collect();
    assert!(log.contains(&Msg::HammerHitWall(player_id, Position(4, 5))));
    assert!(log.contains(&Msg::HammerHitEntity(player_id, gol)));
    assert!(!game.data.entities.contains(hammer));
    assert_eq!(game.data.entities.is_in_inventory(player_id, roguelike_engine::object::Item::Hammer), None);
}

#[test]
fn level_exit_wins_and_changes_level() {
    let (mut game, player_id) = new_game();
    game.make_map();
    make_exit(&mut game.data.entities, &game.config, Position(0, 0), &mut game.msg_log);
    let goal = make_goal(&mut game.data.entities, &game.config, Position(-1, -1), &mut game.msg_log);
    game.data.entities.inventory.push_back(player_id, goal);
    game.data.map.set_tile(Position(3, 3), Tile::wall());

    assert_eq!(step(&mut game, InputAction::Pass), GameResult::Continue);
    assert_eq!(game.settings.state, GameState::Win);
    assert_eq!(game.settings.level_num, 0);
    assert_eq!(game.settings.turn_count, 0);
    assert!(!game.msg_log.turn_messages.iter().any(|msg| matches!(msg, Msg::PlayerTurn())));

    assert_eq!(step(&mut game, InputAction::Nothing), GameResult::Continue);
    assert_eq!(game.settings.state, GameState::Playing);
    assert_eq!(game.settings.level_num, 1);
    assert_eq!(game.data.map.tile(Position(3, 3)), Tile::empty());
    assert_eq!(pos_of(&game, player_id), Position(0, 0));
    assert_eq!(game.data.entities.is_in_inventory(player_id, roguelike_engine::object::Item::Goal), None);
    assert!(game.msg_log.turn_messages.iter().any(|msg| matches!(msg, Msg::ChangeLevel())));
    assert_eq!(game.data.entities.ids(), vec![0, 1]);
    assert_eq!(game.data.find_exit(), None);
    assert_eq!(game.data.entities.inventory.queue_len(player_id), 1);
    assert_eq!(game.settings.turn_count, 0);
    assert!(game.data.is_sound());
}

#[test]
fn winning_without_the_goal_is_a_user_error() {
    let (mut game, _player_id) = new_game();
    game.make_map();
    game.settings.state = GameState::Win;
    game.input_action = InputAction::Nothing;
    let log_before: Vec<Msg> = game.msg_log.messages.iter().copied().collect();
    let turn_before: Vec<Msg> = game.msg_log.turn_messages.iter().copied().collect();
    let ids_before = game.data.entities.ids();
    let rng_before = game.rng.clone();
    assert_eq!(game.step_game(), Err(GameError::UserError));
    assert_eq!(game.settings.state, GameState::Playing);
    assert_eq!(game.settings.level_num, 0);
    assert_eq!(game.settings.turn_count, 0);
    assert_eq!(game.msg_log.messages.iter().copied().collect::<Vec<Msg>>(), log_before);
    assert_eq!(game.msg_log.turn_messages.iter().copied().collect::<Vec<Msg>>(), turn_before);
    assert!(!game.msg_log.turn_messages.iter().any(|msg| matches!(msg, Msg::ChangeLevel())));
    assert_eq!(game.data.entities.ids(), ids_before);
    assert_eq!(game.data.entities.inventory.queue_len(0), 1);
    assert_eq!((game.data.map.width(), game.data.map.height()), (80, 50));
    assert_eq!(game.input_action, InputAction::Nothing);
    assert!(game.rng == rng_before);
}

#[test]
fn winning_without_a_player_changes_nothing() {
    let (mut game, player_id) = new_game();
    game.make_map();
    game.data.entities.remove(player_id);
    game.settings.state = GameState::Win;
    assert_eq!(game.step_game(), Err(GameError::InvariantViolation));
    assert_eq!(game.settings.state, GameState::Win);
    assert!(!game.msg_log.turn_messages.iter().any(|msg| matches!(msg, Msg::ChangeLevel())));
}

#[test]
fn the_generator_goes_on_across_levels_and_rests_in_menus() {
    let (mut game, player_id) = new_game();
    game.make_map();
    make_exit(&mut game.data.entities, &game.config, Position(0, 0), &mut game.msg_log);
    let goal = make_goal(&mut game.data.entities, &game.config, Position(-1, -1), &mut game.msg_log);
    game.data.entities.inventory.push_back(player_id, goal);
    step(&mut game, InputAction::Move(Direction::Right));
    step(&mut game, InputAction::Move(Direction::Left));
    assert_eq!(game.settings.state, GameState::Win);
    let rng_before = game.rng.clone();
    step(&mut game, InputAction::Nothing);
    assert_eq!(game.settings.level_num, 1);
    assert!(game.rng == rng_before);
    step(&mut game, InputAction::Inventory);
    step(&mut game, InputAction::SelectItem(0));
    step(&mut game, InputAction::Exit);
    step(&mut game, InputAction::Esc);
    step(&mut game, InputAction::Nothing);
    assert_eq!(game.settings.state, GameState::Playing);
    assert!(game.rng == rng_before);
    assert!(game.rng != Game::new(1, Config::standard()).unwrap().rng);
}

#[test]
fn a_choice_in_the_skill_menu_is_the_turn_of_the_player() {
    let (mut game, player_id) = small_game(Position::new(4, 4));
    step(&mut game, InputAction::SkillMenu);
    assert_eq!(game.settings.state, GameState::SkillMenu);
    step(&mut game, InputAction::Move(Direction::Right));
    assert_eq!(game.settings.state, GameState::SkillMenu);
    assert_eq!(pos_of(&game, player_id), Position(4, 4));
    assert_eq!(game.settings.turn_count, 0);
    step(&mut game, InputAction::SelectItem(0));
    assert_eq!(game.settings.state, GameState::Playing);
    assert_eq!(game.settings.turn_count, 1);
    let log: Vec<Msg> = game.msg_log.turn_messages.iter().copied().collect();
    assert!(log.contains(&Msg::Action(player_id, Action::Yell)));
    assert!(log.contains(&Msg::Yell(Position(4, 4))));
    step(&mut game, InputAction::SkillMenu);
    step(&mut game, InputAction::SelectItem(2));
    assert_eq!(game.settings.state, GameState::Playing);
    assert_eq!(game.settings.turn_count, 1);
    step(&mut game, InputAction::SkillMenu);
    step(&mut game, InputAction::Esc);
    assert_eq!(game.settings.state, GameState::Playing);
    assert_eq!(game.settings.turn_count, 1);
}

#[test]
fn a_choice_in_the_class_menu_is_the_turn_of_the_player() {
    let (mut game, player_id) = small_game(Position::new(4, 4));
    let gol = make_gol(&mut game.data.entities, &game.config, Position(6, 4), &mut game.msg_log);
    step(&mut game, InputAction::ClassMenu);
    assert_eq!(game.settings.state, GameState::ClassMenu);
    assert_eq!(game.data.entities.behavior.get(gol), Some(Behavior::Idle));
    step(&mut game, InputAction::SelectItem(1));
    assert_eq!(game.settings.state, GameState::Playing);
    assert_eq!(game.settings.turn_count, 1);
    assert!(game.msg_log.turn_messages.iter().any(|msg| *msg == Msg::Action(player_id, Action::Pass)));
    assert_eq!(game.data.entities.behavior.get(gol), Some(Behavior::Attacking(player_id)));
    step(&mut game, InputAction::ClassMenu);
    step(&mut game, InputAction::ClassMenu);
    assert_eq!(game.settings.state, GameState::Playing);
    assert_eq!(game.settings.turn_count, 1);
}

#[test]
fn frozen_enemy_waits_two_turns() {
    let (mut game, player_id) = small_game(Position::new(0, 0));
    let gol = make_gol(&mut game.data.entities, &game.config, Position(3, 0), &mut game.msg_log);
    game.data.entities.status.insert(gol, Status { alive: true, frozen: 2 });

    for turn in 0..2 {
        step(&mut game, InputAction::Pass);
        assert_eq!(pos_of(&game, gol), Position(3, 0));
        assert_eq!(game.data.entities.behavior.get(gol), Some(Behavior::Idle));
        assert!(!game.msg_log.turn_messages.iter().any(|msg| match msg {
            Msg::Action(id, _) => *id == gol,
            Msg::Moved(id, _, _) => *id == gol,
            _ => false,
        }));
        assert_eq!(game.data.entities.status.get(gol).unwrap().frozen, 1 - turn);
    }

    step(&mut game, InputAction::Pass);
    assert_eq!(game.data.entities.behavior.get(gol), Some(Behavior::Attacking(player_id)));
    assert_eq!(pos_of(&game, gol), Position(2, 0));
    assert!(game.msg_log.turn_messages.iter().any(|msg| match msg {
        Msg::Action(id, Action::Move(Direction::Left)) => *id == gol,
        _ => false,
    }));
    assert_eq!(game.settings.turn_count, 3);
}

#[test]
fn picking_up_and_dropping_in_two_turns_restores_the_item() {
    let (mut game, player_id) = small_game(Position::new(4, 4));
    let gol = make_gol(&mut game.data.entities, &game.config, Position(8, 8), &mut game.msg_log);
    let held = game.data.entities.inventory.queue_len(player_id);
    let mut before: Vec<EntityId> = Vec::new();
    for k in 0..held {
        before.push(game.data.entities.inventory.item(player_id, k));
    }
    let hammer = make_hammer(&mut game.data.entities, &game.config, Position(4, 4), &mut game.msg_log);

    step(&mut game, InputAction::Pickup);
    assert!(game.msg_log.turn_messages.iter().any(|msg| *msg == Msg::PickedUp(player_id, hammer)));
    assert_eq!(game.data.entities.inventory.queue_len(player_id), held + 1);
    assert_eq!(game.data.entities.inventory.item(player_id, 0), hammer);
    assert_eq!(pos_of(&game, hammer), Position(-1, -1));
    assert_eq!(game.settings.turn_count, 1);

    step(&mut game, InputAction::DropItem);
    assert!(game.msg_log.turn_messages.iter().any(|msg| *msg == Msg::DropItem(player_id, hammer)));
    assert_eq!(pos_of(&game, hammer), Position(4, 4));
    assert_eq!(pos_of(&game, hammer), pos_of(&game, player_id));
    assert_eq!(game.data.entities.inventory.queue_len(player_id), held);
    for k in 0..held {
        assert_eq!(game.data.entities.inventory.item(player_id, k), before[k]);
    }
    assert!(game.data.entities.ids.contains(&hammer));
    assert!(game.data.entities.ids.contains(&gol));
    assert_eq!(game.settings.turn_count, 2);
}
