use roguelike_engine::action::{Action, GameState, InputAction, MoveMode};
use roguelike_engine::data::GameData;
use roguelike_engine::effect::GameError;
use roguelike_engine::entities::Entities;
use roguelike_engine::game::Game;
use roguelike_engine::make::{make_gol, make_hammer, make_pawn, make_player, make_stone, make_trap};
use roguelike_engine::map::{Tile, TileMap};
use roguelike_engine::messaging::{Msg, MsgLog};
use roguelike_engine::momentum::{Momentum, Movement};
use roguelike_engine::object::{Behavior, EntityName, Item, Status, Trap};
use roguelike_engine::resolve::resolve_messages;
use roguelike_engine::settings::{Config, GameResult, GameSettings};
use roguelike_engine::step::{ai_entities, keep_house, level_exit_condition_met, step_with_rolls};
use roguelike_engine::types::{Direction, EntityId, Position};

struct World {
    data: GameData,
    log: MsgLog,
    settings: GameSettings,
    player: EntityId,
}

fn world(player_pos: Position) -> World {
    let config = Config::standard();
    let mut entities = Entities::new();
    let mut log = MsgLog::new();
    let player = make_player(&mut entities, &config, &mut log);
    entities.pos.insert(player, player_pos);
    log.clear();
    World {
        data: GameData::new(TileMap::from_dims(10, 10), entities),
        log,
        settings: GameSettings::new(0, false),
        player,
    }
}

fn resolve(w: &mut World) -> Result<(), GameError> {
    resolve_messages(&mut w.data, &mut w.log, &mut w.settings)
}

fn turn(w: &World) -> Vec<Msg> {
    w.log.turn_messages.iter().copied().collect()
}

fn gol(w: &mut World, pos: Position) -> EntityId {
    let mut log = MsgLog::new();
    make_gol(&mut w.data.entities, &Config::standard(), pos, &mut log)
}

#[test]
fn resolving_an_empty_queue_changes_nothing() {
    let mut w = world(Position(2, 2));
    let g = gol(&mut w, Position(3, 3));
    assert_eq!(resolve(&mut w), Ok(()));
    assert_eq!(resolve(&mut w), Ok(()));
    assert!(w.log.messages.is_empty() && w.log.turn_messages.is_empty());
    assert_eq!(w.data.entities.pos.get(w.player), Some(Position(2, 2)));
    assert_eq!(w.data.entities.pos.get(g), Some(Position(3, 3)));
    assert_eq!(w.data.entities.fighter.get(g).unwrap().hp, 10);
    assert_eq!(w.settings, GameSettings::new(0, false));
    assert_eq!(w.data.entities.ids(), vec![0, 1]);
}

#[test]
fn a_move_is_carried_out() {
    let mut w = world(Position(2, 2));
    w.log.log(Msg::Action(w.player, Action::Move(Direction::Right)));
    assert_eq!(resolve(&mut w), Ok(()));
    assert_eq!(w.data.entities.pos.get(w.player), Some(Position(3, 2)));
    assert_eq!(
        w.data.entities.momentum.get(w.player),
        Some(Momentum { mx: 1, my: 0, took_half_turn: false, max: 1 })
    );
    assert_eq!(
        turn(&w),
        vec![
            Msg::Action(w.player, Action::Move(Direction::Right)),
            Msg::Moved(w.player, Movement::Move(3, 2), Position(3, 2)),
            Msg::Sound(w.player, Position(3, 2), 3, true),
        ]
    );
    assert!(w.log.messages.is_empty());
}

#[test]
fn the_sound_of_a_step_depends_on_the_tempo() {
    for (mode, radius) in [(MoveMode::Sneak, 1), (MoveMode::Walk, 3), (MoveMode::Run, 5)] {
        let mut w = world(Position(2, 2));
        w.data.entities.move_mode.insert(w.player, mode);
        w.log.log(Msg::Moved(w.player, Movement::Move(2, 3), Position(2, 3)));
        assert_eq!(resolve(&mut w), Ok(()));
        assert_eq!(turn(&w)[1], Msg::Sound(w.player, Position(2, 3), radius, true));
    }
}

#[test]
fn a_move_of_an_entity_without_position_is_a_violation() {
    let mut w = world(Position(2, 2));
    let nowhere = w.data.entities.create();
    w.log.log(Msg::Moved(nowhere, Movement::Move(1, 1), Position(1, 1)));
    w.log.log(Msg::Pass());
    assert_eq!(resolve(&mut w), Err(GameError::InvariantViolation));
    assert_eq!(w.log.messages.iter().copied().collect::<Vec<Msg>>(), vec![Msg::Pass()]);
    assert_eq!(w.data.entities.pos.get(nowhere), None);
}

#[test]
fn a_move_onto_a_blocked_tile_is_dropped() {
    let mut w = world(Position(2, 2));
    let g = gol(&mut w, Position(3, 2));
    w.data.map.set_tile(Position(2, 3), Tile::wall());
    w.log.log(Msg::Moved(g, Movement::Move(2, 2), Position(2, 2)));
    w.log.log(Msg::Moved(w.player, Movement::Move(2, 3), Position(2, 3)));
    w.log.log(Msg::Moved(w.player, Movement::Move(2, 10), Position(2, 10)));
    assert_eq!(resolve(&mut w), Ok(()));
    assert_eq!(w.data.entities.pos.get(g), Some(Position(3, 2)));
    assert_eq!(w.data.entities.pos.get(w.player), Some(Position(2, 2)));
    let log = turn(&w);
    assert_eq!(log.iter().filter(|m| **m == Msg::Unavailable(g)).count(), 1);
    assert_eq!(log.iter().filter(|m| **m == Msg::Unavailable(w.player)).count(), 2);
}

#[test]
fn blocking_entities_never_share_a_tile() {
    let mut w = world(Position(2, 2));
    let a = gol(&mut w, Position(3, 2));
    let b = gol(&mut w, Position(4, 2));
    for dir in [Direction::Right, Direction::Left, Direction::Right, Direction::Right] {
        w.log.log(Msg::Action(w.player, Action::Move(dir)));
        w.log.log(Msg::Action(a, Action::Move(Direction::Right)));
        w.log.log(Msg::Action(b, Action::Move(Direction::Left)));
        w.log.log(Msg::Moved(b, Movement::Move(2, 2), Position(2, 2)));
        assert_eq!(resolve(&mut w), Ok(()));
        let ids = [w.player, a, b];
        for i in 0..3 {
            for j in (i + 1)..3 {
                let both_block = w.data.entities.blocks.get(ids[i]) == Some(true)
                    && w.data.entities.blocks.get(ids[j]) == Some(true);
                assert!(!both_block || w.data.entities.pos.get(ids[i]) != w.data.entities.pos.get(ids[j]));
            }
        }
    }
}

#[test]
fn an_attack_takes_hit_points() {
    let mut w = world(Position(2, 2));
    let g = gol(&mut w, Position(3, 2));
    w.log.log(Msg::Attack(w.player, g, 4));
    w.log.log(Msg::Attack(w.player, g, -3));
    assert_eq!(resolve(&mut w), Ok(()));
    assert_eq!(w.data.entities.fighter.get(g).unwrap().hp, 6);
    assert_eq!(w.data.entities.status.get(g), Some(Status { alive: true, frozen: 0 }));
    assert_eq!(turn(&w), vec![Msg::Attack(w.player, g, 4), Msg::Attack(w.player, g, -3)]);
}

#[test]
fn an_entity_without_hit_points_is_killed() {
    let mut w = world(Position(2, 2));
    let g = gol(&mut w, Position(3, 2));
    w.log.log(Msg::Attack(w.player, g, 10));
    w.log.log(Msg::Pass());
    assert_eq!(resolve(&mut w), Ok(()));
    assert_eq!(w.data.entities.fighter.get(g).unwrap().hp, 0);
    assert!(w.data.entities.is_dead(g));
    assert_eq!(w.data.entities.blocks.get(g), Some(false));
    assert_eq!(w.data.entities.chr.get(g), Some('%'));
    assert_eq!(w.data.entities.ai.get(g), None);
    assert_eq!(w.settings.state, GameState::Playing);
    assert_eq!(
        turn(&w),
        vec![Msg::Killed(w.player, g, 10), Msg::Attack(w.player, g, 10), Msg::Pass()]
    );
}

#[test]
fn no_entity_is_alive_without_hit_points() {
    let mut w = world(Position(2, 2));
    let a = gol(&mut w, Position(3, 2));
    let b = gol(&mut w, Position(4, 2));
    w.log.log(Msg::Attack(w.player, a, 3));
    w.log.log(Msg::Attack(w.player, b, 30));
    w.log.log(Msg::Attack(b, w.player, 49));
    w.log.log(Msg::Attack(w.player, a, 7));
    w.log.log(Msg::Attack(w.player, a, 7));
    assert_eq!(resolve(&mut w), Ok(()));
    for id in [w.player, a, b] {
        let hp = w.data.entities.fighter.get(id).unwrap().hp;
        let alive = w.data.entities.status.get(id).unwrap().alive;
        assert!(hp > 0 || !alive);
    }
    assert_eq!(w.data.entities.fighter.get(a).unwrap().hp, -7);
    assert_eq!(w.data.entities.fighter.get(w.player).unwrap().hp, 1);
    assert!(!w.data.entities.is_dead(w.player));
}

#[test]
fn the_death_of_the_player_loses_the_game() {
    let mut w = world(Position(2, 2));
    let g = gol(&mut w, Position(3, 2));
    w.log.log(Msg::Attack(g, w.player, 50));
    assert_eq!(resolve(&mut w), Ok(()));
    assert!(w.data.entities.is_dead(w.player));
    assert_eq!(w.settings.state, GameState::Lose);
    assert_eq!(
        turn(&w),
        vec![Msg::Killed(g, w.player, 50), Msg::Attack(g, w.player, 50), Msg::PlayerDeath]
    );
}

#[test]
fn an_attack_on_what_cannot_fight_is_dropped() {
    let mut w = world(Position(2, 2));
    let mut log = MsgLog::new();
    let stone = make_stone(&mut w.data.entities, &Config::standard(), Position(1, 1), &mut log);
    w.log.log(Msg::Attack(w.player, stone, 3));
    w.log.log(Msg::Attack(w.player, 99, 3));
    assert_eq!(resolve(&mut w), Ok(()));
    assert_eq!(
        turn(&w),
        vec![
            Msg::Attack(w.player, stone, 3),
            Msg::Attack(w.player, 99, 3),
            Msg::Unavailable(w.player),
            Msg::Unavailable(w.player)
        ]
    );
    let gol = gol(&mut w, Position(5, 5));
    let f = w.data.entities.fighter.get(gol).unwrap();
    w.data.entities.fighter.insert(gol, roguelike_engine::object::Fighter { hp: i32::MIN + 1, ..f });
    w.log.clear();
    w.log.log(Msg::Attack(w.player, gol, 2));
    assert_eq!(resolve(&mut w), Ok(()));
    assert_eq!(w.data.entities.fighter.get(gol).unwrap().hp, i32::MIN + 1);
    assert_eq!(turn(&w), vec![Msg::Attack(w.player, gol, 2), Msg::Unavailable(w.player)]);
}

#[test]
fn a_spike_trap_hurts_who_steps_on_it() {
    let mut w = world(Position(2, 2));
    let mut log = MsgLog::new();
    let trap = make_trap(&mut w.data.entities, Trap::Spikes, Position(2, 3), &mut log);
    w.log.log(Msg::Action(w.player, Action::Move(Direction::Down)));
    assert_eq!(resolve(&mut w), Ok(()));
    assert_eq!(w.data.entities.fighter.get(w.player).unwrap().hp, 48);
    assert_eq!(
        turn(&w),
        vec![
            Msg::Action(w.player, Action::Move(Direction::Down)),
            Msg::Moved(w.player, Movement::Move(2, 3), Position(2, 3)),
            Msg::Sound(w.player, Position(2, 3), 3, true),
            Msg::SpikeTrapTriggered(trap, w.player),
            Msg::Sound(w.player, Position(2, 3), 8, true),
            Msg::Attack(trap, w.player, 2),
        ]
    );
}

#[test]
fn a_sound_trap_sounds() {
    let mut w = world(Position(2, 2));
    let mut log = MsgLog::new();
    let trap = make_trap(&mut w.data.entities, Trap::Sound, Position(2, 3), &mut log);
    let g = gol(&mut w, Position(9, 3));
    w.log.log(Msg::Moved(w.player, Movement::Move(2, 3), Position(2, 3)));
    assert_eq!(resolve(&mut w), Ok(()));
    assert_eq!(
        turn(&w),
        vec![
            Msg::Moved(w.player, Movement::Move(2, 3), Position(2, 3)),
            Msg::Sound(w.player, Position(2, 3), 3, true),
            Msg::SoundTrapTriggered(trap, w.player),
            Msg::Sound(w.player, Position(2, 3), 8, true),
        ]
    );
    assert_eq!(w.data.entities.messages.queue_len(g), 1);
    assert_eq!(w.data.entities.messages.item(g, 0), Msg::Sound(w.player, Position(2, 3), 8, true));
}

#[test]
fn a_sound_is_heard_within_its_radius() {
    let mut w = world(Position(0, 0));
    let near = gol(&mut w, Position(3, 4));
    let far = gol(&mut w, Position(4, 4));
    w.log.log(Msg::Sound(w.player, Position(0, 0), 5, false));
    w.log.log(Msg::Sound(near, Position(3, 4), 1, false));
    w.log.log(Msg::Yell(Position(4, 5)));
    assert_eq!(resolve(&mut w), Ok(()));
    assert_eq!(w.data.entities.messages.queue_len(near), 2);
    assert_eq!(w.data.entities.messages.item(near, 0), Msg::Sound(w.player, Position(0, 0), 5, false));
    assert_eq!(w.data.entities.messages.item(near, 1), Msg::Sound(w.player, Position(4, 5), 6, true));
    assert_eq!(w.data.entities.messages.queue_len(far), 2);
    assert_eq!(w.data.entities.messages.item(far, 0), Msg::Sound(near, Position(3, 4), 1, false));
    assert!(!w.data.entities.messages.contains(w.player));
}

#[test]
fn picking_up_and_dropping_restores_the_item() {
    let mut w = world(Position(2, 2));
    let mut log = MsgLog::new();
    let config = Config::standard();
    let old = make_stone(&mut w.data.entities, &config, Position(-1, -1), &mut log);
    w.data.entities.inventory.push_back(w.player, old);
    let stone = make_stone(&mut w.data.entities, &config, Position(2, 2), &mut log);
    w.log.log(Msg::Action(w.player, Action::Pickup));
    assert_eq!(resolve(&mut w), Ok(()));
    assert_eq!(w.data.entities.inventory.queue_len(w.player), 2);
    assert_eq!(w.data.entities.inventory.item(w.player, 1), stone);
    assert_eq!(w.data.entities.pos.get(stone), Some(Position(-1, -1)));
    assert!(turn(&w).contains(&Msg::PickedUp(w.player, stone)));

    w.log.log(Msg::Moved(w.player, Movement::Move(3, 2), Position(3, 2)));
    w.log.log(Msg::DropItem(w.player, stone));
    assert_eq!(resolve(&mut w), Ok(()));
    assert_eq!(w.data.entities.pos.get(stone), Some(Position(3, 2)));
    assert_eq!(w.data.entities.inventory.queue_len(w.player), 1);
    assert_eq!(w.data.entities.inventory.item(w.player, 0), old);
    assert_eq!(w.data.entities.item.get(stone), Some(Item::Stone));
    assert_eq!(w.data.entities.name.get(stone), Some(EntityName::Stone));
}

#[test]
fn tools_go_to_the_front_of_the_inventory() {
    let mut w = world(Position(2, 2));
    let mut log = MsgLog::new();
    let config = Config::standard();
    let stone = make_stone(&mut w.data.entities, &config, Position(2, 2), &mut log);
    let hammer = make_hammer(&mut w.data.entities, &config, Position(2, 2), &mut log);
    for _ in 0..3 {
        w.log.log(Msg::Action(w.player, Action::Pickup));
        assert_eq!(resolve(&mut w), Ok(()));
    }
    assert_eq!(w.data.entities.inventory.queue_len(w.player), 2);
    assert_eq!(w.data.entities.inventory.item(w.player, 0), hammer);
    assert_eq!(w.data.entities.inventory.item(w.player, 1), stone);
    assert_eq!(turn(&w).iter().filter(|m| **m == Msg::Unavailable(w.player)).count(), 1);
    w.log.log(Msg::Action(w.player, Action::DropItem));
    assert_eq!(resolve(&mut w), Ok(()));
    assert_eq!(w.data.entities.pos.get(hammer), Some(Position(2, 2)));
    assert_eq!(w.data.entities.inventory.item(w.player, 0), stone);
}

#[test]
fn what_cannot_be_done_is_noted() {
    let mut w = world(Position(2, 2));
    let half = Momentum { mx: 2, my: 0, took_half_turn: true, max: 2 };
    w.data.entities.momentum.insert(w.player, half);
    w.log.log(Msg::Action(w.player, Action::Pickup));
    w.log.log(Msg::Action(w.player, Action::DropItem));
    w.log.log(Msg::Action(w.player, Action::UseItem(Position(2, 3))));
    w.log.log(Msg::DropItem(w.player, 5));
    w.log.log(Msg::PickedUp(w.player, w.player));
    w.log.log(Msg::HammerSwing(w.player, Position(2, 3)));
    w.log.log(Msg::StateChange(42, Behavior::Idle));
    assert_eq!(resolve(&mut w), Ok(()));
    let log = turn(&w);
    assert_eq!(log.iter().filter(|m| **m == Msg::Unavailable(w.player)).count(), 6);
    assert_eq!(log.iter().filter(|m| **m == Msg::Unavailable(42)).count(), 1);
    assert_eq!(log.len(), 14);
    assert!(w.log.messages.is_empty());
    assert_eq!(w.data.entities.momentum.get(w.player), Some(half));
    w.log.log(Msg::Action(w.player, Action::Pass));
    assert_eq!(resolve(&mut w), Ok(()));
    assert_eq!(
        w.data.entities.momentum.get(w.player),
        Some(Momentum { took_half_turn: false, ..half })
    );
}

#[test]
fn a_stone_is_thrown_to_where_the_way_ends() {
    let mut w = world(Position(2, 2));
    let mut log = MsgLog::new();
    let stone = make_stone(&mut w.data.entities, &Config::standard(), Position(-1, -1), &mut log);
    w.data.entities.inventory.push_back(w.player, stone);
    w.data.map.set_tile(Position(2, 7), Tile::wall());
    w.log.log(Msg::Action(w.player, Action::UseItem(Position(2, 9))));
    assert_eq!(resolve(&mut w), Ok(()));
    assert_eq!(w.data.entities.pos.get(stone), Some(Position(2, 6)));
    assert_eq!(w.data.entities.inventory.queue_len(w.player), 0);
    assert_eq!(
        turn(&w),
        vec![
            Msg::Action(w.player, Action::UseItem(Position(2, 9))),
            Msg::ItemThrow(w.player, stone, Position(2, 2), Position(2, 9)),
            Msg::Sound(w.player, Position(2, 6), 4, true),
        ]
    );
}

#[test]
fn states_behaviors_and_tempo_are_set() {
    let mut w = world(Position(2, 2));
    let g = gol(&mut w, Position(5, 5));
    w.data.entities.momentum.insert(w.player, Momentum { mx: 0, my: 0, took_half_turn: true, max: 1 });
    w.log.log(Msg::StateChange(g, Behavior::Investigating(Position(1, 1))));
    w.log.log(Msg::GameState(GameState::Inventory));
    w.log.log(Msg::Action(w.player, Action::IncreaseMoveMode));
    assert_eq!(resolve(&mut w), Ok(()));
    assert_eq!(w.data.entities.behavior.get(g), Some(Behavior::Investigating(Position(1, 1))));
    assert_eq!(w.settings.state, GameState::Inventory);
    assert_eq!(w.data.entities.move_mode.get(w.player), Some(MoveMode::Run));
    assert_eq!(
        w.data.entities.momentum.get(w.player),
        Some(Momentum { mx: 0, my: 0, took_half_turn: false, max: 2 })
    );
    w.log.log(Msg::GameState(GameState::Win));
    w.log.log(Msg::GameState(GameState::Lose));
    w.data.entities.momentum.insert(w.player, Momentum { mx: 2, my: -2, took_half_turn: false, max: 2 });
    w.log.log(Msg::Action(w.player, Action::DecreaseMoveMode));
    assert_eq!(resolve(&mut w), Ok(()));
    assert_eq!(w.settings.state, GameState::Inventory);
    assert_eq!(w.data.entities.move_mode.get(w.player), Some(MoveMode::Walk));
    assert_eq!(
        w.data.entities.momentum.get(w.player),
        Some(Momentum { mx: 1, my: -1, took_half_turn: false, max: 1 })
    );
}

#[test]
fn housekeeping_thaws_counts_down_and_removes() {
    let mut w = world(Position(2, 2));
    let a = gol(&mut w, Position(3, 3));
    let b = gol(&mut w, Position(4, 4));
    let c = gol(&mut w, Position(5, 5));
    let d = gol(&mut w, Position(6, 6));
    w.data.entities.status.insert(a, Status { alive: true, frozen: 3 });
    w.data.entities.count_down.insert(b, 1);
    w.data.entities.count_down.insert(c, 0);
    w.data.entities.needs_removal.insert(d, true);
    w.data.entities.needs_removal.insert(a, true);
    w.data.entities.animation.push_back(a, roguelike_engine::object::Animation::Idle());
    assert_eq!(ai_entities(&w.data), vec![b, c, d]);
    keep_house(&mut w.data);
    assert_eq!(w.data.entities.ids(), vec![w.player, a, b]);
    assert_eq!(w.data.entities.status.get(a), Some(Status { alive: true, frozen: 2 }));
    assert_eq!(w.data.entities.count_down.get(b), Some(0));
    assert_eq!(w.data.entities.pos.get(c), None);
    assert_eq!(w.data.entities.pos.get(d), None);
    keep_house(&mut w.data);
    assert_eq!(w.data.entities.ids(), vec![w.player, a]);
    assert!(w.data.is_wf());
}

#[test]
fn a_turn_without_a_player_is_a_violation() {
    let mut data = GameData::new(TileMap::from_dims(3, 3), Entities::new());
    let mut log = MsgLog::new();
    let mut settings = GameSettings::new(0, false);
    assert!(!level_exit_condition_met(&data));
    assert_eq!(
        step_with_rolls(&mut data, &mut log, &mut settings, &Config::standard(), Action::Pass, &vec![]),
        Err(GameError::InvariantViolation)
    );
    assert_eq!(settings.turn_count, 0);
}

#[test]
fn a_world_that_is_not_well_formed_is_not_stepped() {
    let mut game = Game::new(3, Config::standard()).unwrap();
    game.make_map();
    game.data.entities.pos.grow();
    game.input_action = InputAction::Move(Direction::Right);
    assert_eq!(game.step_game(), Err(GameError::InvariantViolation));
    assert_eq!(game.input_action, InputAction::Move(Direction::Right));
    assert_eq!(game.settings.turn_count, 0);
    assert_eq!(game.data.entities.pos.get(0), Some(Position(0, 0)));
}

#[test]
fn the_count_of_turns_goes_up_by_whole_turns_only() {
    let mut game = Game::new(0, Config::standard()).unwrap();
    game.make_map();
    let inputs = [
        (InputAction::IncreaseMoveMode, 0),
        (InputAction::Move(Direction::Right), 1),
        (InputAction::Move(Direction::Right), 1),
        (InputAction::Move(Direction::Right), 2),
        (InputAction::Move(Direction::Right), 2),
        (InputAction::Pass, 3),
        (InputAction::Nothing, 3),
        (InputAction::Pickup, 3),
        (InputAction::Inventory, 3),
        (InputAction::Move(Direction::Right), 3),
        (InputAction::Esc, 3),
        (InputAction::Yell, 4),
        (InputAction::Move(Direction::Left), 5),
        (InputAction::DropItem, 6),
        (InputAction::DropItem, 6),
    ];
    let mut last = 0;
    for (input, expected) in inputs {
        game.input_action = input;
        assert_eq!(game.step_game(), Ok(GameResult::Continue));
        assert!(game.settings.turn_count >= last);
        assert!(game.settings.turn_count <= last + 1);
        assert_eq!(game.settings.turn_count, expected);
        last = game.settings.turn_count;
    }
    assert_eq!(game.data.entities.pos.get(0), Some(Position(3, 0)));
    assert_eq!(game.data.entities.pos.get(1), Some(Position(3, 0)));
}

#[test]
fn the_same_seed_and_inputs_give_the_same_log() {
    let inputs = [
        InputAction::Move(Direction::Right),
        InputAction::Yell,
        InputAction::Move(Direction::Down),
        InputAction::IncreaseMoveMode,
        InputAction::Move(Direction::Down),
        InputAction::Move(Direction::Down),
        InputAction::Pass,
        InputAction::Move(Direction::UpRight),
    ];
    let mut logs: Vec<Vec<Vec<Msg>>> = Vec::new();
    for _ in 0..2 {
        let mut game = Game::new(11, Config::standard()).unwrap();
        game.make_map();
        let config = Config::standard();
        make_gol(&mut game.data.entities, &config, Position(4, 4), &mut game.msg_log);
        make_pawn(&mut game.data.entities, &config, Position(6, 1), &mut game.msg_log);
        game.data.map.set_tile(Position(3, 3), Tile::wall());
        let mut log = Vec::new();
        for input in inputs {
            game.input_action = input;
            game.step_game().unwrap();
            log.push(game.msg_log.turn_messages.iter().copied().collect::<Vec<Msg>>());
        }
        logs.push(log);
    }
    assert_eq!(logs[0], logs[1]);
    assert!(logs[0].iter().all(|turn| !turn.is_empty()));
}

#[test]
fn menus_and_quitting() {
    let mut game = Game::new(0, Config::standard()).unwrap();
    game.make_map();
    game.input_action = InputAction::Inventory;
    assert_eq!(game.step_game(), Ok(GameResult::Continue));
    assert_eq!(game.settings.state, GameState::Inventory);
    assert_eq!(game.input_action, InputAction::Nothing);
    game.input_action = InputAction::Move(Direction::Right);
    assert_eq!(game.step_game(), Ok(GameResult::Continue));
    assert_eq!(game.data.entities.pos.get(0), Some(Position(0, 0)));
    game.input_action = InputAction::Exit;
    assert_eq!(game.step_game(), Ok(GameResult::Continue));
    assert_eq!(game.settings.state, GameState::ConfirmQuit);
    game.input_action = InputAction::Esc;
    assert_eq!(game.step_game(), Ok(GameResult::Continue));
    assert_eq!(game.settings.state, GameState::Playing);
    game.input_action = InputAction::GodMode;
    game.step_game().unwrap();
    assert!(game.settings.god_mode);
    game.input_action = InputAction::OverlayOn;
    game.step_game().unwrap();
    assert!(game.settings.overlay);
    game.input_action = InputAction::Exit;
    game.step_game().unwrap();
    game.input_action = InputAction::Exit;
    assert_eq!(game.step_game(), Ok(GameResult::Stop));
    assert!(game.settings.exiting);
    let mut lost = Game::new(0, Config::standard()).unwrap();
    lost.make_map();
    lost.settings.state = GameState::Lose;
    lost.input_action = InputAction::Pass;
    assert_eq!(lost.step_game(), Ok(GameResult::Continue));
    lost.input_action = InputAction::Exit;
    assert_eq!(lost.step_game(), Ok(GameResult::Stop));
    let mut forced = Game::new(0, Config::standard()).unwrap();
    forced.make_map();
    forced.input_action = InputAction::ForceExit;
    assert_eq!(forced.step_game(), Ok(GameResult::Stop));
    assert_eq!(forced.input_action, InputAction::ForceExit);
}

#[test]
fn a_new_game_holds_the_player_with_a_stone() {
    let game = Game::new(5, Config::standard()).unwrap();
    assert_eq!(game.data.find_player(), Some(0));
    assert_eq!(game.data.entities.pos.get(0), Some(Position(-1, -1)));
    assert_eq!(game.data.entities.pos.get(1), Some(Position(-1, -1)));
    assert_eq!(game.data.is_in_inventory(0, Item::Stone), Some(1));
    assert_eq!(game.data.entities.inventory.queue_len(0), 1);
    assert_eq!((game.data.map.width(), game.data.map.height()), (0, 0));
    assert_eq!(game.settings, GameSettings::new(0, false));
    assert_eq!(game.input_action, InputAction::Nothing);
    assert_eq!(
        game.msg_log.messages.iter().copied().collect::<Vec<Msg>>(),
        vec![Msg::SpawnedObject(0), Msg::SpawnedObject(1)]
    );
    assert_eq!(game.config, Config::standard());
}

#[test]
fn a_wall_is_jumped_and_a_corner_kicked() {
    let mut w = world(Position(4, 4));
    w.data.map.set_tile(Position(4, 4), Tile { bottom_wall: roguelike_engine::map::Wall::ShortWall, ..Tile::empty() });
    w.data.entities.move_mode.insert(w.player, MoveMode::Run);
    w.data.entities.momentum.insert(w.player, Momentum { mx: 0, my: 2, took_half_turn: true, max: 2 });
    w.log.log(Msg::Action(w.player, Action::Move(Direction::Down)));
    assert_eq!(resolve(&mut w), Ok(()));
    assert_eq!(w.data.entities.pos.get(w.player), Some(Position(4, 5)));
    assert_eq!(
        w.data.entities.momentum.get(w.player),
        Some(Momentum { mx: 0, my: 2, took_half_turn: false, max: 2 })
    );
    assert_eq!(
        turn(&w),
        vec![
            Msg::Action(w.player, Action::Move(Direction::Down)),
            Msg::JumpWall(w.player, Position(4, 4), Position(4, 5)),
            Msg::Moved(w.player, Movement::JumpWall(4, 5), Position(4, 5)),
            Msg::Sound(w.player, Position(4, 5), 5, true),
        ]
    );
    w.log.clear();
    w.data.map.set_tile(Position(5, 6), Tile::wall());
    w.data.map.set_tile(Position(5, 5), Tile::wall());
    w.log.log(Msg::Action(w.player, Action::Move(Direction::DownRight)));
    assert_eq!(resolve(&mut w), Ok(()));
    assert_eq!(w.data.entities.pos.get(w.player), Some(Position(4, 6)));
    assert_eq!(
        w.data.entities.momentum.get(w.player),
        Some(Momentum { mx: 0, my: 1, took_half_turn: false, max: 2 })
    );
    assert_eq!(
        turn(&w),
        vec![
            Msg::Action(w.player, Action::Move(Direction::DownRight)),
            Msg::WallKick(w.player, Position(4, 6)),
            Msg::Moved(w.player, Movement::WallKick(4, 6, 0, 1), Position(4, 6)),
            Msg::Sound(w.player, Position(4, 6), 5, true),
        ]
    );
}

#[test]
fn an_adjacent_monster_attacks_each_turn() {
    let mut game = Game::new(1, Config::standard()).unwrap();
    game.data.map = TileMap::from_dims(10, 10);
    game.data.entities.pos.insert(0, Position(4, 4));
    let config = Config::standard();
    let pawn = make_pawn(&mut game.data.entities, &config, Position(5, 4), &mut game.msg_log);
    game.input_action = InputAction::Pass;
    assert_eq!(game.step_game(), Ok(GameResult::Continue));
    assert_eq!(game.data.entities.behavior.get(pawn), Some(Behavior::Attacking(0)));
    assert_eq!(game.data.entities.fighter.get(0).unwrap().hp, 45);
    assert!(game.msg_log.turn_messages.iter().any(|m| *m == Msg::Attack(pawn, 0, 5)));
    game.input_action = InputAction::Move(Direction::Right);
    assert_eq!(game.step_game(), Ok(GameResult::Continue));
    assert_eq!(game.data.entities.fighter.get(pawn).unwrap().hp, 11);
    assert_eq!(game.data.entities.fighter.get(0).unwrap().hp, 40);
    assert_eq!(game.data.entities.pos.get(0), Some(Position(4, 4)));
    assert_eq!(game.settings.turn_count, 2);
    for _ in 0..8 {
        game.input_action = InputAction::Pass;
        assert_eq!(game.step_game(), Ok(GameResult::Continue));
    }
    assert!(game.data.entities.is_dead(0));
    assert_eq!(game.settings.state, GameState::Lose);
    assert_eq!(game.data.entities.fighter.get(0).unwrap().hp, 0);
    assert_eq!(game.settings.turn_count, 10);
    game.input_action = InputAction::Move(Direction::Left);
    assert_eq!(game.step_game(), Ok(GameResult::Continue));
    assert_eq!(game.data.entities.pos.get(0), Some(Position(4, 4)));
    assert_eq!(game.settings.turn_count, 10);
}

#[test]
fn a_monster_looks_where_it_heard_a_yell() {
    let mut game = Game::new(1, Config::standard()).unwrap();
    game.data.map = TileMap::from_dims(20, 20);
    game.data.entities.pos.insert(0, Position(2, 10));
    for y in 0..20 {
        game.data.map.set_tile(Position(5, y), Tile::wall());
    }
    game.data.map.set_tile(Position(5, 2), Tile::empty());
    let config = Config::standard();
    let gol = make_gol(&mut game.data.entities, &config, Position(7, 10), &mut game.msg_log);
    game.input_action = InputAction::Pass;
    game.step_game().unwrap();
    assert_eq!(game.data.entities.behavior.get(gol), Some(Behavior::Idle));
    assert_eq!(game.data.entities.pos.get(gol), Some(Position(7, 10)));
    game.input_action = InputAction::Yell;
    game.step_game().unwrap();
    assert_eq!(game.data.entities.behavior.get(gol), Some(Behavior::Investigating(Position(2, 10))));
    assert_eq!(game.data.entities.pos.get(gol), Some(Position(6, 10)));
    assert_eq!(game.data.entities.messages.queue_len(gol), 0);
    game.input_action = InputAction::Pass;
    game.step_game().unwrap();
    assert_eq!(game.data.entities.behavior.get(gol), Some(Behavior::Investigating(Position(2, 10))));
    let at = game.data.entities.pos.get(gol);
    assert!(at == Some(Position(6, 9)) || at == Some(Position(6, 11)));
}

#[test]
fn an_item_is_used_in_a_direction() {
    let mut game = Game::new(1, Config::standard()).unwrap();
    game.data.map = TileMap::from_dims(10, 10);
    game.data.entities.pos.insert(0, Position(4, 4));
    game.input_action = InputAction::UseItemDir(Direction::Right, 0);
    assert_eq!(game.step_game(), Ok(GameResult::Continue));
    assert_eq!(game.data.entities.pos.get(1), Some(Position(5, 4)));
    assert_eq!(game.data.entities.inventory.queue_len(0), 0);
    assert_eq!(game.settings.turn_count, 1);
    game.input_action = InputAction::UseItemDir(Direction::Right, 0);
    assert_eq!(game.step_game(), Ok(GameResult::Continue));
    assert_eq!(game.settings.turn_count, 1);
    assert!(game.msg_log.turn_messages.iter().any(|m| *m == Msg::Unavailable(0)));
    game.input_action = InputAction::UseItemDir(Direction::Right, 1);
    assert_eq!(game.step_game(), Ok(GameResult::Continue));
    assert!(game.msg_log.turn_messages.iter().any(|m| *m == Msg::Unavailable(0)));
}
