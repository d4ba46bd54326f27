use roguelike_engine::data::GameData;
use roguelike_engine::entities::Entities;
use roguelike_engine::lines::line_between;
use roguelike_engine::make::{
    make_exit, make_gol, make_hammer, make_pawn, make_player, make_stone, make_trap, make_mouse,
    make_goal,
};
use roguelike_engine::map::{Surface, Tile, TileMap, TileType, Wall, MAP_HEIGHT, MAP_WIDTH};
use roguelike_engine::messaging::{Msg, MsgLog};
use roguelike_engine::momentum::Momentum;
use roguelike_engine::action::MoveMode;
use roguelike_engine::object::{
    Ai, Behavior, DeathCallback, EntityName, Fighter, Item, ObjType, Status, Trap,
};
use roguelike_engine::settings::Config;
use roguelike_engine::store::{CompStore, QueueStore};
use roguelike_engine::types::{Position, Reach};

#[test]
fn comp_store_is_sparse() {
    let mut s: CompStore<i32> = CompStore::new();
    assert_eq!(s.len(), 0);
    assert_eq!(s.get(0), None);
    assert!(!s.contains(3));
    s.grow();
    s.grow();
    assert_eq!(s.len(), 2);
    assert_eq!(s.get(1), None);
    s.insert(1, 42);
    assert_eq!(s.get(1), Some(42));
    assert_eq!(s.get(0), None);
    assert!(s.contains(1));
    s.put(0, Some(7));
    s.put(1, None);
    assert_eq!(s.get(0), Some(7));
    assert_eq!(s.get(1), None);
    s.remove(0);
    s.remove(17);
    assert_eq!(s.get(0), None);
    assert_eq!(s.len(), 2);
}

#[test]
fn queue_store_keeps_order() {
    let mut s: QueueStore<usize> = QueueStore::new();
    s.grow();
    s.grow();
    assert!(!s.contains(0));
    assert_eq!(s.queue_len(0), 0);
    s.insert_empty(0);
    assert!(s.contains(0));
    s.push_back(0, 5);
    s.push_back(0, 6);
    s.push_front(0, 4);
    assert_eq!(s.queue_len(0), 3);
    assert_eq!((s.item(0, 0), s.item(0, 1), s.item(0, 2)), (4, 5, 6));
    s.remove_at(0, 1);
    assert_eq!((s.item(0, 0), s.item(0, 1)), (4, 6));
    s.clear(0);
    assert!(s.contains(0));
    assert_eq!(s.queue_len(0), 0);
    s.clear(1);
    assert!(!s.contains(1));
    s.remove(0);
    assert!(!s.contains(0));
    assert_eq!(s.len(), 2);
}

#[test]
fn ids_are_handed_out_in_order_and_never_again() {
    let mut e = Entities::new();
    assert!(e.is_wf());
    assert_eq!(e.create(), 0);
    assert_eq!(e.create(), 1);
    assert_eq!(e.create(), 2);
    assert_eq!(e.ids(), vec![0, 1, 2]);
    e.remove(1);
    assert_eq!(e.ids(), vec![0, 2]);
    assert!(e.contains(0) && !e.contains(1) && e.contains(2));
    assert_eq!(e.create(), 3);
    assert_eq!(e.ids(), vec![0, 2, 3]);
    assert_eq!(e.count(), 4);
    e.remove(1);
    e.remove(99);
    assert_eq!(e.ids(), vec![0, 2, 3]);
    assert!(e.is_wf());
}

#[test]
fn a_new_entity_has_no_attributes() {
    let mut e = Entities::new();
    let id = e.create();
    assert_eq!(e.pos.get(id), None);
    assert_eq!(e.name.get(id), None);
    assert_eq!(e.blocks.get(id), None);
    assert_eq!(e.fighter.get(id), None);
    assert!(!e.inventory.contains(id));
    assert!(!e.is_dead(id));
}

#[test]
fn removal_takes_every_attribute() {
    let config = Config::standard();
    let mut e = Entities::new();
    let mut log = MsgLog::new();
    let player = make_player(&mut e, &config, &mut log);
    let gol = make_gol(&mut e, &config, Position(2, 2), &mut log);
    e.remove(gol);
    assert_eq!(e.pos.get(gol), None);
    assert_eq!(e.name.get(gol), None);
    assert_eq!(e.fighter.get(gol), None);
    assert_eq!(e.ai.get(gol), None);
    assert_eq!(e.status.get(gol), None);
    assert!(!e.messages.contains(gol));
    assert_eq!(e.blocking_entity_at(Position(2, 2), None), None);
    assert_eq!(e.name.get(player), Some(EntityName::Player));
    assert!(e.is_wf());
}

#[test]
fn a_store_with_uneven_attributes_is_not_well_formed() {
    let mut e = Entities::new();
    e.create();
    e.pos.grow();
    assert!(!e.is_wf());
    let mut f = Entities::new();
    f.create();
    f.ids.push(0);
    assert!(!f.is_wf());
    let mut g = Entities::new();
    g.ids.push(4);
    assert!(!g.is_wf());
}

#[test]
fn factories_fill_the_attributes() {
    let config = Config::standard();
    let mut e = Entities::new();
    let mut log = MsgLog::new();
    let player = make_player(&mut e, &config, &mut log);
    assert_eq!(player, 0);
    assert_eq!(e.name.get(player), Some(EntityName::Player));
    assert_eq!(e.chr.get(player), Some('@'));
    assert_eq!(e.blocks.get(player), Some(true));
    assert_eq!(e.typ.get(player), Some(ObjType::Player));
    assert_eq!(e.pos.get(player), Some(Position(0, 0)));
    assert_eq!(e.status.get(player), Some(Status { alive: true, frozen: 0 }));
    assert_eq!(
        e.fighter.get(player),
        Some(Fighter { max_hp: 50, hp: 50, defense: 0, power: 5, on_death: DeathCallback::Player })
    );
    assert_eq!(e.movement.get(player), Some(Reach::Single(1)));
    assert_eq!(e.attack.get(player), Some(Reach::Single(1)));
    assert_eq!(e.momentum.get(player), Some(Momentum { mx: 0, my: 0, took_half_turn: false, max: 1 }));
    assert_eq!(e.move_mode.get(player), Some(MoveMode::Walk));
    assert!(e.inventory.contains(player));
    assert_eq!(e.ai.get(player), None);
    assert_eq!(e.needs_removal.get(player), Some(false));
    assert_eq!(e.animation.queue_len(player), 0);

    let gol = make_gol(&mut e, &config, Position(3, 4), &mut log);
    assert_eq!(e.name.get(gol), Some(EntityName::Gol));
    assert_eq!(e.ai.get(gol), Some(Ai::Basic));
    assert_eq!(e.behavior.get(gol), Some(Behavior::Idle));
    assert_eq!(e.attack.get(gol), Some(Reach::Diag(5)));
    assert_eq!(e.typ.get(gol), Some(ObjType::Enemy));
    assert_eq!(e.fighter.get(gol).unwrap().on_death, DeathCallback::Monster);
    assert_eq!(e.fighter.get(gol).unwrap().hp, 10);
    assert!(e.messages.contains(gol));
    assert!(!e.inventory.contains(gol));
    let pawn = make_pawn(&mut e, &config, Position(5, 5), &mut log);
    assert_eq!(e.name.get(pawn), Some(EntityName::Pawn));
    assert_eq!(e.fighter.get(pawn).unwrap().power, 5);
    assert_eq!(e.attack.get(pawn), Some(Reach::Single(1)));

    let stone = make_stone(&mut e, &config, Position(1, 1), &mut log);
    assert_eq!(e.item.get(stone), Some(Item::Stone));
    assert_eq!(e.blocks.get(stone), Some(false));
    let hammer = make_hammer(&mut e, &config, Position(1, 2), &mut log);
    assert_eq!(e.item.get(hammer), Some(Item::Hammer));
    assert_eq!(e.name.get(hammer), Some(EntityName::Hammer));
    let goal = make_goal(&mut e, &config, Position(1, 3), &mut log);
    assert_eq!(e.item.get(goal), Some(Item::Goal));
    let exit = make_exit(&mut e, &config, Position(9, 9), &mut log);
    assert_eq!(e.name.get(exit), Some(EntityName::Exit));
    let mouse = make_mouse(&mut e, &config, &mut log);
    assert_eq!(e.name.get(mouse), Some(EntityName::Mouse));
    assert_eq!(e.pos.get(mouse), Some(Position(-1, -1)));
    let spikes = make_trap(&mut e, Trap::Spikes, Position(7, 7), &mut log);
    assert_eq!(e.trap.get(spikes), Some(Trap::Spikes));
    assert_eq!(e.name.get(spikes), Some(EntityName::SpikeTrap));
    let sound = make_trap(&mut e, Trap::Sound, Position(7, 8), &mut log);
    assert_eq!(e.name.get(sound), Some(EntityName::SoundTrap));
    assert_eq!(
        log.messages.iter().copied().collect::<Vec<Msg>>(),
        (0..10).map(Msg::SpawnedObject).collect::<Vec<Msg>>()
    );
    assert!(e.is_wf());
}

#[test]
fn a_fighter_without_hit_points_starts_dead() {
    let mut config = Config::standard();
    config.gol.hp = 0;
    let mut e = Entities::new();
    let mut log = MsgLog::new();
    let gol = make_gol(&mut e, &config, Position(0, 0), &mut log);
    assert_eq!(e.status.get(gol), Some(Status { alive: false, frozen: 0 }));
    assert!(e.is_dead(gol));
    assert_eq!(e.blocks.get(gol), Some(false));
    assert_eq!(e.blocking_entity_at(Position(0, 0), None), None);
}

#[test]
fn searches_find_the_first() {
    let config = Config::standard();
    let mut e = Entities::new();
    let mut log = MsgLog::new();
    assert_eq!(e.find_player(), None);
    let g1 = make_gol(&mut e, &config, Position(2, 2), &mut log);
    let player = make_player(&mut e, &config, &mut log);
    let g2 = make_gol(&mut e, &config, Position(3, 3), &mut log);
    let s1 = make_stone(&mut e, &config, Position(2, 2), &mut log);
    let s2 = make_stone(&mut e, &config, Position(2, 2), &mut log);
    let trap = make_trap(&mut e, Trap::Sound, Position(2, 2), &mut log);
    assert_eq!(e.find_by_name(EntityName::Gol), Some(g1));
    assert_eq!(e.find_player(), Some(player));
    assert_eq!(e.find_exit(), None);
    assert_eq!(e.blocking_entity_at(Position(2, 2), None), Some(g1));
    assert_eq!(e.blocking_entity_at(Position(2, 2), Some(g1)), None);
    assert_eq!(e.blocking_entity_at(Position(3, 3), Some(g1)), Some(g2));
    assert_eq!(e.blocking_entity_at(Position(4, 4), None), None);
    assert_eq!(e.item_at(Position(2, 2)), Some(s1));
    assert_eq!(e.item_at(Position(3, 3)), None);
    assert_eq!(e.trap_at(Position(2, 2)), Some(trap));
    assert_eq!(e.trap_at(Position(0, 0)), None);
    e.remove(s1);
    assert_eq!(e.item_at(Position(2, 2)), Some(s2));
}

#[test]
fn inventory_search_and_removal() {
    let config = Config::standard();
    let mut e = Entities::new();
    let mut log = MsgLog::new();
    let player = make_player(&mut e, &config, &mut log);
    let stone = make_stone(&mut e, &config, Position(-1, -1), &mut log);
    let hammer = make_hammer(&mut e, &config, Position(-1, -1), &mut log);
    let stone2 = make_stone(&mut e, &config, Position(-1, -1), &mut log);
    assert_eq!(e.is_in_inventory(player, Item::Stone), None);
    e.inventory.push_back(player, stone);
    e.inventory.push_back(player, hammer);
    e.inventory.push_back(player, stone2);
    assert_eq!(e.is_in_inventory(player, Item::Stone), Some(stone));
    assert_eq!(e.is_in_inventory(player, Item::Hammer), Some(hammer));
    assert_eq!(e.is_in_inventory(player, Item::Goal), None);
    assert_eq!(e.is_in_inventory(stone, Item::Stone), None);
    assert_eq!(e.inventory_index(player, hammer), Some(1));
    assert_eq!(e.inventory_index(player, player), None);
    e.remove_item(player, stone);
    assert_eq!(e.is_in_inventory(player, Item::Stone), Some(stone2));
    assert_eq!(e.inventory.queue_len(player), 2);
    assert_eq!(e.item.get(stone), Some(Item::Stone));
    assert!(e.contains(stone));
    e.remove_item(player, stone);
    e.remove_item(stone, hammer);
    assert_eq!(e.inventory.queue_len(player), 2);
    let data = GameData::new(TileMap::from_dims(4, 4), e);
    assert_eq!(data.is_in_inventory(player, Item::Hammer), Some(hammer));
    assert_eq!(data.find_player(), Some(player));
    assert_eq!(data.find_exit(), None);
    assert_eq!(data.find_by_name(EntityName::Stone), Some(stone));
    assert!(data.is_wf());
}

#[test]
fn map_of_free_floor() {
    let map = TileMap::from_dims(4, 3);
    assert!(map.is_wf());
    assert_eq!((map.width(), map.height()), (4, 3));
    assert!(map.is_within_bounds(0, 0) && map.is_within_bounds(3, 2));
    assert!(!map.is_within_bounds(4, 0) && !map.is_within_bounds(0, 3));
    assert!(!map.is_within_bounds(-1, 0) && !map.is_within_bounds(0, -1));
    assert_eq!(map.tile(Position(3, 2)), Tile::empty());
    assert_eq!(map.get(Position(3, 2)), Some(Tile::empty()));
    assert_eq!(map.get(Position(4, 2)), None);
    assert!(!map.is_tile_blocked(Position(1, 1)));
    assert!(map.is_tile_blocked(Position(-1, 1)));
    let none = TileMap::empty();
    assert!(none.is_wf());
    assert!(!none.is_within_bounds(0, 0));
    assert_eq!((MAP_WIDTH, MAP_HEIGHT), (80, 50));
}

#[test]
fn tiles() {
    assert!(Tile::wall().block_move && Tile::wall().block_sight);
    assert_eq!(Tile::wall().tile_type, TileType::Wall);
    assert!(Tile::water().block_move && !Tile::water().block_sight);
    assert_eq!(Tile::water().tile_type, TileType::Water);
    assert_eq!(Tile::exit().tile_type, TileType::Exit);
    assert!(!Tile::exit().block_move);
    let t = Tile::empty();
    assert_eq!((t.surface, t.bottom_wall, t.left_wall), (Surface::Floor, Wall::Empty, Wall::Empty));
}

#[test]
fn set_tile_changes_one_tile() {
    let mut map = TileMap::from_dims(3, 3);
    map.set_tile(Position(1, 2), Tile::wall());
    assert_eq!(map.tile(Position(1, 2)), Tile::wall());
    assert_eq!(map.tile(Position(2, 1)), Tile::empty());
    assert!(map.is_tile_blocked(Position(1, 2)));
    assert!(map.is_wf());
    let mut broken = TileMap::from_dims(3, 3);
    broken.tiles.pop();
    assert!(!broken.is_wf());
    broken.width = 2;
    assert!(broken.is_wf());
    broken.tiles[0].pop();
    assert!(!broken.is_wf());
}

#[test]
fn walls_stand_between_tiles() {
    let mut map = TileMap::from_dims(4, 4);
    map.set_tile(Position(1, 1), Tile { bottom_wall: Wall::ShortWall, ..Tile::empty() });
    map.set_tile(Position(2, 2), Tile { left_wall: Wall::TallWall, ..Tile::empty() });
    assert!(map.is_blocked_by_wall(1, 1, 0, 1));
    assert!(map.is_blocked_by_wall(1, 2, 0, -1));
    assert!(!map.is_blocked_by_wall(1, 1, 0, -1));
    assert!(!map.is_blocked_by_wall(1, 1, 1, 0));
    assert!(map.is_blocked_by_wall(1, 2, 1, 0));
    assert!(map.is_blocked_by_wall(2, 2, -1, 0));
    assert!(!map.is_blocked_by_wall(2, 2, 1, 0));
    assert!(map.is_blocked_by_wall(1, 1, 1, 1));
    assert!(map.is_blocked_by_wall(1, 2, 1, 1));
    assert!(!map.is_blocked_by_wall(0, 0, 1, 1));
    assert!(!map.is_blocked_by_wall(3, 3, 1, 1));
    assert!(!map.is_blocked_by_wall(1, 1, 0, 0));
    map.clear_walls_facing(1, 2, 1, -1);
    assert_eq!(map.tile(Position(2, 2)).left_wall, Wall::Empty);
    assert_eq!(map.tile(Position(1, 1)).bottom_wall, Wall::Empty);
    assert!(!map.is_blocked_by_wall(1, 1, 0, 1));
    map.clear_walls_facing(0, 0, -1, -1);
    assert!(map.is_wf());
}

#[test]
fn lines_are_straight_where_they_can_be() {
    assert_eq!(line_between(Position(0, 0), Position(3, 0)), vec![Position(1, 0), Position(2, 0), Position(3, 0)]);
    assert_eq!(line_between(Position(0, 0), Position(0, -2)), vec![Position(0, -1), Position(0, -2)]);
    assert_eq!(line_between(Position(2, 2), Position(0, 4)), vec![Position(1, 3), Position(0, 4)]);
    assert_eq!(line_between(Position(1, 1), Position(1, 1)), vec![]);
}

#[test]
fn lines_round_to_the_nearest_tile() {
    assert_eq!(
        line_between(Position(0, 0), Position(4, 2)),
        vec![Position(1, 1), Position(2, 1), Position(3, 2), Position(4, 2)]
    );
    assert_eq!(
        line_between(Position(0, 0), Position(-4, -2)),
        vec![Position(-1, -1), Position(-2, -1), Position(-3, -2), Position(-4, -2)]
    );
    assert_eq!(
        line_between(Position(0, 0), Position(1, 5)),
        vec![Position(0, 1), Position(0, 2), Position(1, 3), Position(1, 4), Position(1, 5)]
    );
    let long = line_between(Position(i32::MAX - 1000, i32::MIN), Position(i32::MAX, i32::MIN + 999));
    assert_eq!(long.len(), 1000);
    assert_eq!(long[0], Position(i32::MAX - 999, i32::MIN + 1));
    assert_eq!(long[999], Position(i32::MAX, i32::MIN + 999));
}

#[test]
fn sight_is_blocked_by_tiles_between() {
    let mut map = TileMap::from_dims(6, 6);
    assert!(map.is_visible(Position(0, 0), Position(5, 5)));
    assert!(map.is_visible(Position(0, 0), Position(0, 0)));
    assert!(!map.is_visible(Position(0, 0), Position(6, 5)));
    assert!(!map.is_visible(Position(-1, 0), Position(3, 3)));
    map.set_tile(Position(2, 0), Tile::wall());
    assert!(!map.is_visible(Position(0, 0), Position(4, 0)));
    assert!(!map.is_visible(Position(4, 0), Position(0, 0)));
    assert!(map.is_visible(Position(0, 0), Position(2, 0)));
    assert!(map.is_visible(Position(0, 0), Position(1, 0)));
    assert!(map.is_visible(Position(0, 1), Position(4, 1)));
    map.set_tile(Position(2, 1), Tile::water());
    assert!(map.is_visible(Position(0, 1), Position(4, 1)));
}

#[test]
fn the_world_removes_entities_and_knows_what_blocks() {
    let config = Config::standard();
    let mut e = Entities::new();
    let mut log = MsgLog::new();
    let player = make_player(&mut e, &config, &mut log);
    let gol = make_gol(&mut e, &config, Position(2, 2), &mut log);
    let mut data = GameData::new(TileMap::from_dims(4, 4), e);
    data.map.set_tile(Position(1, 1), Tile::wall());
    assert!(data.is_blocked(Position(2, 2), None));
    assert!(data.is_blocked(Position(2, 2), Some(player)));
    assert!(!data.is_blocked(Position(2, 2), Some(gol)));
    assert!(data.is_blocked(Position(1, 1), None));
    assert!(data.is_blocked(Position(4, 4), None));
    assert!(!data.is_blocked(Position(3, 3), None));
    data.remove_entity(gol);
    assert!(!data.is_blocked(Position(2, 2), None));
    assert_eq!(data.entities.ids(), vec![player]);
    assert!(data.is_wf());
}
