//! The game: the world with its settings, log and random numbers, and the
//! step that takes one input of the player.

use crate::action::{Action, GameState, InputAction};
use crate::data::{DataView, GameData};
use crate::effect::GameError;
use crate::entities::{Entities, EntitiesView};
use crate::input::{Input, InputView};
use crate::make::{item_template, make_player, make_stone, player_template};
use crate::map::{MapView, Tile, TileMap, MAP_HEIGHT, MAP_WIDTH};
use crate::messaging::{Msg, MsgLog, MsgLogView};
use crate::movement::{offset_fits, offset_pos};
use crate::moving::held_pos;
use crate::object::{EntityName, Item};
use crate::resolve::WorldView;
use crate::settings::{Config, GameResult, GameSettings};
use crate::step::step_with_rolls;
use crate::store::lookup;
use crate::turn::{exit_met, next_count, turn_of};
use crate::types::{Direction, EntityId, Position};
use rand::rngs::SmallRng;
use vstd::prelude::*;

verus! {

/// The generator of random numbers of the `rand` crate. Nothing is known
/// of its state.
#[verifier::external_type_specification]
#[verifier::external_body]
pub struct ExSmallRng(rand::rngs::SmallRng);

/// Makes a generator from a seed with `SeedableRng::seed_from_u64`.
#[verifier::external_body]
fn rng_from_seed(seed: u64) -> SmallRng {
    rand::SeedableRng::seed_from_u64(seed)
}

/// Draws one number with `Rng::gen`. It can be any number.
#[verifier::external_body]
fn draw(rng: &mut SmallRng) -> usize {
    rand::Rng::gen::<usize>(rng)
}

/// Draws `n` numbers.
pub fn draw_rolls(rng: &mut SmallRng, n: usize) -> (v: Vec<usize>)
    ensures
        v@.len() == n,
{
    let mut v: Vec<usize> = Vec::new();
    let mut i: usize = 0;
    while i < n
        invariant
            0 <= i <= n,
            v@.len() == i,
        decreases n - i,
    {
        v.push(draw(rng));
        i = i + 1;
    }
    v
}

/// The game.
pub struct Game {
    pub config: Config,
    pub input_action: InputAction,
    pub data: GameData,
    pub settings: GameSettings,
    pub msg_log: MsgLog,
    pub rng: SmallRng,
    pub input: Input,
}

/// The mathematical value of the game, without its random numbers.
pub struct GameView {
    pub world: WorldView,
    pub config: Config,
    pub input_action: InputAction,
    pub input: InputView,
}

impl View for Game {
    type V = GameView;

    open spec fn view(&self) -> GameView {
        GameView {
            world: WorldView { data: self.data@, settings: self.settings, log: self.msg_log@ },
            config: self.config,
            input_action: self.input_action,
            input: self.input@,
        }
    }
}

/// The entities of a new game: the player, off the map until a map is
/// made, with a stone in its inventory.
pub open spec fn first_entities(config: Config) -> EntitiesView {
    let alone = EntitiesView::empty().spawned(player_template(config));
    let waiting = EntitiesView { pos: alone.pos.update(0, Some(held_pos())), ..alone };
    let armed = waiting.spawned(item_template(EntityName::Stone, 'o', held_pos(), Item::Stone));
    EntitiesView { inventory: armed.inventory.update(0, Some(seq![1usize])), ..armed }
}

/// What the player asks for while playing: the settings afterwards, and
/// the action that the player takes.
pub open spec fn playing_input(d: DataView, s: GameSettings, input: InputAction) -> (
    GameSettings,
    Action,
) {
    match input {
        InputAction::Move(dir) => (s, Action::Move(dir)),
        InputAction::Pass => (s, Action::Pass),
        InputAction::Pickup => (s, Action::Pickup),
        InputAction::DropItem => (s, Action::DropItem),
        InputAction::DropItemByIndex(index) => if index == 0 {
            (s, Action::DropItem)
        } else {
            (s, Action::NoAction)
        },
        InputAction::Yell => (s, Action::Yell),
        InputAction::IncreaseMoveMode => (s, Action::IncreaseMoveMode),
        InputAction::DecreaseMoveMode => (s, Action::DecreaseMoveMode),
        InputAction::UseItem => (
            GameSettings { state: GameState::Selection, ..s },
            Action::NoAction,
        ),
        InputAction::UseItemDir(dir, index) => (s, use_toward(d, dir, index)),
        InputAction::Inventory => (
            GameSettings { state: GameState::Inventory, ..s },
            Action::NoAction,
        ),
        InputAction::SkillMenu => (
            GameSettings { state: GameState::SkillMenu, ..s },
            Action::NoAction,
        ),
        InputAction::ClassMenu => (
            GameSettings { state: GameState::ClassMenu, ..s },
            Action::NoAction,
        ),
        InputAction::Exit => (
            GameSettings { state: GameState::ConfirmQuit, ..s },
            Action::NoAction,
        ),
        InputAction::ForceExit => (GameSettings { exiting: true, ..s }, Action::NoAction),
        InputAction::GodMode => (GameSettings { god_mode: !s.god_mode, ..s }, Action::NoAction),
        InputAction::OverlayOn => (GameSettings { overlay: true, ..s }, Action::NoAction),
        InputAction::OverlayOff => (GameSettings { overlay: false, ..s }, Action::NoAction),
        _ => (s, Action::NoAction),
    }
}

/// Using the first item of the inventory on the tile next to the player
/// in the direction `dir`.
pub open spec fn use_toward(d: DataView, dir: Direction, index: usize) -> Action {
    match d.entities.find_by_name(EntityName::Player) {
        Some(player) => match lookup(d.entities.pos, player as int) {
            Some(at) => if index == 0 && offset_fits(at, dir.delta().0, dir.delta().1) {
                Action::UseItem(
                    Position((at.0 + dir.delta().0) as i32, (at.1 + dir.delta().1) as i32),
                )
            } else {
                Action::NoAction
            },
            None => Action::NoAction,
        },
        None => Action::NoAction,
    }
}

/// What the player asks for while choosing a tile: a click on the map
/// uses the item there, and escape gives up.
pub open spec fn selection_input(s: GameSettings, input: InputAction) -> (GameSettings, Action) {
    let shown = GameSettings { draw_selection_overlay: true, ..s };
    match input {
        InputAction::MapClick(_, target) => (
            GameSettings { state: GameState::Playing, draw_selection_overlay: false, ..s },
            Action::UseItem(target),
        ),
        InputAction::Esc => (
            GameSettings { state: GameState::Playing, draw_selection_overlay: false, ..s },
            Action::NoAction,
        ),
        InputAction::ForceExit => (GameSettings { exiting: true, ..shown }, Action::NoAction),
        _ => (shown, Action::NoAction),
    }
}

/// What the player asks for in a menu: escape, or the key of the menu,
/// closes it.
pub open spec fn menu_input(s: GameSettings, input: InputAction) -> GameSettings {
    match input {
        InputAction::Esc => GameSettings { state: GameState::Playing, ..s },
        InputAction::Inventory => GameSettings { state: GameState::Playing, ..s },
        InputAction::SkillMenu => GameSettings { state: GameState::Playing, ..s },
        InputAction::ClassMenu => GameSettings { state: GameState::Playing, ..s },
        InputAction::Exit => GameSettings { state: GameState::ConfirmQuit, ..s },
        InputAction::ForceExit => GameSettings { exiting: true, ..s },
        _ => s,
    }
}

/// What a choice in the skill menu does: the first skill is the yell;
/// there is no other skill.
pub open spec fn skill_action(index: usize) -> Action {
    if index == 0 {
        Action::Yell
    } else {
        Action::NoAction
    }
}

/// What the player asks for in the skill menu: a choice closes the menu
/// and uses the skill, which is the action of the player for the turn.
/// Anything else is as in any menu.
pub open spec fn skill_menu_input(s: GameSettings, input: InputAction) -> (GameSettings, Action) {
    match input {
        InputAction::SelectItem(index) => (
            GameSettings { state: GameState::Playing, ..s },
            skill_action(index),
        ),
        _ => (menu_input(s, input), Action::NoAction),
    }
}

/// What the player asks for in the class menu: a choice closes the menu,
/// and taking up the class is the action of the player for the turn: the
/// player passes. Anything else is as in any menu.
pub open spec fn class_menu_input(s: GameSettings, input: InputAction) -> (GameSettings, Action) {
    match input {
        InputAction::SelectItem(_) => (
            GameSettings { state: GameState::Playing, ..s },
            Action::Pass,
        ),
        _ => (menu_input(s, input), Action::NoAction),
    }
}

/// What the player asks for when asked whether to quit.
pub open spec fn confirm_quit_input(s: GameSettings, input: InputAction) -> GameSettings {
    match input {
        InputAction::Esc => GameSettings { state: GameState::Playing, ..s },
        InputAction::Exit => GameSettings { exiting: true, ..s },
        InputAction::ForceExit => GameSettings { exiting: true, ..s },
        _ => s,
    }
}

/// The states in which the input of the player becomes an action and the
/// action a turn.
pub open spec fn takes_turns(state: GameState) -> bool {
    state == GameState::Playing || state == GameState::Selection || state
        == GameState::SkillMenu || state == GameState::ClassMenu
}

/// Whether the game goes on with the settings `s`.
pub open spec fn going_on(s: GameSettings) -> GameResult {
    if s.exiting {
        GameResult::Stop
    } else {
        GameResult::Continue
    }
}

/// The world after the player took the action `action`; the turn is won
/// where the level is won after it. No action leaves the world as it is.
pub open spec fn acted(w: WorldView, config: Config, action: Action, rolls: Seq<usize>) -> (
    WorldView,
    bool,
) {
    if action == Action::NoAction {
        (w, true)
    } else {
        let t = turn_of(w, config, action, rolls);
        if t.ok && exit_met(t.world.data) {
            (
                WorldView {
                    settings: GameSettings { state: GameState::Win, ..t.world.settings },
                    ..t.world
                },
                true,
            )
        } else {
            (t.world, t.ok)
        }
    }
}

/// The map of a fresh level: all of free floor, of the standard size.
pub open spec fn fresh_map() -> MapView {
    MapView {
        width: MAP_WIDTH as int,
        height: MAP_HEIGHT as int,
        tiles: Map::new(
            |p: Position| 0 <= p.0 < MAP_WIDTH && 0 <= p.1 < MAP_HEIGHT,
            |p: Position| Tile::empty_spec(),
        ),
    }
}

/// The entities of a fresh level: the player stands in its first corner.
pub open spec fn placed_player(v: EntitiesView) -> EntitiesView {
    match v.find_by_name(EntityName::Player) {
        Some(player) => EntitiesView {
            pos: v.pos.update(player as int, Some(Position(0, 0))),
            ..v
        },
        None => v,
    }
}

/// The log after the entities of a new game were announced.
pub open spec fn announced(log: MsgLogView) -> MsgLogView {
    log.log(Msg::SpawnedObject(0)).log(Msg::SpawnedObject(1))
}

/// Makes the entities of a new game and announces them.
pub fn make_first_entities(config: &Config, msg_log: &mut MsgLog) -> (entities: Entities)
    ensures
        entities.wf(),
        entities@ == first_entities(*config),
        final(msg_log)@ == announced(old(msg_log)@),
{
    let mut entities = Entities::new();
    let player_id = make_player(&mut entities, config, msg_log);
    entities.pos.insert(player_id, Position(-1, -1));
    let stone_id = make_stone(&mut entities, config, Position(-1, -1), msg_log);
    entities.inventory.push_back(player_id, stone_id);
    proof {
        assert(entities@.inventory =~= first_entities(*config).inventory);
    }
    entities
}

impl Game {
    /// The world of the game is well formed.
    pub open spec fn wf(&self) -> bool {
        self.data.wf()
    }

    /// A new game with the seed `seed`: an empty map, and the player with
    /// a stone.
    pub fn new(seed: u64, config: Config) -> (r: Result<Game, String>)
        ensures
            r matches Ok(g) && g.wf() && g.config == config && g.input_action
                == InputAction::Nothing && g.settings == GameSettings::new_spec() && g@.world.data.map.width
                == 0 && g@.world.data.map.height == 0 && g@.world.data.entities == first_entities(
                config,
            ) && g@.world.log.messages == seq![Msg::SpawnedObject(0), Msg::SpawnedObject(1)],
    {
        let rng: SmallRng = rng_from_seed(seed);
        let mut msg_log = MsgLog::new();
        let map = TileMap::empty();
        let entities = make_first_entities(&config, &mut msg_log);
        let data = GameData::new(map, entities);
        proof {
            assert(msg_log@.messages =~= seq![Msg::SpawnedObject(0), Msg::SpawnedObject(1)]);
        }
        let state = Game {
            config,
            input_action: InputAction::Nothing,
            data,
            settings: GameSettings::new(0, false),
            msg_log,
            rng: rng,
            input: Input::new(),
        };
        return Ok(state);
    }

    /// Lays out a fresh level: an empty map of the standard size, with
    /// the player in its first corner.
    pub fn make_map(&mut self)
        requires
            old(self).wf(),
        ensures
            final(self).wf(),
            final(self).rng == old(self).rng,
            final(self)@.world.data.map == fresh_map(),
            final(self)@.world.data.entities == placed_player(old(self)@.world.data.entities),
            final(self)@ == (GameView {
                world: WorldView { data: final(self)@.world.data, ..old(self)@.world },
                ..old(self)@
            }),
    {
        assert(old(self).data.entities@.wf());
        proof {
            crate::handlers::find_name_in_range(
                old(self).data.entities@,
                EntityName::Player,
                0,
            );
        }
        self.data.map = TileMap::from_dims(MAP_WIDTH, MAP_HEIGHT);
        proof {
            let m = self.data.map@;
            assert forall|p: Position| m.tiles.dom().contains(p) implies #[trigger] m.tiles[p]
                == Tile::empty_spec() by {
                assert(m.in_bounds(p));
                assert(m.tile(p) == Tile::empty_spec());
            }
            assert(m.tiles =~= fresh_map().tiles);
        }
        match self.data.entities.find_player() {
            Some(player) => {
                self.data.entities.pos.insert(player, Position(0, 0));
            },
            None => {},
        }
        assert(self.data.entities@.ids == old(self).data.entities@.ids);
        assert(self.data.entities@.pos.len() == old(self).data.entities@.pos.len());
        assert(self.data.entities@.wf());
    }
}

/// The game after a step in which the player plays.
pub open spec fn step_playing_spec(g: GameView, rolls: Seq<usize>) -> (
    GameView,
    Result<GameResult, GameError>,
) {
    let (settings, action) = playing_input(g.world.data, g.world.settings, g.input_action);
    let (world, ok) = acted(WorldView { settings: settings, ..g.world }, g.config, action, rolls);
    if !ok {
        (GameView { world: world, ..g }, Err(GameError::InvariantViolation))
    } else if world.settings.exiting {
        (GameView { world: world, ..g }, Ok(GameResult::Stop))
    } else {
        (
            GameView { world: world, input_action: InputAction::Nothing, ..g },
            Ok(GameResult::Continue),
        )
    }
}

/// The game after a step in which the player chooses a tile.
pub open spec fn step_selection_spec(g: GameView, rolls: Seq<usize>) -> (
    GameView,
    Result<GameResult, GameError>,
) {
    let (settings, action) = selection_input(g.world.settings, g.input_action);
    let (world, ok) = acted(WorldView { settings: settings, ..g.world }, g.config, action, rolls);
    let after = GameView { world: world, input_action: InputAction::Nothing, ..g };
    if !ok {
        (after, Err(GameError::InvariantViolation))
    } else {
        (after, Ok(going_on(world.settings)))
    }
}

/// The game after a step in which the input became the settings and the
/// action `chosen`: the action is the turn of the player.
pub open spec fn step_choice_spec(g: GameView, chosen: (GameSettings, Action), rolls: Seq<usize>)
    -> (GameView, Result<GameResult, GameError>) {
    let (world, ok) = acted(
        WorldView { settings: chosen.0, ..g.world },
        g.config,
        chosen.1,
        rolls,
    );
    let after = GameView { world: world, input_action: InputAction::Nothing, ..g };
    if !ok {
        (after, Err(GameError::InvariantViolation))
    } else {
        (after, Ok(going_on(world.settings)))
    }
}

/// The game after a step in the skill menu.
pub open spec fn step_skill_menu_spec(g: GameView, rolls: Seq<usize>) -> (
    GameView,
    Result<GameResult, GameError>,
) {
    step_choice_spec(g, skill_menu_input(g.world.settings, g.input_action), rolls)
}

/// The game after a step in the class menu.
pub open spec fn step_class_menu_spec(g: GameView, rolls: Seq<usize>) -> (
    GameView,
    Result<GameResult, GameError>,
) {
    step_choice_spec(g, class_menu_input(g.world.settings, g.input_action), rolls)
}

/// The game after a step in a menu, with the settings that the input
/// leaves.
pub open spec fn step_menu_spec(g: GameView, settings: GameSettings) -> (
    GameView,
    Result<GameResult, GameError>,
) {
    (
        GameView {
            world: WorldView { settings: settings, ..g.world },
            input_action: InputAction::Nothing,
            ..g
        },
        Ok(going_on(settings)),
    )
}

/// The settings of the next level: the count of turns and the god mode
/// stay, the number of the level goes up, and everything else starts
/// anew.
pub open spec fn next_level_settings(s: GameSettings) -> GameSettings {
    GameSettings {
        turn_count: s.turn_count,
        god_mode: s.god_mode,
        level_num: next_count(s.level_num),
        ..GameSettings::new_spec()
    }
}

/// The game after a step once the level is won: the level changes. The
/// change is announced, and the world starts anew: a fresh map, and the
/// entities of a new game with the player in the first corner of the map.
///
/// Without a player the step fails and leaves the game as it is. If the
/// player does not hold the goal, the step fails as an error of the user
/// and counts as not taken: nothing is announced, and the world, the log
/// and the number of the level stay as they are. Only the state goes back
/// to playing, so that the game does not stay won without its goal.
pub open spec fn step_win_spec(g: GameView) -> (GameView, Result<GameResult, GameError>) {
    if g.input_action == InputAction::Exit {
        (g, Ok(GameResult::Stop))
    } else {
        match g.world.data.entities.find_by_name(EntityName::Player) {
            None => (g, Err(GameError::InvariantViolation)),
            Some(player) => match g.world.data.entities.in_inventory(player, Item::Goal) {
                None => (
                    GameView {
                        world: WorldView {
                            settings: GameSettings {
                                state: GameState::Playing,
                                ..g.world.settings
                            },
                            ..g.world
                        },
                        ..g
                    },
                    Err(GameError::UserError),
                ),
                Some(_) => (
                    GameView {
                        world: WorldView {
                            data: DataView {
                                map: fresh_map(),
                                entities: placed_player(first_entities(g.config)),
                            },
                            settings: next_level_settings(g.world.settings),
                            log: announced(g.world.log.log(Msg::ChangeLevel())),
                        },
                        ..g
                    },
                    Ok(GameResult::Continue),
                ),
            },
        }
    }
}

/// The game after a step once the game is lost.
pub open spec fn step_lose_spec(g: GameView) -> (GameView, Result<GameResult, GameError>) {
    if g.input_action == InputAction::Exit {
        (g, Ok(GameResult::Stop))
    } else {
        (g, Ok(GameResult::Continue))
    }
}

/// The game after one step with the input that it holds, and whether the
/// game goes on.
pub open spec fn stepped_game(g: GameView, rolls: Seq<usize>) -> (
    GameView,
    Result<GameResult, GameError>,
) {
    match g.world.settings.state {
        GameState::Playing => step_playing_spec(g, rolls),
        GameState::Win => step_win_spec(g),
        GameState::Lose => step_lose_spec(g),
        GameState::Selection => step_selection_spec(g, rolls),
        GameState::SkillMenu => step_skill_menu_spec(g, rolls),
        GameState::ClassMenu => step_class_menu_spec(g, rolls),
        GameState::ConfirmQuit => step_menu_spec(
            g,
            confirm_quit_input(g.world.settings, g.input_action),
        ),
        _ => step_menu_spec(g, menu_input(g.world.settings, g.input_action)),
    }
}

fn handle_input_playing(data: &GameData, settings: &mut GameSettings, input: InputAction) -> (a:
    Action)
    ensures
        (*final(settings), a) == playing_input(data@, *old(settings), input),
{
    match input {
        InputAction::Move(dir) => Action::Move(dir),
        InputAction::Pass => Action::Pass,
        InputAction::Pickup => Action::Pickup,
        InputAction::DropItem => Action::DropItem,
        InputAction::DropItemByIndex(index) => if index == 0 {
            Action::DropItem
        } else {
            Action::NoAction
        },
        InputAction::Yell => Action::Yell,
        InputAction::IncreaseMoveMode => Action::IncreaseMoveMode,
        InputAction::DecreaseMoveMode => Action::DecreaseMoveMode,
        InputAction::UseItem => {
            settings.state = GameState::Selection;
            Action::NoAction
        },
        InputAction::UseItemDir(dir, index) => {
            match data.entities.find_player() {
                Some(player) => match data.entities.pos.get(player) {
                    Some(at) => {
                        let step: (i32, i32) = dir.into_move();
                        match offset_pos(at, step.0, step.1) {
                            Some(to) => if index == 0 {
                                Action::UseItem(to)
                            } else {
                                Action::NoAction
                            },
                            None => Action::NoAction,
                        }
                    },
                    None => Action::NoAction,
                },
                None => Action::NoAction,
            }
        },
        InputAction::Inventory => {
            settings.state = GameState::Inventory;
            Action::NoAction
        },
        InputAction::SkillMenu => {
            settings.state = GameState::SkillMenu;
            Action::NoAction
        },
        InputAction::ClassMenu => {
            settings.state = GameState::ClassMenu;
            Action::NoAction
        },
        InputAction::Exit => {
            settings.state = GameState::ConfirmQuit;
            Action::NoAction
        },
        InputAction::ForceExit => {
            settings.exiting = true;
            Action::NoAction
        },
        InputAction::GodMode => {
            settings.god_mode = !settings.god_mode;
            Action::NoAction
        },
        InputAction::OverlayOn => {
            settings.overlay = true;
            Action::NoAction
        },
        InputAction::OverlayOff => {
            settings.overlay = false;
            Action::NoAction
        },
        _ => Action::NoAction,
    }
}

fn handle_input_selection(settings: &mut GameSettings, input: InputAction) -> (a: Action)
    ensures
        (*final(settings), a) == selection_input(*old(settings), input),
{
    settings.draw_selection_overlay = true;
    match input {
        InputAction::MapClick(_, target) => {
            settings.state = GameState::Playing;
            settings.draw_selection_overlay = false;
            Action::UseItem(target)
        },
        InputAction::Esc => {
            settings.state = GameState::Playing;
            settings.draw_selection_overlay = false;
            Action::NoAction
        },
        InputAction::ForceExit => {
            settings.exiting = true;
            Action::NoAction
        },
        _ => Action::NoAction,
    }
}

fn handle_input_menu(settings: &mut GameSettings, input: InputAction)
    ensures
        *final(settings) == menu_input(*old(settings), input),
{
    match input {
        InputAction::Esc => {
            settings.state = GameState::Playing;
        },
        InputAction::Inventory => {
            settings.state = GameState::Playing;
        },
        InputAction::SkillMenu => {
            settings.state = GameState::Playing;
        },
        InputAction::ClassMenu => {
            settings.state = GameState::Playing;
        },
        InputAction::Exit => {
            settings.state = GameState::ConfirmQuit;
        },
        InputAction::ForceExit => {
            settings.exiting = true;
        },
        _ => {},
    }
}

fn handle_input_skill_menu(settings: &mut GameSettings, input: InputAction) -> (a: Action)
    ensures
        (*final(settings), a) == skill_menu_input(*old(settings), input),
{
    match input {
        InputAction::SelectItem(index) => {
            settings.state = GameState::Playing;
            if index == 0 {
                Action::Yell
            } else {
                Action::NoAction
            }
        },
        _ => {
            handle_input_menu(settings, input);
            Action::NoAction
        },
    }
}

fn handle_input_class_menu(settings: &mut GameSettings, input: InputAction) -> (a: Action)
    ensures
        (*final(settings), a) == class_menu_input(*old(settings), input),
{
    match input {
        InputAction::SelectItem(_) => {
            settings.state = GameState::Playing;
            Action::Pass
        },
        _ => {
            handle_input_menu(settings, input);
            Action::NoAction
        },
    }
}

fn handle_input_confirm_quit(settings: &mut GameSettings, input: InputAction)
    ensures
        *final(settings) == confirm_quit_input(*old(settings), input),
{
    match input {
        InputAction::Esc => {
            settings.state = GameState::Playing;
        },
        InputAction::Exit => {
            settings.exiting = true;
        },
        InputAction::ForceExit => {
            settings.exiting = true;
        },
        _ => {},
    }
}

/// Whether `after` is the world after the turn of `before` with the
/// rolls `rolls`, and `r` says how the turn ended.
pub open spec fn turn_holds(
    before: WorldView,
    config: Config,
    action: Action,
    rolls: Seq<usize>,
    after: WorldView,
    r: Result<bool, GameError>,
) -> bool {
    let t = turn_of(before, config, action, rolls);
    &&& after == t.world
    &&& t.ok ==> r == Ok::<bool, GameError>(exit_met(t.world.data))
    &&& !t.ok ==> r == Err::<bool, GameError>(GameError::InvariantViolation)
}

/// Carries out one turn with the action of the player, with random
/// numbers drawn from the generator of the game. Whatever numbers are
/// drawn, the turn is the one that the rules describe for them.
pub fn step_logic(game: &mut Game, player_action: Action) -> (r: Result<bool, GameError>)
    requires
        old(game).wf(),
    ensures
        final(game).wf(),
        final(game).config == old(game).config,
        final(game).input_action == old(game).input_action,
        final(game).input@ == old(game).input@,
        exists|rolls: Seq<usize>|
            turn_holds(
                old(game)@.world,
                old(game).config,
                player_action,
                rolls,
                final(game)@.world,
                r,
            ),
        old(game).data@.keeps(final(game).data@),
{
    let count: usize = game.data.entities.count();
    let wanted: usize = if count <= usize::MAX / 3 {
        3 * count
    } else {
        usize::MAX
    };
    let rolls: Vec<usize> = draw_rolls(&mut game.rng, wanted);
    let r = step_with_rolls(
        &mut game.data,
        &mut game.msg_log,
        &mut game.settings,
        &game.config,
        player_action,
        &rolls,
    );
    proof {
        assert(turn_holds(
            old(game)@.world,
            old(game).config,
            player_action,
            rolls@,
            final(game)@.world,
            r,
        ));
    }
    r
}

/// The world of a fresh level is as it should be: the store is valid,
/// the player stands on the map, and no entity without hit points is
/// alive or blocks its tile.
pub proof fn fresh_level_is_sound(config: Config, blocking: bool)
    ensures
        placed_player(first_entities(config)).valid(),
        placed_player(first_entities(config)).dead_when_spent(blocking),
        (DataView {
            map: fresh_map(),
            entities: placed_player(first_entities(config)),
        }).blockers_on_map(),
{
    let none = EntitiesView::empty();
    let player = player_template(config);
    let alone = none.spawned(player);
    assert(none.blocker_at(player.pos, None) is None);
    crate::make::spawned_keeps_valid(none, player);
    crate::make::spawned_keeps_dead(none, player, blocking);
    let waiting = EntitiesView { pos: alone.pos.update(0, Some(held_pos())), ..alone };
    assert(alone.blocker_at(held_pos(), Some(0usize)) is None) by {
        assert(alone.blocker_from(held_pos(), Some(0usize), 1) is None);
    }
    crate::entities::blockers_apart_after_move(alone, 0, held_pos());
    assert(waiting.valid());
    assert forall|a: int| 0 <= a < waiting.fighter.len() implies !#[trigger] waiting.spent(a, blocking) by {
        assert(!alone.spent(a, blocking));
    }
    let stone = item_template(EntityName::Stone, 'o', held_pos(), Item::Stone);
    let armed = waiting.spawned(stone);
    crate::make::spawned_keeps_valid(waiting, stone);
    crate::make::spawned_keeps_dead(waiting, stone, blocking);
    let first = first_entities(config);
    crate::invariants::valid_frame(armed, first);
    assert forall|a: int| 0 <= a < first.fighter.len() implies !#[trigger] first.spent(a, blocking) by {
        assert(!armed.spent(a, blocking));
    }
    assert(first.name[0] == Some(EntityName::Player));
    assert(first.find_by_name(EntityName::Player) == Some(0usize));
    let placed = placed_player(first);
    assert(first.blocker_at(Position(0, 0), Some(0usize)) is None) by {
        assert(first.blocker_from(Position(0, 0), Some(0usize), 2) is None);
        assert(first.blocker_from(Position(0, 0), Some(0usize), 1) is None);
    }
    crate::entities::blockers_apart_after_move(first, 0, Position(0, 0));
    assert(placed.valid());
    assert forall|a: int| 0 <= a < placed.fighter.len() implies !#[trigger] placed.spent(a, blocking) by {
        assert(!first.spent(a, blocking));
    }
    let d = DataView { map: fresh_map(), entities: placed };
    assert forall|a: int|
        0 <= a < d.entities.pos.len() && #[trigger] d.entities.blocks[a] == Some(true)
            && d.entities.pos[a] is Some implies d.map.in_bounds(d.entities.pos[a]->0) by {
        assert(a == 0 || a == 1);
    }
}

impl Game {
    fn act(&mut self, action: Action) -> (ok: bool)
        requires
            old(self).wf(),
        ensures
            final(self).wf(),
            final(self).config == old(self).config,
            final(self).input_action == old(self).input_action,
            final(self).input@ == old(self).input@,
            exists|rolls: Seq<usize>|
                (final(self)@.world, ok) == #[trigger] acted(
                    old(self)@.world,
                    old(self).config,
                    action,
                    rolls,
                ),
            old(self).data@.keeps(final(self).data@),
            action == Action::NoAction ==> final(self).rng == old(self).rng,
    {
        if action != Action::NoAction {
            match step_logic(self, action) {
                Err(_) => {
                    proof {
                        let rolls = choose|rolls: Seq<usize>|
                            turn_holds(
                                old(self)@.world,
                                old(self).config,
                                action,
                                rolls,
                                self@.world,
                                Err::<bool, GameError>(GameError::InvariantViolation),
                            );
                        assert((self@.world, false) == acted(
                            old(self)@.world,
                            old(self).config,
                            action,
                            rolls,
                        ));
                    }
                    return false;
                },
                Ok(won) => {
                    let ghost mid = self@.world;
                    if won {
                        self.settings.state = GameState::Win;
                    }
                    proof {
                        let rolls = choose|rolls: Seq<usize>|
                            turn_holds(
                                old(self)@.world,
                                old(self).config,
                                action,
                                rolls,
                                mid,
                                Ok::<bool, GameError>(won),
                            );
                        assert((self@.world, true) == acted(
                            old(self)@.world,
                            old(self).config,
                            action,
                            rolls,
                        ));
                    }
                },
            }
        } else {
            assert((self@.world, true) == acted(
                old(self)@.world,
                old(self).config,
                action,
                Seq::<usize>::empty(),
            ));
        }
        true
    }

    /// A step while the player plays.
    pub fn step_playing(&mut self) -> (r: Result<GameResult, GameError>)
        requires
            old(self).wf(),
        ensures
            final(self).wf(),
            exists|rolls: Seq<usize>|
                (final(self)@, r) == #[trigger] step_playing_spec(old(self)@, rolls),
            old(self).data@.keeps(final(self).data@),
    {
        let player_action: Action = handle_input_playing(
            &self.data,
            &mut self.settings,
            self.input_action,
        );
        let ghost mid = self@;
        let ok: bool = self.act(player_action);
        let ghost rolls = choose|rolls: Seq<usize>|
            (self@.world, ok) == #[trigger] acted(mid.world, mid.config, player_action, rolls);
        if !ok {
            assert((self@, Err::<GameResult, GameError>(GameError::InvariantViolation))
                == step_playing_spec(old(self)@, rolls));
            return Err(GameError::InvariantViolation);
        }
        if self.settings.exiting {
            assert((self@, Ok::<GameResult, GameError>(GameResult::Stop)) == step_playing_spec(
                old(self)@,
                rolls,
            ));
            return Ok(GameResult::Stop);
        }
        self.input_action = InputAction::Nothing;
        assert((self@, Ok::<GameResult, GameError>(GameResult::Continue)) == step_playing_spec(
            old(self)@,
            rolls,
        ));
        return Ok(GameResult::Continue);
    }

    /// A step while the player chooses a tile.
    pub fn step_selection(&mut self) -> (r: Result<GameResult, GameError>)
        requires
            old(self).wf(),
        ensures
            final(self).wf(),
            exists|rolls: Seq<usize>|
                (final(self)@, r) == #[trigger] step_selection_spec(old(self)@, rolls),
            old(self).data@.keeps(final(self).data@),
    {
        let input: InputAction = self.input_action;
        self.input_action = InputAction::Nothing;
        let player_action: Action = handle_input_selection(&mut self.settings, input);
        let ghost mid = self@;
        let ok: bool = self.act(player_action);
        let ghost rolls = choose|rolls: Seq<usize>|
            (self@.world, ok) == #[trigger] acted(mid.world, mid.config, player_action, rolls);
        if !ok {
            assert((self@, Err::<GameResult, GameError>(GameError::InvariantViolation))
                == step_selection_spec(old(self)@, rolls));
            return Err(GameError::InvariantViolation);
        }
        let r = if self.settings.exiting {
            GameResult::Stop
        } else {
            GameResult::Continue
        };
        assert((self@, Ok::<GameResult, GameError>(r)) == step_selection_spec(old(self)@, rolls));
        Ok(r)
    }

    /// A step in the skill menu.
    pub fn step_skill_menu(&mut self) -> (r: Result<GameResult, GameError>)
        requires
            old(self).wf(),
        ensures
            final(self).wf(),
            exists|rolls: Seq<usize>|
                (final(self)@, r) == #[trigger] step_skill_menu_spec(old(self)@, rolls),
            old(self).data@.keeps(final(self).data@),
    {
        let input: InputAction = self.input_action;
        self.input_action = InputAction::Nothing;
        let player_action: Action = handle_input_skill_menu(&mut self.settings, input);
        let ghost mid = self@;
        let ok: bool = self.act(player_action);
        let ghost rolls = choose|rolls: Seq<usize>|
            (self@.world, ok) == #[trigger] acted(mid.world, mid.config, player_action, rolls);
        if !ok {
            assert((self@, Err::<GameResult, GameError>(GameError::InvariantViolation))
                == step_skill_menu_spec(old(self)@, rolls));
            return Err(GameError::InvariantViolation);
        }
        let r = if self.settings.exiting {
            GameResult::Stop
        } else {
            GameResult::Continue
        };
        assert((self@, Ok::<GameResult, GameError>(r)) == step_skill_menu_spec(old(self)@, rolls));
        Ok(r)
    }

    /// A step in the class menu.
    pub fn step_class_menu(&mut self) -> (r: Result<GameResult, GameError>)
        requires
            old(self).wf(),
        ensures
            final(self).wf(),
            exists|rolls: Seq<usize>|
                (final(self)@, r) == #[trigger] step_class_menu_spec(old(self)@, rolls),
            old(self).data@.keeps(final(self).data@),
    {
        let input: InputAction = self.input_action;
        self.input_action = InputAction::Nothing;
        let player_action: Action = handle_input_class_menu(&mut self.settings, input);
        let ghost mid = self@;
        let ok: bool = self.act(player_action);
        let ghost rolls = choose|rolls: Seq<usize>|
            (self@.world, ok) == #[trigger] acted(mid.world, mid.config, player_action, rolls);
        if !ok {
            assert((self@, Err::<GameResult, GameError>(GameError::InvariantViolation))
                == step_class_menu_spec(old(self)@, rolls));
            return Err(GameError::InvariantViolation);
        }
        let r = if self.settings.exiting {
            GameResult::Stop
        } else {
            GameResult::Continue
        };
        assert((self@, Ok::<GameResult, GameError>(r)) == step_class_menu_spec(old(self)@, rolls));
        Ok(r)
    }

    /// A step in the inventory: the input only changes the settings.
    pub fn step_menu(&mut self) -> (r: Result<GameResult, GameError>)
        ensures
            final(self).data == old(self).data,
            final(self).rng == old(self).rng,
            (final(self)@, r) == step_menu_spec(
                old(self)@,
                menu_input(old(self).settings, old(self).input_action),
            ),
    {
        let input: InputAction = self.input_action;
        self.input_action = InputAction::Nothing;
        handle_input_menu(&mut self.settings, input);
        if self.settings.exiting {
            return Ok(GameResult::Stop);
        }
        return Ok(GameResult::Continue);
    }

    /// A step while the player is asked whether to quit.
    pub fn step_confirm_quit(&mut self) -> (r: Result<GameResult, GameError>)
        ensures
            final(self).data == old(self).data,
            final(self).rng == old(self).rng,
            (final(self)@, r) == step_menu_spec(
                old(self)@,
                confirm_quit_input(old(self).settings, old(self).input_action),
            ),
    {
        let input: InputAction = self.input_action;
        self.input_action = InputAction::Nothing;
        handle_input_confirm_quit(&mut self.settings, input);
        if self.settings.exiting {
            return Ok(GameResult::Stop);
        }
        return Ok(GameResult::Continue);
    }

    /// A step once the game is lost.
    pub fn step_lose(&mut self) -> (r: Result<GameResult, GameError>)
        ensures
            final(self).data == old(self).data,
            final(self).rng == old(self).rng,
            (final(self)@, r) == step_lose_spec(old(self)@),
    {
        if self.input_action == InputAction::Exit {
            return Ok(GameResult::Stop);
        }
        return Ok(GameResult::Continue);
    }

    /// A step once the level is won: the level changes. The random
    /// numbers of the game go on from where they are.
    pub fn step_win(&mut self) -> (r: Result<GameResult, GameError>)
        requires
            old(self).wf(),
        ensures
            final(self).wf(),
            (final(self)@, r) == step_win_spec(old(self)@),
            final(self).rng == old(self).rng,
            old(self).data@.keeps(final(self).data@),
    {
        proof {
            fresh_level_is_sound(self.config, false);
            fresh_level_is_sound(self.config, true);
        }
        if self.input_action == InputAction::Exit {
            return Ok(GameResult::Stop);
        }
        let player_id: EntityId = match self.data.find_player() {
            Some(p) => p,
            None => {
                return Err(GameError::InvariantViolation);
            },
        };
        if self.data.is_in_inventory(player_id, Item::Goal).is_none() {
            self.settings.state = GameState::Playing;
            return Err(GameError::UserError);
        }
        self.msg_log.log(Msg::ChangeLevel());
        self.data.entities = make_first_entities(&self.config, &mut self.msg_log);
        let mut settings = GameSettings::new(self.settings.turn_count, self.settings.god_mode);
        if self.settings.level_num < usize::MAX {
            settings.level_num = self.settings.level_num + 1;
        } else {
            settings.level_num = self.settings.level_num;
        }
        self.settings = settings;
        self.make_map();
        return Ok(GameResult::Continue);
    }

    /// Takes one step with the input that the game holds. While the
    /// player plays, chooses a tile, or chooses in the skill menu or the
    /// class menu, the input becomes an action and the action a turn; in
    /// the inventory and when asked whether to quit it only changes the
    /// settings; once the level is won, the level changes. A game whose
    /// world is not well formed is left as it is, with an error. Random
    /// numbers are drawn only in a step that can carry out a turn.
    ///
    /// A step keeps what a well-formed world has, each on its own and
    /// however the step ends: if before it no two entities that block
    /// movement stand on one tile, none do after it; if each of them
    /// stands on the map before, each does after; if every momentum is
    /// within its limit before, every one is after; and if no entity
    /// without hit points is alive or blocks its tile before, none is
    /// after.
    pub fn step_game(&mut self) -> (r: Result<GameResult, GameError>)
        ensures
            !old(self).wf() ==> r == Err::<GameResult, GameError>(GameError::InvariantViolation)
                && final(self)@ == old(self)@,
            old(self).wf() ==> final(self).wf() && exists|rolls: Seq<usize>|
                (final(self)@, r) == #[trigger] stepped_game(old(self)@, rolls),
            old(self).wf() ==> old(self).data@.keeps(final(self).data@),
            !old(self).wf() || !takes_turns(old(self).settings.state) ==> final(self).rng == old(
                self,
            ).rng,
    {
        if !self.data.is_wf() {
            return Err(GameError::InvariantViolation);
        }
        let result;
        match self.settings.state {
            GameState::Playing => {
                result = self.step_playing();
                proof {
                    let rolls = choose|rolls: Seq<usize>|
                        (self@, result) == #[trigger] step_playing_spec(old(self)@, rolls);
                    assert((self@, result) == stepped_game(old(self)@, rolls));
                }
            },
            GameState::Win => {
                result = self.step_win();
                assert((self@, result) == stepped_game(old(self)@, Seq::<usize>::empty()));
            },
            GameState::Lose => {
                result = self.step_lose();
                assert((self@, result) == stepped_game(old(self)@, Seq::<usize>::empty()));
            },
            GameState::Inventory => {
                result = self.step_menu();
                assert((self@, result) == stepped_game(old(self)@, Seq::<usize>::empty()));
            },
            GameState::Selection => {
                result = self.step_selection();
                proof {
                    let rolls = choose|rolls: Seq<usize>|
                        (self@, result) == #[trigger] step_selection_spec(old(self)@, rolls);
                    assert((self@, result) == stepped_game(old(self)@, rolls));
                }
            },
            GameState::SkillMenu => {
                result = self.step_skill_menu();
                proof {
                    let rolls = choose|rolls: Seq<usize>|
                        (self@, result) == #[trigger] step_skill_menu_spec(old(self)@, rolls);
                    assert((self@, result) == stepped_game(old(self)@, rolls));
                }
            },
            GameState::ClassMenu => {
                result = self.step_class_menu();
                proof {
                    let rolls = choose|rolls: Seq<usize>|
                        (self@, result) == #[trigger] step_class_menu_spec(old(self)@, rolls);
                    assert((self@, result) == stepped_game(old(self)@, rolls));
                }
            },
            GameState::ConfirmQuit => {
                result = self.step_confirm_quit();
                assert((self@, result) == stepped_game(old(self)@, Seq::<usize>::empty()));
            },
        }
        return result;
    }
}

} // verus!
