//! Settings of a running game and the read-only configuration.

use crate::action::GameState;
use vstd::prelude::*;

verus! {

/// Whether the game goes on after a step.
#[derive(Clone, Copy, Debug, PartialEq, Eq, Structural)]
pub enum GameResult {
    Continue,
    Stop,
}

/// The mutable settings of a running game.
#[derive(Clone, Copy, Debug, PartialEq, Eq, Structural)]
pub struct GameSettings {
    pub turn_count: usize,
    pub god_mode: bool,
    pub exiting: bool,
    pub state: GameState,
    pub draw_selection_overlay: bool,
    pub overlay: bool,
    pub console: bool,
    pub render_map: bool,
    pub level_num: usize,
    pub running: bool,
}

impl GameSettings {
    /// The settings of a game that starts.
    pub open spec fn new_spec() -> GameSettings {
        GameSettings {
            turn_count: 0,
            god_mode: false,
            exiting: false,
            state: GameState::Playing,
            draw_selection_overlay: false,
            overlay: false,
            console: false,
            render_map: true,
            level_num: 0,
            running: true,
        }
    }

    pub fn new(turn_count: usize, god_mode: bool) -> (s: GameSettings)
        ensures
            s == (GameSettings {
                turn_count: turn_count,
                god_mode: god_mode,
                exiting: false,
                state: GameState::Playing,
                draw_selection_overlay: false,
                overlay: false,
                console: false,
                render_map: true,
                level_num: 0,
                running: true,
            }),
    {
        return GameSettings {
            turn_count,
            god_mode,
            exiting: false,
            state: GameState::Playing,
            draw_selection_overlay: false,
            overlay: false,
            console: false,
            render_map: true,
            level_num: 0,
            running: true,
        };
    }
}

/// Where the map of a level comes from.
#[derive(Clone, Debug, PartialEq, Eq)]
pub enum MapLoadConfig {
    /// An empty map of the standard size.
    Empty,
    /// A generated map; the text names the generator's parameters.
    ProcGen(String),
    /// The built-in test map.
    TestMap,
}

/// The combat and sense values with which an entity of one kind starts.
#[derive(Clone, Copy, Debug, PartialEq, Eq, Structural)]
pub struct Stats {
    pub hp: i32,
    pub power: i32,
    pub defense: i32,
    pub hearing_radius: usize,
    pub sight_radius: usize,
}

/// The configuration of the game; the simulation only reads it.
#[derive(Clone, Debug, PartialEq, Eq)]
pub struct Config {
    /// Milliseconds before a held key repeats.
    pub repeat_delay: u64,
    pub frame_rate: usize,
    pub load_map_file_every_frame: bool,
    pub recording: bool,
    pub map_load: MapLoadConfig,
    pub player: Stats,
    pub gol: Stats,
    pub pawn: Stats,
}

impl Config {
    /// The configuration with which the game starts when nothing else is
    /// given.
    pub fn standard() -> (c: Config)
        ensures
            c.repeat_delay == 200,
            c.frame_rate == 30,
            !c.load_map_file_every_frame,
            !c.recording,
            c.map_load is Empty,
            c.player == (Stats {
                hp: 50,
                power: 5,
                defense: 0,
                hearing_radius: 10,
                sight_radius: 10,
            }),
            c.gol == (Stats { hp: 10, power: 1, defense: 0, hearing_radius: 5, sight_radius: 5 }),
            c.pawn == (Stats { hp: 16, power: 5, defense: 0, hearing_radius: 5, sight_radius: 5 }),
    {
        Config {
            repeat_delay: 200,
            frame_rate: 30,
            load_map_file_every_frame: false,
            recording: false,
            map_load: MapLoadConfig::Empty,
            player: Stats { hp: 50, power: 5, defense: 0, hearing_radius: 10, sight_radius: 10 },
            gol: Stats { hp: 10, power: 1, defense: 0, hearing_radius: 5, sight_radius: 5 },
            pawn: Stats { hp: 16, power: 5, defense: 0, hearing_radius: 5, sight_radius: 5 },
        }
    }
}

} // verus!
