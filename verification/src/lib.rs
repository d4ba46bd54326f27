//! Turn simulation core of a tile-based, turn-based dungeon game.
//!
//! The crate advances a deterministic world model by one player turn at a
//! time: a player action is logged as a message, the message queue is resolved
//! to a fixed point, every AI-controlled entity plans and acts, and the
//! per-turn housekeeping runs.

pub mod act;
pub mod ai;
pub mod audit;
pub mod bounds;
pub mod action;
pub mod carry;
pub mod data;
pub mod effect;
pub mod entities;
pub mod frost;
pub mod game;
pub mod hammer;
pub mod handlers;
pub mod input;
pub mod intent;
pub mod laws;
pub mod invariants;
pub mod lines;
pub mod make;
pub mod map;
pub mod messaging;
pub mod momentum;
pub mod moving;
pub mod movement;
pub mod names;
pub mod object;
pub mod order;
pub mod resolve;
pub mod settings;
pub mod step;
pub mod store;
pub mod text;
pub mod turn;
pub mod types;
