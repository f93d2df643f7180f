//! A deterministic, turn-based arena game: a square grid, actors with health
//! and a weapon, projectiles that live for one turn, and the engine that
//! resolves a turn from one batch of actions per player.

pub mod direction;
pub mod pos;
pub mod grid;
pub mod traits;
pub mod character;
pub mod player;
pub mod roster;
pub mod turn;
pub mod state;
pub mod laws;
pub mod game;
pub mod client;
pub mod scheduler;
pub mod client_api;
pub mod render;
