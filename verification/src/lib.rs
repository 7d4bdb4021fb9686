//! A collection of small terminal arcade games driven by a single menu shell:
//! a grappling-hook gold-miner, a falling-block puzzle, snake, a tile-merging
//! puzzle and a minesweeper clone. Each game is an independent tick-driven
//! simulation with a Welcome/Playing/Paused phase wrapper; rendering is a pure
//! projection of the game state to a grid of cell classes that a terminal
//! front end can draw.

pub mod game_manager;
pub mod games;
pub mod hook;
pub mod item;
pub mod keys;
mod rng;
pub mod translation;

pub use game_manager::GameManager;
