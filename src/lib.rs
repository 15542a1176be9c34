//! Simulation core of a grid puzzle game: a rover driven by a player's script
//! moves one tick at a time through a world of obstacles, gates, buttons,
//! data points, telepads and energy cells, and every tick is kept in a
//! replayable history.
pub mod constants;
pub mod world;
pub mod actors;
pub mod simulation;
pub mod levels;
pub mod script_runner;
pub mod state_maker;
