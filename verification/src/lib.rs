//! The timing and turn engine of a turn timer for tabletop games.
//!
//! The engine keeps a pausable session clock that is fed by a free-running
//! ticker, knows whose turn it is and when that turn began, records the
//! length of every completed turn for the player who took it, and holds the
//! players' markers inside the viewport. All times are whole milliseconds.
//!
//! - [`clock`]: the session clock and its laws.
//! - [`clock_source`]: the ticker that feeds it.
//! - [`config`]: the number of players and their names.
//! - [`player`]: one player's record.
//! - [`pose`]: positions, the viewport and the clamp.
//! - [`engine_model`]: the engine's state and operations as plain values.
//! - [`engine`]: the engine itself.
//! - [`engine_laws`]: what holds of the engine in every state.
//! - [`drag`]: from pointer positions to proposed marker positions.
//! - [`table`]: the table of recorded rounds.

pub mod clock;
pub mod clock_source;
pub mod config;
pub mod drag;
pub mod engine;
pub mod engine_laws;
pub mod engine_model;
pub mod player;
pub mod pose;
pub mod table;
