//! A tile-walking demo: a player that steps across a bounded arena at a fixed
//! cadence, an apple placed on one tile, and the sprite commands that draw them.
//! Everything here is plain state and arithmetic; the host engine polls the
//! buttons, draws the sprites and supplies the random draws.
pub mod apple;
pub mod direction;
pub mod game;
pub mod laws;
pub mod player;
pub mod sprite;
