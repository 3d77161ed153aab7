//! Torn: a light-cycle game for an 80x25 text screen.
//!
//! The library holds the game's rules; drawing is returned as a list of
//! [`screen::Draw`] operations that the caller performs on the screen.

pub mod screen;
pub mod walls;
pub mod maps;
pub mod player;
pub mod light;
pub mod game;
pub mod arena;
pub mod rules;
