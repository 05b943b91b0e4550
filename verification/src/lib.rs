//! Rules of a Duck Hunt game, kept apart from its rendering: the game's
//! states and counters, when ducks may appear, what a shot, an escape and
//! the timers do, and the text the HUD shows.

pub mod chance;
pub mod game;
pub mod hud;
pub mod laws;
pub mod rules;
pub mod timer;
