//! Core logic of a "Simon"-style memory game: a growing random sequence of
//! four colored panels, replayed each round through timed highlight cycles.
//!
//! The library owns the game's decisions — the sequence engine, the playback
//! scripts, the phase machine and the host-page binding check — while the
//! embedding application performs the timed waits and the actual UI updates.

pub mod binding;
pub mod driver;
pub mod panel;
pub mod sequence;
