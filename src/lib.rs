//! Player-control core of a small 2D action game: configurable input
//! bindings, a countdown timer, and the player state machine with its
//! per-tick movement, roll and attack resolution.
//!
//! Time is measured in nanoseconds, positions in micro-units (a millionth of
//! a world unit) and speeds in whole world units per second.

pub mod geometry;
pub mod input;
pub mod levels;
pub mod timer;
pub mod player;
