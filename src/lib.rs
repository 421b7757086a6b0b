//! Rules of a small action game: the game-flow state machine, the player's
//! movement intent, the look-angle tracker, the camera tracker, the settings
//! and the versioned save file.
//!
//! Distances are fixed-point integers in thousandths of a world unit, angles in
//! thousandths of a degree and stick deflections in thousandths of full travel.

pub mod game;
pub mod storage;
