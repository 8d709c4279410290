//! Frame-cycling sprite animations, mirrored walking actors and the
//! per-tick catch-and-score rule of a small falling-object game.

pub mod animation;
pub mod char_action;
pub mod game;
pub mod game_state;
pub mod geometry;
mod random;
