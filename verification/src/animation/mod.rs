//! Sprite-sheet frame animation.
pub mod player;
