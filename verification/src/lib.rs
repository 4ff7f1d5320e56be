//! Behaviour core of a desktop pet that walks along the bottom of the screen.
//!
//! The library holds the pet's discrete behaviour (states, facing, animation
//! frames, affection), the decisions taken on window messages and menu
//! commands, and the pixel work on sprite images.  Timers and positions in
//! seconds and pixels as floating-point values are kept by the program that
//! drives the window; it hands the library the outcome of each comparison.
pub mod animation;
pub mod app;
pub mod game;
pub mod input;
pub mod interaction;
pub mod pet;
pub mod random;
pub mod renderer;
pub mod window;
