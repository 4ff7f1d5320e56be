//! The layered window's transparent colour.
pub mod layered;
