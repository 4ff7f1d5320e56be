//! The pet itself and its behaviour state machine.
pub mod entity;
pub mod state_machine;
