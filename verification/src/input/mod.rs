//! Window messages and menu command numbers.
pub mod handler;
