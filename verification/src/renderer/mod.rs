//! Drawing the pet into a 32-bit frame buffer.
pub mod draw;
