//! Speech bubbles and reminders.
pub mod bubble;
pub mod notification;
pub mod menu;
