//! State machine of an interactive terminal console: keyboard focus, a
//! two-level navigation menu and a line editor with a command mode.

pub mod app_state;
pub mod command;
pub mod editor;
pub mod focus;
pub mod image_tools;
pub mod input;
pub mod key;
pub mod navigation;
pub mod presentation;
pub mod text;
