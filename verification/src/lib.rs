//! The window-layout and frame-composition core of a single-seat graphical shell.

pub mod app_manager;
pub mod geometry;
pub mod grid;
pub mod layout;
pub mod output;
pub mod renderer;
pub mod shell;
pub mod state;
pub mod window_manager;
pub mod winit;
