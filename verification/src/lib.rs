//! Core of a tiling window manager: workspaces of windows, layouts that place
//! them, and the state machine that folds display events into window placement.

pub mod command;
pub mod config;
pub mod displays;
pub mod keys;
pub mod layouts;
pub mod manager;
pub mod screen;
pub mod stack;
pub mod state;
pub mod window;
pub mod workspace;
