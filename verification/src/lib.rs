//! Verified core of a task-launcher plugin for Neovim.

pub mod config;
pub mod contents;
pub mod display;
pub mod env;
pub mod float;
pub mod fields;
pub mod error;
pub mod launcher;
pub mod notify;
pub mod settings;
pub mod task_config;
pub mod tasks;
pub mod text;
