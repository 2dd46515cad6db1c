//! The state machine of a terminal file explorer: focus navigation, the
//! visited-path history, the selection, the mode stack, node filters and
//! sorters, the input buffer, logs, and the messages that drive them.

pub mod history;
pub mod msg;
pub mod text;
pub mod node;
pub mod paths;
pub mod sets;
pub mod input;
pub mod log;
pub mod help;
pub mod help_menu;
pub mod config;
pub mod explore;
pub mod app;
pub mod laws;
pub mod behaviour;
