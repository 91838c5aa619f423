//! A verified core for a tag-filtered terminal media player: key bindings,
//! configuration, pane text and the player's command state machine.

pub mod text;
pub mod config;
pub mod keymap;
pub mod model;
pub mod pins;
pub mod panes;
pub mod tags;
pub mod player;
pub mod queue;
pub mod ui;
