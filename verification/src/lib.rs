//! Editing state of a photo editor: albums of photos, the parameter history
//! with undo and redo, view modes, crop orientation and the decisions that
//! turn user input into editing actions.

pub mod view_mode;
pub mod workspace;
pub mod types;
pub mod ui;
pub mod update_event;
pub mod update;
pub mod keyboard;
pub mod repository;
pub mod pipeline;
pub mod album;
