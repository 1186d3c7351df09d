//! Core logic of a clock-synchronized Pomodoro companion: the hourly
//! work/rest schedule, countdown formatting, the shared timer state with
//! its user intents, and the per-second ticker with mode-change detection.

pub mod menu;
pub mod settings;
pub mod shared;
pub mod state;
pub mod timer;
pub mod tray;
