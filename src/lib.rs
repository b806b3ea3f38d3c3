//! Input event multiplexing for a full-screen color wall: the decisions of
//! the terminal and device listeners, the single-slot action channel and the
//! dispatcher's stop rule, and the grid of the wall.

pub mod action;
pub mod config;
pub mod control;
pub mod device;
pub mod dispatch;
pub mod terminal;
pub mod wall;

pub use action::Action;
pub use config::Args;
pub use control::{Control, SharedControl};
pub use device::{device_keeps_listening, DeviceEvent, DeviceListener};
pub use dispatch::{should_redraw, App};
pub use terminal::{terminal_step, Step, TermEvent, TermKey, QUIT_KEY};
pub use wall::{Area, Axis, ColorWall};
