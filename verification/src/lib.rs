//! Platform-agnostic core of the Mosaico tiling window manager:
//! geometry, layouts, spatial navigation, workspaces, actions and
//! configuration rules.

pub mod rect;
pub mod text;
pub mod action;
pub mod spatial;
pub mod workspace;
pub mod layout;
pub mod event;
pub mod ipc;
pub mod config;
pub mod version;
pub mod log;
pub mod pid;

pub use action::{Action, Direction};
pub use config::bar::BarConfig;
pub use event::WindowEvent;
pub use ipc::{Command, Response};
pub use layout::Layout;
pub use rect::Rect;
pub use workspace::Workspace;
