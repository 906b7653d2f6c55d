//! Core logic of HyprDock, a dock for the Hyprland compositor: configuration
//! with defaults, favorites management, routing of compositor events,
//! taskbar planning, application matching, icon lookup and the auto-hide
//! state machine. Widgets, sockets and files are handled by the caller.

pub mod text;
pub mod config;
pub mod hypr;
pub mod ui;
pub mod launcher;
