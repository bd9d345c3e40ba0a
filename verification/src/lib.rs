//! State synchronizer for a desktop status bar: it mirrors the audio server's sinks, sources
//! and default devices, and decides what a window-manager listener subscribes to.

pub mod connection;
pub mod device;
pub mod dispatch;
pub mod error;
pub mod hyprland;
pub mod output;
pub mod pulseaudio;
pub mod store;
pub mod waiter;
