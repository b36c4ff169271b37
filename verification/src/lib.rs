//! Control surface for an externally managed VPN client: connection
//! profiles, a coarse connection status, a bounded log, and the commands
//! that start and stop the managed process.

pub mod config;
pub mod state;
pub mod text;
pub mod tray;
pub mod tui;
pub mod vpn;
