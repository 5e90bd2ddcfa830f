//! The desktop application's state and the logic of its commands.
pub mod commands;
pub mod state;
pub mod vpn_bridge;
