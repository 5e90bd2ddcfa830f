//! Client-side logic: local proxy parsing, connection set-up, tunnel packet
//! routing, persisted configuration and server deployment.
pub mod proxy;
pub mod config;
pub mod transport;
pub mod tunnel;
pub mod deploy;
pub mod dns;
pub mod killswitch;
pub mod tui;
pub mod modes;
