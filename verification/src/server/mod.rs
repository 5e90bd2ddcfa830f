//! Server-side logic: configuration, authentication, obfuscation and relay
//! decisions.
pub mod config;
pub mod sessions;
pub mod auth;
pub mod obfuscation;
pub mod policy;
pub mod relay;
pub mod admin;
