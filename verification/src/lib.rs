//! Veil: a censorship-resistant tunnel. This library holds the protocol
//! wire formats, token and authentication rules, obfuscation, relay and
//! client-side parsing logic, with their contracts.
use vstd::prelude::*;

pub mod text;
pub mod error;
pub mod time;
pub mod wire;
pub mod protocol;
pub mod config;
pub mod crypto;
pub mod server;
pub mod client;
pub mod desktop;

verus! {

} // verus!
