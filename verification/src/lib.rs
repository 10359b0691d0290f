//! Commands and report protocol for a five-channel USB indicator light.
//!
//! The crate turns command-line tokens and OSC messages into a [`qlight::LightCommandSet`]
//! and serialises that set into the fixed 65-byte report the device expects.

pub mod cli;
pub mod osc;
pub mod qlight;
pub mod router;
pub mod server;
pub mod text;
