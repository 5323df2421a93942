//! A block-world game server core: wire protocol codec, world store and
//! per-connection session logic, with machine-checked contracts.

pub mod broker;
pub mod client;
pub mod command;
pub mod config;
pub mod float_bits;
pub mod mc;
pub mod model;
pub mod server;
pub mod text;
pub mod world;
