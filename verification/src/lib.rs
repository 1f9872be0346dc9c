//! Core logic of a multi-player protocol game server: command parsing,
//! room and player bookkeeping, and the per-connection session state machine.
pub mod message;
pub mod models;
pub mod text;
mod random;
pub mod server;
pub mod session;
