//! A multiplayer quiz game server core: client registry, challenge/response
//! authentication, a round-based game state machine with an answer ledger,
//! request/response correlation and message routing.

pub mod auth;
pub mod correlation;
pub mod crypto;
pub mod game;
mod ids;
pub mod messages;
pub mod registry;
pub mod server;
pub mod structures;
pub mod text;
