//! Rich-presence logic for a Hytale launcher: the text rules, the activity
//! payload and the connection state machine, with machine-checked contracts.

pub mod builder;
pub mod config;
pub mod connection;
pub mod laws;
pub mod message;
pub mod payload;
pub mod text;
pub mod token;
