//! Core of a message relay hub: a registry of live endpoints and the rules by
//! which one connection's messages are forwarded to its declared peer.

pub mod connection;
pub mod failure;
pub mod message;
pub mod metadata;
pub mod registry;
pub mod server;
pub mod status;
pub mod wire;
