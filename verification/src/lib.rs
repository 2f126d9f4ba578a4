//! Session and state-synchronization core for a multiplayer game client.
//!
//! Players authenticate against an account service, establish a network
//! session, join a lobby as Host or Client, and move together through
//! host-authoritative "province" (map) states.  This crate holds the
//! verified core of that protocol: address classification, the identity
//! (authentication) flow, the connection state machine, lobby roles,
//! province synchronization, and the typed event queues that connect
//! them.  Rendering and the actual network I/O live outside the core;
//! they hand plain values in and take plain values back.

pub mod address;
pub mod server;
pub mod session;
pub mod ui_flow;
pub mod events;
pub mod connection;
pub mod identity;
pub mod lobby;
pub mod province;
