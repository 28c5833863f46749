//! Server core of an end-to-end encrypted messenger: the session registry,
//! challenge-response login, profile and message routing decisions, and the
//! per-connection state machine. Socket and database work is left to the
//! caller, which carries out the actions that these functions return.

pub mod bytes;
pub mod packet;
pub mod session;
pub mod manager;
pub mod challenge;
pub mod auth;
pub mod message;
pub mod user;
pub mod handler;
pub mod connection;
