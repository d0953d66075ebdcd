//! The core of a relay server for an FSD-style line protocol: the packet
//! codec, the session registry, the delivery rule of the broadcast bus and
//! the command handlers, each verified against its contract.
//!
//! The library does no input or output. A program around it owns the
//! sockets, the tasks and the database, hands the library what it has read,
//! and carries out what the library returns.

pub mod assoc;
pub mod auth;
pub mod client;
pub mod config;
pub mod packet;
pub mod server;
pub mod text;
