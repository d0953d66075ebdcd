//! The relay server: its configuration, the registry of sessions, the
//! delivery rule of the broadcast bus, and the handling of each command.

pub mod bus;
pub mod config;
pub mod connection;
pub mod handlers;
pub mod processor;
pub mod registry;

pub use config::{ServerConfig, ServerMessage};
