//! What the server is started with, and what it sends to its connections.

use crate::packet::{Packet, PacketView};
use crate::text::{decimal_nat, push_char, push_decimal};
use vstd::prelude::*;

verus! {

/// The settings of a running server.
#[derive(Debug)]
pub struct ServerConfig {
    pub address: String,
    pub port: u16,
    pub server_name: String,
    pub server_version: String,
    pub max_clients: usize,
}

impl Clone for ServerConfig {
    fn clone(&self) -> (r: Self)
        ensures
            r.address@ == self.address@,
            r.port == self.port,
            r.server_name@ == self.server_name@,
            r.server_version@ == self.server_version@,
            r.max_clients == self.max_clients,
    {
        ServerConfig {
            address: self.address.clone(),
            port: self.port,
            server_name: self.server_name.clone(),
            server_version: self.server_version.clone(),
            max_clients: self.max_clients,
        }
    }
}

impl Default for ServerConfig {
    /// All interfaces, port 6809, room for a thousand clients.
    fn default() -> (r: Self)
        ensures
            r.address@ == "0.0.0.0"@,
            r.port == 6809,
            r.server_name@ == "OpenFSD"@,
            r.server_version@ == "0.1.0"@,
            r.max_clients == 1000,
    {
        ServerConfig {
            address: String::from_str("0.0.0.0"),
            port: 6809,
            server_name: String::from_str("OpenFSD"),
            server_version: String::from_str("0.1.0"),
            max_clients: 1000,
        }
    }
}

impl ServerConfig {
    /// The address to listen on: the host, a colon, the port.
    pub fn bind_address(&self) -> (s: String)
        ensures
            s@ == self.address@ + seq![':'] + decimal_nat(self.port as nat),
    {
        let mut s = self.address.clone();
        push_char(&mut s, ':');
        push_decimal(&mut s, self.port as u64);
        assert(s@ =~= self.address@ + seq![':'] + decimal_nat(self.port as nat));
        s
    }

    /// Whether one more connection is admitted when `current` are
    /// registered: only below the maximum.
    pub fn admits(&self, current: usize) -> (r: bool)
        ensures
            r == (current < self.max_clients),
    {
        current < self.max_clients
    }
}

/// What travels on the broadcast bus: a packet to relay, or the signal
/// that ends a connection.
#[derive(Debug)]
pub enum ServerMessage {
    Packet(Packet),
    Disconnect,
}

/// A bus message as plain mathematical data.
pub enum ServerMessageView {
    Packet(PacketView),
    Disconnect,
}

impl View for ServerMessage {
    type V = ServerMessageView;

    open spec fn view(&self) -> ServerMessageView {
        match self {
            ServerMessage::Packet(p) => ServerMessageView::Packet(p@),
            ServerMessage::Disconnect => ServerMessageView::Disconnect,
        }
    }
}

impl Clone for ServerMessage {
    fn clone(&self) -> (r: Self)
        ensures
            r@ == self@,
    {
        match self {
            ServerMessage::Packet(p) => ServerMessage::Packet(p.clone()),
            ServerMessage::Disconnect => ServerMessage::Disconnect,
        }
    }
}

} // verus!
