//! The handlers of the protocol's commands.
//!
//! A handler takes a parsed packet and the identity of the connection it
//! came from, and returns the messages to put on the bus, in order.
//!
//! What a handler passes on for the sender (a text message, an update, a
//! flight plan, a request or response for somebody else, the announcement
//! that a client has joined or left) carries the sender's identity, and
//! so reaches every connection but the sender's. What the server itself
//! answers (an error report, the welcome text, an acknowledgment, a
//! weather report, what it knows of a client) carries the server's
//! identity, and so reaches every connection, the sender's among them.

pub mod auth;
pub mod flight_plan;
pub mod message;
pub mod position;
pub mod request;

pub use auth::{handle_identification, handle_login, handle_logoff};
pub use flight_plan::handle_flight_plan;
pub use message::handle_text_message;
pub use position::handle_position_update;
pub use request::{handle_metar_request, handle_request, handle_response};

use crate::client::PeerAddr;
use crate::packet::{Packet, PacketType, PacketView};
use crate::server::bus::{answer, broadcasts, relay, server_origin, Broadcast};
use crate::server::config::ServerMessage;
use crate::text::views;
use vstd::prelude::*;

verus! {

/// An error report of the server to `destination`.
pub open spec fn error_view(
    destination: Seq<char>,
    code: Seq<char>,
    subject: Seq<char>,
    text: Seq<char>,
) -> PacketView {
    PacketView {
        packet_type: PacketType::Request,
        command: "ER"@,
        source: "server"@,
        destination,
        data: seq![code, subject, text],
    }
}

/// The server's acknowledgment of the flight plan of `callsign`, sent to
/// `destination`.
pub open spec fn flight_plan_ack_view(destination: Seq<char>, callsign: Seq<char>) -> PacketView {
    PacketView {
        packet_type: PacketType::Client,
        command: "PC"@,
        source: "server"@,
        destination,
        data: seq!["CCP"@, "BC"@, callsign, "0"@],
    }
}

/// A packet on the bus, coming from `origin`.
pub(crate) fn relayed(origin: &PeerAddr, packet: Packet) -> (b: Broadcast)
    ensures
        b@ == relay(origin@, packet@),
{
    Broadcast { origin: origin.clone(), message: ServerMessage::Packet(packet) }
}

/// An error report of the server to `destination`.
pub(crate) fn error_packet(destination: String, code: &str, subject: String, text: &str) -> (p:
    Packet)
    ensures
        p@ == error_view(destination@, code@, subject@, text@),
{
    let mut data: Vec<String> = Vec::new();
    data.push(String::from_str(code));
    data.push(subject);
    data.push(String::from_str(text));
    assert(views(data@) =~= seq![code@, subject@, text@]);
    Packet {
        packet_type: PacketType::Request,
        command: String::from_str("ER"),
        source: String::from_str("server"),
        destination,
        data,
    }
}

/// The server's acknowledgment of the flight plan of `callsign`, sent to
/// `destination`.
pub(crate) fn flight_plan_ack(destination: String, callsign: String) -> (p: Packet)
    ensures
        p@ == flight_plan_ack_view(destination@, callsign@),
{
    let mut data: Vec<String> = Vec::new();
    data.push(String::from_str("CCP"));
    data.push(String::from_str("BC"));
    data.push(callsign);
    data.push(String::from_str("0"));
    assert(views(data@) =~= seq!["CCP"@, "BC"@, callsign@, "0"@]);
    Packet {
        packet_type: PacketType::Client,
        command: String::from_str("PC"),
        source: String::from_str("server"),
        destination,
        data,
    }
}

/// One more message of the server itself at the end of what a handler
/// puts on the bus.
pub(crate) fn reply(out: &mut Vec<Broadcast>, packet: Packet)
    ensures
        broadcasts(final(out)@) == broadcasts(old(out)@).push(answer(packet@)),
{
    let b = Broadcast { origin: server_origin(), message: ServerMessage::Packet(packet) };
    out.push(b);
    assert(broadcasts(out@) =~= broadcasts(old(out)@).push(answer(packet@)));
}

/// One more message of the sender at the end of what a handler puts on
/// the bus.
pub(crate) fn emit(out: &mut Vec<Broadcast>, origin: &PeerAddr, packet: Packet)
    ensures
        broadcasts(final(out)@) == broadcasts(
            old(out)@,
        ).push(relay(origin@, packet@)),
{
    let b = relayed(origin, packet);
    out.push(b);
    assert(broadcasts(out@) =~= broadcasts(
        old(out)@,
    ).push(relay(origin@, packet@)));
}

} // verus!
