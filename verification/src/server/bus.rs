//! The delivery rule of the broadcast bus.
//!
//! Every message on the bus carries an origin. What a client sent and the
//! server passes on carries the identity of that client's connection: it
//! is handed to every connection but that one. What the server itself
//! says (an answer, an error report, the welcome text, the heartbeat)
//! carries the identity reserved for the server: it is handed to every
//! connection, the one that asked among them, and a client reads what is
//! addressed to its callsign. A disconnect signal names its target by its
//! origin.
//!
//! Each subscriber applies the rule below to what it receives; the
//! queueing itself is the business of whoever runs the bus.

use crate::client::{PeerAddr, PeerAddrView};
use crate::packet::{format_spec, Packet, PacketType, PacketView};
use crate::server::config::{ServerMessage, ServerMessageView};
use vstd::prelude::*;

verus! {

/// How many undelivered messages the bus keeps for a slow subscriber
/// before it drops the oldest.
pub const BUS_CAPACITY: usize = 1000;

/// How many parsed packets may wait for the dispatcher.
pub const REQUEST_QUEUE_CAPACITY: usize = 1000;

/// The seconds between two heartbeats.
pub const HEARTBEAT_SECONDS: u64 = 30;

/// A message on the bus, with where it came from.
#[derive(Debug)]
pub struct Broadcast {
    pub origin: PeerAddr,
    pub message: ServerMessage,
}

/// A bus message with its origin, as plain mathematical data.
pub struct BroadcastView {
    pub origin: PeerAddrView,
    pub message: ServerMessageView,
}

impl View for Broadcast {
    type V = BroadcastView;

    open spec fn view(&self) -> BroadcastView {
        BroadcastView { origin: self.origin@, message: self.message@ }
    }
}

impl Clone for Broadcast {
    fn clone(&self) -> (r: Self)
        ensures
            r@ == self@,
    {
        Broadcast { origin: self.origin.clone(), message: self.message.clone() }
    }
}

/// The views of a sequence of bus messages, in order.
pub open spec fn broadcasts(v: Seq<Broadcast>) -> Seq<BroadcastView> {
    Seq::new(v.len(), |i: int| v[i]@)
}

/// A packet on the bus, coming from `origin`.
pub open spec fn relay(origin: PeerAddrView, p: PacketView) -> BroadcastView {
    BroadcastView { origin, message: ServerMessageView::Packet(p) }
}

/// The identity that marks what the server itself sends.
pub open spec fn server_origin_view() -> PeerAddrView {
    PeerAddrView { ip: "0.0.0.0"@, port: 0 }
}

/// A packet on the bus that the server itself sends.
pub open spec fn answer(p: PacketView) -> BroadcastView {
    relay(server_origin_view(), p)
}

/// The packets of `packets` in order, each sent by the server itself.
pub open spec fn answer_all(packets: Seq<PacketView>) -> Seq<BroadcastView> {
    Seq::new(packets.len(), |i: int| answer(packets[i]))
}

/// Whether every message of `out` comes from `origin` or from the server.
pub open spec fn all_from_or_server(out: Seq<BroadcastView>, origin: PeerAddrView) -> bool {
    forall|i: int|
        0 <= i < out.len() ==> (#[trigger] out[i]).origin == origin || out[i].origin
            == server_origin_view()
}

/// The heartbeat that the server sends to every connection.
pub open spec fn heartbeat_view() -> BroadcastView {
    relay(
        server_origin_view(),
        PacketView {
            packet_type: PacketType::Client,
            command: "DL"@,
            source: "SERVER"@,
            destination: "*"@,
            data: seq!["0"@, "0"@],
        },
    )
}

/// Whether a subscriber is handed a packet: always if the server sent it,
/// else only if it came from another connection.
pub open spec fn deliver_to(subscriber: PeerAddrView, origin: PeerAddrView) -> bool {
    origin.port == 0 || origin != subscriber
}

/// Whether a disconnect signal ends a subscriber: a signal names its
/// target by its origin, and one from the server ends everybody.
pub open spec fn disconnects(subscriber: PeerAddrView, origin: PeerAddrView) -> bool {
    origin.port == 0 || origin == subscriber
}

/// What can happen to the writing side of a connection.
#[derive(Debug)]
pub enum WriterEvent {
    /// The bus has handed over a message.
    Message(Broadcast),
    /// The bus reports that this subscriber was too slow and has missed
    /// that many messages.
    Lagged(u64),
    /// The bus is closed: no message will come any more.
    Closed,
    /// The last write to the socket failed.
    WriteFailed,
}

/// What the writing side of a connection does with a bus message.
#[derive(Debug)]
pub enum WriteAction {
    /// The message is not for this connection.
    Skip,
    /// Write this line to the socket and flush.
    Write(String),
    /// Stop writing: the connection is to end.
    Stop,
}

/// What a subscriber does with a message, as plain mathematical data:
/// `Some(Some(line))` to write, `Some(None)` to stop, `None` to skip.
pub open spec fn write_action_spec(subscriber: PeerAddrView, b: BroadcastView) -> Option<
    Option<Seq<char>>,
> {
    match b.message {
        ServerMessageView::Packet(p) => if deliver_to(subscriber, b.origin) {
            Some(Some(format_spec(p)))
        } else {
            None
        },
        ServerMessageView::Disconnect => if disconnects(subscriber, b.origin) {
            Some(None)
        } else {
            None
        },
    }
}

/// A packet of a connection reaches every other connection and is never
/// echoed to its sender; what the server sends reaches everybody, also a
/// connection whose identity is the reserved one.
pub proof fn lemma_self_exclusion(a: PeerAddrView, b: PeerAddrView, p: PacketView)
    requires
        a != b,
        a.port != 0,
    ensures
        write_action_spec(b, relay(a, p)) == Some(Some(format_spec(p))),
        write_action_spec(a, relay(a, p)) is None,
        write_action_spec(a, heartbeat_view()) is Some,
        write_action_spec(b, heartbeat_view()) is Some,
        write_action_spec(server_origin_view(), heartbeat_view()) is Some,
{
}

/// What the server itself says is written to every connection, whatever
/// its identity.
pub proof fn lemma_answers_reach_everybody(subscriber: PeerAddrView, p: PacketView)
    ensures
        write_action_spec(subscriber, answer(p)) == Some(Some(format_spec(p))),
{
}

/// A disconnect signal that a connection causes ends that connection and
/// no other.
pub proof fn lemma_disconnect_is_targeted(a: PeerAddrView, b: PeerAddrView)
    requires
        a != b,
        a.port != 0,
    ensures
        write_action_spec(
            a,
            BroadcastView { origin: a, message: ServerMessageView::Disconnect },
        ) == Some(None::<Seq<char>>),
        write_action_spec(
            b,
            BroadcastView { origin: a, message: ServerMessageView::Disconnect },
        ) is None,
{
}

/// The identity that marks what the server itself sends.
pub fn server_origin() -> (a: PeerAddr)
    ensures
        a@ == server_origin_view(),
{
    PeerAddr { ip: String::from_str("0.0.0.0"), port: 0 }
}

/// The heartbeat that the server sends to every connection.
pub fn heartbeat() -> (b: Broadcast)
    ensures
        b@ == heartbeat_view(),
{
    let mut data: Vec<String> = Vec::new();
    data.push(String::from_str("0"));
    data.push(String::from_str("0"));
    assert(crate::text::views(data@) =~= seq!["0"@, "0"@]);
    Broadcast {
        origin: server_origin(),
        message: ServerMessage::Packet(
            Packet {
                packet_type: PacketType::Client,
                command: String::from_str("DL"),
                source: String::from_str("SERVER"),
                destination: String::from_str("*"),
                data,
            },
        ),
    }
}

/// Decides what the writing side of the connection `subscriber` does
/// next. A message is skipped, written or obeyed by the delivery rule. A
/// lag is survived: what was missed is lost, and the connection reads on.
/// It stops when the bus is closed or a write has failed.
pub fn on_writer_event(subscriber: &PeerAddr, event: &WriterEvent) -> (r: WriteAction)
    ensures
        match *event {
            WriterEvent::Message(b) => match r {
                WriteAction::Skip => write_action_spec(subscriber@, b@) is None,
                WriteAction::Write(line) => write_action_spec(subscriber@, b@) == Some(
                    Some(line@),
                ),
                WriteAction::Stop => write_action_spec(subscriber@, b@) == Some(
                    None::<Seq<char>>,
                ),
            },
            WriterEvent::Lagged(_) => r is Skip,
            WriterEvent::Closed => r is Stop,
            WriterEvent::WriteFailed => r is Stop,
        },
{
    match event {
        WriterEvent::Message(b) => on_broadcast(subscriber, &b.origin, &b.message),
        WriterEvent::Lagged(_) => WriteAction::Skip,
        WriterEvent::Closed => WriteAction::Stop,
        WriterEvent::WriteFailed => WriteAction::Stop,
    }
}

/// Decides what the writing side of the connection `subscriber` does with
/// a message from the bus.
pub fn on_broadcast(subscriber: &PeerAddr, origin: &PeerAddr, message: &ServerMessage) -> (r:
    WriteAction)
    ensures
        match r {
            WriteAction::Skip => write_action_spec(
                subscriber@,
                BroadcastView { origin: origin@, message: message@ },
            ) is None,
            WriteAction::Write(line) => write_action_spec(
                subscriber@,
                BroadcastView { origin: origin@, message: message@ },
            ) == Some(Some(line@)),
            WriteAction::Stop => write_action_spec(
                subscriber@,
                BroadcastView { origin: origin@, message: message@ },
            ) == Some(None::<Seq<char>>),
        },
{
    let from_server = origin.is_server();
    let own = origin == subscriber;
    match message {
        ServerMessage::Packet(p) => {
            if from_server || !own {
                WriteAction::Write(p.format())
            } else {
                WriteAction::Skip
            }
        },
        ServerMessage::Disconnect => {
            if from_server || own {
                WriteAction::Stop
            } else {
                WriteAction::Skip
            }
        },
    }
}

} // verus!
