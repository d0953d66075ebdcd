//! The dispatcher: which handler a packet goes to.
//!
//! Packets are dispatched one at a time, in the order in which they
//! arrive. An identification or a login cannot be concluded before the
//! whitelist or the user store has been asked: the dispatcher then says
//! what to ask, and the handler is called with the answer.

use crate::client::{PeerAddr, PeerAddrView};
use crate::packet::{Packet, PacketView};
use crate::server::bus::{
    all_from_or_server, broadcasts, write_action_spec, Broadcast, BroadcastView,
};
use crate::server::handlers::auth::{
    client_id, client_id_of, handle_logoff, is_login, login_credentials, login_network_id,
    login_password, logoff_outcome,
};
use crate::server::handlers::flight_plan::{flight_plan_outcome, handle_flight_plan};
use crate::server::handlers::message::{handle_text_message, text_message_outcome};
use crate::server::handlers::position::{handle_position_update, position_outcome};
use crate::server::handlers::request::{
    handle_metar_request, handle_request, handle_response, inf_answers, inf_outcome,
    metar_outcome, request_outcome, response_outcome,
};
use crate::server::registry::{has_callsign, Registry, RegistryView};
use crate::text::same_text;
use vstd::prelude::*;

verus! {

/// The families of commands that the server knows.
#[derive(Debug, Clone, Copy, PartialEq, Eq, Structural)]
pub enum CommandKind {
    /// `ID`
    Identification,
    /// `AA`, `AP`
    Login,
    /// `DA`, `DP`
    Logoff,
    /// `TM`
    TextMessage,
    /// `CQ`
    Request,
    /// `CR`
    Response,
    /// `AX`
    Metar,
    /// `N`, `S`, `Y`
    PositionUpdate,
    /// `FP`
    FlightPlan,
    /// Anything else: dropped.
    Unknown,
}

/// What the dispatcher has done with a packet, or needs before the
/// packet can be handled.
#[derive(Debug)]
pub enum Dispatch {
    /// The packet has been handled: these messages go on the bus, in
    /// this order.
    Publish(Vec<Broadcast>),
    /// The packet is an identification. Once the whitelist has been asked
    /// about `client_id`, the identification handler concludes.
    CheckClient { packet: Packet, client_id: String },
    /// The packet is a login. Once the credentials have been checked, the
    /// login handler concludes.
    CheckLogin { packet: Packet, network_id: String, password: String },
}

/// The family of a command.
pub open spec fn command_kind(command: Seq<char>) -> CommandKind {
    if command == "ID"@ {
        CommandKind::Identification
    } else if command == "AA"@ || command == "AP"@ {
        CommandKind::Login
    } else if command == "DA"@ || command == "DP"@ {
        CommandKind::Logoff
    } else if command == "TM"@ {
        CommandKind::TextMessage
    } else if command == "CQ"@ {
        CommandKind::Request
    } else if command == "CR"@ {
        CommandKind::Response
    } else if command == "AX"@ {
        CommandKind::Metar
    } else if command == "N"@ || command == "S"@ || command == "Y"@ {
        CommandKind::PositionUpdate
    } else if command == "FP"@ {
        CommandKind::FlightPlan
    } else {
        CommandKind::Unknown
    }
}

/// Whether `d` publishes exactly `out`.
pub open spec fn publishes(d: Dispatch, out: Seq<BroadcastView>) -> bool {
    d matches Dispatch::Publish(v) && broadcasts(v@) == out
}

/// Whether `d` and `after` are what the dispatcher may make of the packet
/// `p` from `sender` when the registry is `before`.
pub open spec fn dispatched(
    before: RegistryView,
    p: PacketView,
    sender: PeerAddrView,
    d: Dispatch,
    after: RegistryView,
) -> bool {
    match command_kind(p.command) {
        CommandKind::Identification => {
            &&& after == before
            &&& d matches Dispatch::CheckClient { packet, client_id }
            &&& packet@ == p
            &&& client_id@ == client_id_of(p)
        },
        CommandKind::Login => {
            &&& after == before
            &&& if is_login(p) {
                &&& d matches Dispatch::CheckLogin { packet, network_id, password }
                &&& packet@ == p
                &&& Some(network_id@) == login_network_id(p)
                &&& Some(password@) == login_password(p)
            } else {
                publishes(d, Seq::empty())
            }
        },
        CommandKind::Logoff => {
            &&& after.clients == before.clients
            &&& after.callsigns == before.callsigns.remove(p.source)
            &&& publishes(d, logoff_outcome(p, sender))
        },
        CommandKind::TextMessage => after == before && publishes(
            d,
            text_message_outcome(p, sender),
        ),
        CommandKind::Request => {
            &&& after == before
            &&& d matches Dispatch::Publish(v)
            &&& request_outcome(before.clients, p, sender, broadcasts(v@))
        },
        CommandKind::Response => after == before && publishes(d, response_outcome(p, sender)),
        CommandKind::Metar => after == before && publishes(d, metar_outcome(p, sender)),
        CommandKind::PositionUpdate => after == before && publishes(
            d,
            position_outcome(p, sender),
        ),
        CommandKind::FlightPlan => after == before && publishes(
            d,
            flight_plan_outcome(p, sender),
        ),
        CommandKind::Unknown => after == before && publishes(d, Seq::empty()),
    }
}

/// Whatever the dispatcher publishes for a packet comes from the
/// connection that sent the packet or from the server. A packet from the
/// sender is not handed back to the sender; a packet from the server is
/// handed to every connection, the sender's among them.
pub proof fn lemma_published_from_sender_or_server(
    before: RegistryView,
    p: PacketView,
    sender: PeerAddrView,
    d: Dispatch,
    after: RegistryView,
)
    requires
        dispatched(before, p, sender, d, after),
        d is Publish,
    ensures
        all_from_or_server(broadcasts(d->Publish_0@), sender),
        forall|i: int|
            0 <= i < d->Publish_0@.len() && (#[trigger] broadcasts(
                d->Publish_0@,
            )[i]).message is Packet ==> (if broadcasts(d->Publish_0@)[i].origin.port == 0 {
                write_action_spec(sender, broadcasts(d->Publish_0@)[i]) is Some
            } else {
                write_action_spec(sender, broadcasts(d->Publish_0@)[i]) is None
            }),
{
    let out = broadcasts(d->Publish_0@);
    if command_kind(p.command) == CommandKind::Request && p.data.len() > 0 && has_callsign(
        before.clients,
        p.destination,
    ) && inf_answers(before.clients, p, sender, out) {
        let a = choose|a: PeerAddrView| #[trigger]
            before.clients.dom().contains(a) && before.clients[a].callsign == Some(p.destination)
                && out == inf_outcome(p, sender, Some(before.clients[a]));
        assert(all_from_or_server(inf_outcome(p, sender, Some(before.clients[a])), sender));
    }
    assert(all_from_or_server(out, sender));
}

/// The family of a command.
pub fn classify(command: &str) -> (k: CommandKind)
    ensures
        k == command_kind(command@),
{
    if same_text(command, "ID") {
        CommandKind::Identification
    } else if same_text(command, "AA") || same_text(command, "AP") {
        CommandKind::Login
    } else if same_text(command, "DA") || same_text(command, "DP") {
        CommandKind::Logoff
    } else if same_text(command, "TM") {
        CommandKind::TextMessage
    } else if same_text(command, "CQ") {
        CommandKind::Request
    } else if same_text(command, "CR") {
        CommandKind::Response
    } else if same_text(command, "AX") {
        CommandKind::Metar
    } else if same_text(command, "N") || same_text(command, "S") || same_text(command, "Y") {
        CommandKind::PositionUpdate
    } else if same_text(command, "FP") {
        CommandKind::FlightPlan
    } else {
        CommandKind::Unknown
    }
}

/// Dispatches one packet that came from the connection `sender_addr`.
pub fn process_packet(packet: Packet, sender_addr: &PeerAddr, registry: &mut Registry) -> (d:
    Dispatch)
    ensures
        dispatched(old(registry)@, packet@, sender_addr@, d, final(registry)@),
{
    match classify(packet.command.as_str()) {
        CommandKind::Identification => {
            let id = client_id(&packet);
            Dispatch::CheckClient { packet, client_id: id }
        },
        CommandKind::Login => {
            match login_credentials(&packet) {
                Some(c) => Dispatch::CheckLogin { packet, network_id: c.0, password: c.1 },
                None => {
                    let out: Vec<Broadcast> = Vec::new();
                    assert(broadcasts(out@) =~= Seq::<BroadcastView>::empty());
                    Dispatch::Publish(out)
                },
            }
        },
        CommandKind::Logoff => Dispatch::Publish(handle_logoff(packet, sender_addr, registry)),
        CommandKind::TextMessage => Dispatch::Publish(handle_text_message(packet, sender_addr)),
        CommandKind::Request => Dispatch::Publish(handle_request(packet, sender_addr, registry)),
        CommandKind::Response => Dispatch::Publish(handle_response(packet, sender_addr)),
        CommandKind::Metar => Dispatch::Publish(handle_metar_request(packet, sender_addr)),
        CommandKind::PositionUpdate => Dispatch::Publish(
            handle_position_update(packet, sender_addr),
        ),
        CommandKind::FlightPlan => Dispatch::Publish(handle_flight_plan(packet, sender_addr)),
        CommandKind::Unknown => {
            let out: Vec<Broadcast> = Vec::new();
            assert(broadcasts(out@) =~= Seq::<BroadcastView>::empty());
            Dispatch::Publish(out)
        },
    }
}

} // verus!
