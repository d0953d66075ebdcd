//! Position updates.

use crate::client::{PeerAddr, PeerAddrView};
use crate::packet::{Packet, PacketType, PacketView};
use crate::server::bus::{broadcasts, relay, write_action_spec, Broadcast, BroadcastView};
use crate::server::config::{ServerMessage, ServerMessageView};
use crate::server::handlers::emit;
use crate::text::same_text;
use vstd::prelude::*;

verus! {

/// Whether a packet is the update of a pilot whose transponder shows the
/// hijack code 7500 in its second data field.
pub open spec fn squawks_hijack(p: PacketView) -> bool {
    p.packet_type == PacketType::PilotUpdate && p.data.len() >= 2 && p.data[1] == "7500"@
}

/// What a position update puts on the bus: one disconnect signal for the
/// sender if it squawks the hijack code, else the update itself.
pub open spec fn position_outcome(p: PacketView, sender: PeerAddrView) -> Seq<BroadcastView> {
    if squawks_hijack(p) {
        seq![BroadcastView { origin: sender, message: ServerMessageView::Disconnect }]
    } else {
        seq![relay(sender, p)]
    }
}

/// A pilot's update that squawks the hijack code puts exactly one
/// message on the bus: a disconnect signal, which ends the connection
/// that sent the update and no other. The update itself is not relayed.
pub proof fn lemma_hijack_ends_the_sender(p: PacketView, sender: PeerAddrView, other: PeerAddrView)
    requires
        squawks_hijack(p),
        other != sender,
        sender.port != 0,
    ensures
        position_outcome(p, sender).len() == 1,
        position_outcome(p, sender)[0].message is Disconnect,
        position_outcome(p, sender)[0].origin == sender,
        write_action_spec(sender, position_outcome(p, sender)[0]) == Some(None::<Seq<char>>),
        write_action_spec(other, position_outcome(p, sender)[0]) is None,
{
}

/// Handles a position update (`N`, `S`, `Y`).
pub fn handle_position_update(packet: Packet, sender_addr: &PeerAddr) -> (out: Vec<Broadcast>)
    ensures
        broadcasts(out@) == position_outcome(packet@, sender_addr@),
{
    let mut out: Vec<Broadcast> = Vec::new();
    assert(broadcasts(out@) =~= Seq::<BroadcastView>::empty());
    if packet.packet_type == PacketType::PilotUpdate && packet.data.len() >= 2 && same_text(
        packet.data[1].as_str(),
        "7500",
    ) {
        out.push(Broadcast { origin: sender_addr.clone(), message: ServerMessage::Disconnect });
    } else {
        emit(&mut out, sender_addr, packet);
    }
    assert(broadcasts(out@) =~= position_outcome(packet@, sender_addr@));
    out
}

} // verus!
