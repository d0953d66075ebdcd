//! Flight plans.

use crate::client::{PeerAddr, PeerAddrView};
use crate::packet::{Packet, PacketView};
use crate::server::bus::{answer, broadcasts, relay, Broadcast, BroadcastView};
use crate::server::handlers::{emit, flight_plan_ack, flight_plan_ack_view, reply};
use vstd::prelude::*;

verus! {

/// What a flight plan puts on the bus: from the sender the plan itself,
/// then from the server the acknowledgment, addressed to the callsign of
/// the sender.
pub open spec fn flight_plan_outcome(p: PacketView, sender: PeerAddrView) -> Seq<BroadcastView> {
    seq![relay(sender, p), answer(flight_plan_ack_view(p.source, p.source))]
}

/// Handles a flight plan (`FP`).
pub fn handle_flight_plan(packet: Packet, sender_addr: &PeerAddr) -> (out: Vec<Broadcast>)
    ensures
        broadcasts(out@) == flight_plan_outcome(packet@, sender_addr@),
{
    let ack = flight_plan_ack(packet.source.clone(), packet.source.clone());
    let mut out: Vec<Broadcast> = Vec::new();
    assert(broadcasts(out@) =~= Seq::<BroadcastView>::empty());
    emit(&mut out, sender_addr, packet);
    reply(&mut out, ack);
    assert(broadcasts(out@) =~= flight_plan_outcome(packet@, sender_addr@));
    out
}

} // verus!
