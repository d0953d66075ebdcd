//! Text messages.

use crate::client::{PeerAddr, PeerAddrView};
use crate::packet::{Packet, PacketView};
use crate::server::bus::{answer, broadcasts, relay, Broadcast, BroadcastView};
use crate::server::handlers::{emit, flight_plan_ack, flight_plan_ack_view, reply};
use crate::text::{chars_of, collapse_colons, push_char, same_text, views};
use vstd::prelude::*;

verus! {

/// Each field with its doubled colons collapsed.
pub open spec fn collapse_all(data: Seq<Seq<char>>) -> Seq<Seq<char>> {
    Seq::new(data.len(), |i: int| collapse_colons(data[i]))
}

/// Whether the fields of a text message ask for the acknowledgment of a
/// flight plan: `FP`, a callsign, `GET`.
pub open spec fn is_flight_plan_query(data: Seq<Seq<char>>) -> bool {
    data.len() >= 3 && data[0] == "FP"@ && data[2] == "GET"@
}

/// What a text message puts on the bus: the server's acknowledgment of a
/// flight plan if it asks for one, else from the sender the message
/// itself, with the doubled colons of each field collapsed.
pub open spec fn text_message_outcome(p: PacketView, sender: PeerAddrView) -> Seq<BroadcastView> {
    let data = collapse_all(p.data);
    if is_flight_plan_query(data) {
        seq![answer(flight_plan_ack_view(p.source, data[1]))]
    } else {
        seq![relay(sender, PacketView { data, ..p })]
    }
}

/// A doubled colon that follows text without colons becomes a single
/// colon, and the text before it stays as it is.
pub proof fn lemma_collapse_doubled(before: Seq<char>, after: Seq<char>)
    requires
        forall|i: int| 0 <= i < before.len() ==> before[i] != ':',
    ensures
        collapse_colons(before + seq![':', ':'] + after) == before + seq![':'] + collapse_colons(
            after,
        ),
    decreases before.len(),
{
    let s = before + seq![':', ':'] + after;
    if before.len() == 0 {
        assert(s.skip(2) =~= after);
        assert(seq![':'] + collapse_colons(after) =~= before + seq![':'] + collapse_colons(after));
    } else {
        let rest = before.skip(1);
        assert(s[0] == before[0]);
        assert forall|i: int| 0 <= i < rest.len() implies rest[i] != ':' by {
            assert(rest[i] == before[i + 1]);
        }
        lemma_collapse_doubled(rest, after);
        assert(s.skip(1) =~= rest + seq![':', ':'] + after);
        assert(seq![s[0]] + (rest + seq![':'] + collapse_colons(after)) =~= before + seq![':']
            + collapse_colons(after));
    }
}

/// Whether two colons stand at `i` and `i + 1` in `s`.
pub open spec fn doubled_at(s: Seq<char>, i: int) -> bool {
    0 <= i < s.len() - 1 && s[i] == ':' && s[i + 1] == ':'
}

/// Text without a doubled colon stays as it is.
pub proof fn lemma_collapse_plain(s: Seq<char>)
    requires
        forall|i: int| !#[trigger] doubled_at(s, i),
    ensures
        collapse_colons(s) == s,
    decreases s.len(),
{
    if s.len() >= 2 {
        let rest = s.skip(1);
        assert(!doubled_at(s, 0));
        assert forall|i: int| !#[trigger] doubled_at(rest, i) by {
            if 0 <= i < rest.len() - 1 {
                assert(!doubled_at(s, i + 1));
                assert(rest[i] == s[i + 1] && rest[i + 1] == s[i + 2]);
            }
        }
        lemma_collapse_plain(rest);
        assert(seq![s[0]] + rest =~= s);
    }
}

/// Undoes the escaping of colons in message text: each doubled colon
/// becomes a single one.
pub fn process_message_content(content: &str) -> (out: String)
    ensures
        out@ == collapse_colons(content@),
{
    let v = chars_of(content);
    let n = v.len();
    let mut out = String::new();
    let mut i: usize = 0;
    assert(v@.skip(0) =~= v@);
    while i < n
        invariant
            n == v.len(),
            i <= n,
            collapse_colons(v@) == out@ + collapse_colons(v@.skip(i as int)),
        decreases n - i,
    {
        let ghost rest = v@.skip(i as int);
        let ghost before = out@;
        if i + 1 < n && v[i] == ':' && v[i + 1] == ':' {
            push_char(&mut out, ':');
            proof {
                assert(rest.skip(2) =~= v@.skip(i + 2));
                assert(before + (seq![':'] + collapse_colons(rest.skip(2))) =~= before.push(':')
                    + collapse_colons(rest.skip(2)));
            }
            i += 2;
        } else {
            push_char(&mut out, v[i]);
            proof {
                assert(rest.skip(1) =~= v@.skip(i + 1));
                if rest.len() < 2 {
                    assert(rest =~= seq![rest[0]]);
                    assert(collapse_colons(rest.skip(1)) =~= Seq::<char>::empty());
                    assert(collapse_colons(rest) =~= seq![rest[0]] + collapse_colons(
                        rest.skip(1),
                    ));
                }
                assert(before + (seq![rest[0]] + collapse_colons(rest.skip(1))) =~= before.push(
                    rest[0],
                ) + collapse_colons(rest.skip(1)));
            }
            i += 1;
        }
    }
    assert(collapse_colons(v@.skip(n as int)) =~= Seq::<char>::empty());
    assert(out@ + Seq::<char>::empty() =~= out@);
    out
}

/// Handles a text message (`TM`).
pub fn handle_text_message(packet: Packet, sender_addr: &PeerAddr) -> (out: Vec<Broadcast>)
    ensures
        broadcasts(out@) == text_message_outcome(packet@, sender_addr@),
{
    let mut data: Vec<String> = Vec::new();
    let mut i: usize = 0;
    while i < packet.data.len()
        invariant
            i <= packet.data.len(),
            data.len() == i,
            forall|j: int| 0 <= j < i ==> data@[j]@ == collapse_colons(packet.data@[j]@),
        decreases packet.data.len() - i,
    {
        data.push(process_message_content(packet.data[i].as_str()));
        i += 1;
    }
    assert(views(data@) =~= collapse_all(packet@.data));
    let mut out: Vec<Broadcast> = Vec::new();
    assert(broadcasts(out@) =~= Seq::<BroadcastView>::empty());
    if data.len() >= 3 && same_text(data[0].as_str(), "FP") && same_text(data[2].as_str(), "GET") {
        let ack = flight_plan_ack(packet.source, data[1].clone());
        reply(&mut out, ack);
    } else {
        let processed = Packet {
            packet_type: packet.packet_type,
            command: packet.command,
            destination: packet.destination,
            source: packet.source,
            data,
        };
        emit(&mut out, sender_addr, processed);
    }
    assert(broadcasts(out@) =~= text_message_outcome(packet@, sender_addr@));
    out
}

} // verus!
