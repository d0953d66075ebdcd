//! Requests for information, and the responses to them.

use crate::client::{Client, ClientType, ClientView, PeerAddr, PeerAddrView};
use crate::packet::{Packet, PacketType, PacketView};
use crate::server::bus::{answer, answer_all, broadcasts, relay, Broadcast, BroadcastView};
use crate::server::handlers::{emit, reply};
use crate::server::registry::{has_callsign, Registry};
use crate::text::{decimal, decimal_string, same_text, views};
use vstd::prelude::*;

verus! {

/// The aircraft configuration that the server reports for every aircraft.
pub const AIRCRAFT_CONFIG: &'static str = r#"{
    "config": {
        "is_full_data": true,
        "lights": {
            "strobe_on": false,
            "landing_on": false,
            "taxi_on": true,
            "beacon_on": true,
            "nav_on": true,
            "logo_on": false
        },
        "engines": {
            "1": {
                "on": true
            },
            "2": {
                "on": true
            }
        },
        "gear_down": false,
        "flaps_pct": 0,
        "spoilers_out": false,
        "on_ground": true
    }
}"#;

/// The text of an optional string, empty if there is none.
pub open spec fn or_empty(s: Option<Seq<char>>) -> Seq<char> {
    match s {
        Some(t) => t,
        None => Seq::empty(),
    }
}

/// A response to `to` in the name of `from`.
pub open spec fn response_view(from: Seq<char>, to: Seq<char>, data: Seq<Seq<char>>) -> PacketView {
    PacketView {
        packet_type: PacketType::Request,
        command: "CR"@,
        source: from,
        destination: to,
        data,
    }
}

/// What a response puts on the bus: itself.
pub open spec fn response_outcome(p: PacketView, sender: PeerAddrView) -> Seq<BroadcastView> {
    seq![relay(sender, p)]
}

/// The weather report that the server gives for the airport `icao`.
pub open spec fn metar_text(icao: Seq<char>) -> Seq<char> {
    icao + " 121200Z AUTO 09008KT 9999 FEW040 BKN100 15/08 Q1013 NOSIG"@
}

/// What a weather request puts on the bus: nothing if it has fewer than
/// two data fields, else the server's report for the airport in its
/// second field, addressed to the callsign of the requester.
pub open spec fn metar_outcome(p: PacketView, sender: PeerAddrView) -> Seq<BroadcastView> {
    if p.data.len() < 2 {
        Seq::empty()
    } else {
        seq![
            answer(
                PacketView {
                    packet_type: PacketType::Request,
                    command: "AR"@,
                    source: "server"@,
                    destination: p.source,
                    data: seq!["METAR"@, metar_text(p.data[1])],
                },
            ),
        ]
    }
}

/// The lines of the station information that the server gives.
pub open spec fn atis_lines() -> Seq<Seq<char>> {
    seq![
        "London Heathrow ATIS Information Alpha"@,
        "Runway 27L in use for landing"@,
        "Runway 27R in use for departure"@,
        "Wind 270 at 8 knots"@,
        "Visibility 10km"@,
        "Cloud scattered at 4000ft"@,
        "Temperature 15 Celsius"@,
        "QNH 1013"@,
        "Advise on first contact you have information Alpha"@,
    ]
}

/// The packets that answer a request for station information: the
/// address of the voice server, one packet for each line of text, and the
/// end marker with the number of packets, itself included.
pub open spec fn atis_packets(p: PacketView) -> Seq<PacketView> {
    seq![response_view(p.destination, p.source, seq!["ATIS"@, "V"@, "voice.vatsim.net/uk"@])]
        + Seq::new(
        atis_lines().len(),
        |i: int| response_view(p.destination, p.source, seq!["ATIS"@, "T"@, atis_lines()[i]]),
    ) + seq![
        response_view(
            p.destination,
            p.source,
            seq!["ATIS"@, "E"@, decimal(atis_lines().len() as int + 2)],
        ),
    ]
}

/// What a request for station information puts on the bus: the packets
/// of the answer, each from the server.
pub open spec fn atis_outcome(p: PacketView, sender: PeerAddrView) -> Seq<BroadcastView> {
    answer_all(atis_packets(p))
}

/// What a request for the real name puts on the bus, given the session of
/// the requester: from the server its real name and rating if it has a
/// callsign and is a controller or a pilot, else nothing.
pub open spec fn real_name_outcome(p: PacketView, sender: PeerAddrView, own: Option<ClientView>)
    -> Seq<BroadcastView> {
    match own {
        Some(c) => if c.callsign is Some && (c.client_type == Some(ClientType::Atc)
            || c.client_type == Some(ClientType::Pilot)) {
            seq![
                answer(
                    response_view(
                        c.callsign->Some_0,
                        p.source,
                        seq![
                            "RN"@,
                            or_empty(c.real_name),
                            Seq::empty(),
                            decimal(
                                match c.rating {
                                    Some(r) => r as int,
                                    None => 0,
                                },
                            ),
                        ],
                    ),
                ),
            ]
        } else {
            Seq::empty()
        },
        None => Seq::empty(),
    }
}

/// The simulator that the server reports for a client of this kind.
pub open spec fn simulator_of(t: Option<ClientType>) -> Seq<char> {
    match t {
        Some(ClientType::Atc) => Seq::empty(),
        Some(_) => "Prepar3dV3"@,
        None => Seq::empty(),
    }
}

/// The line of system information that the server gives of a client.
pub open spec fn inf_text(c: ClientView) -> Seq<char> {
    or_empty(c.client_string) + " PID=("@ + or_empty(c.network_id) + ") (("@ + or_empty(
        c.real_name,
    ) + ")) IP=("@ + c.addr.ip + ") SYS_UID=-123456789 FSVER="@ + simulator_of(c.client_type)
        + " LT=51.5 LO=-0.1 AL=35000"@
}

/// What a request for system information puts on the bus, given the
/// session that was found for the callsign it asks about: from the
/// server the line of system information in the name of that callsign,
/// or nothing if no session was found.
pub open spec fn inf_outcome(p: PacketView, sender: PeerAddrView, target: Option<ClientView>)
    -> Seq<BroadcastView> {
    match target {
        Some(c) => seq![
            answer(
                PacketView {
                    packet_type: PacketType::Client,
                    command: "TM"@,
                    source: p.destination,
                    destination: "DATA"@,
                    data: seq![inf_text(c)],
                },
            ),
        ],
        None => Seq::empty(),
    }
}

/// What a request for the aircraft configuration puts on the bus: from
/// the server the configuration in the name of the callsign it asks
/// about, as a request and not as a response, or nothing if no session
/// has that callsign.
pub open spec fn acc_outcome(p: PacketView, sender: PeerAddrView, found: bool) -> Seq<
    BroadcastView,
> {
    if found {
        seq![
            answer(
                PacketView {
                    packet_type: PacketType::Request,
                    command: "CQ"@,
                    source: p.destination,
                    destination: p.source,
                    data: seq!["ACC"@, AIRCRAFT_CONFIG@],
                },
            ),
        ]
    } else {
        Seq::empty()
    }
}

/// Whether `out` is what a request may put on the bus, given the
/// sessions.
///
/// A request without data fields is dropped. `ATIS`, `RN`, `INF` and
/// `ACC` in the first field are answered by the server; every other
/// request is passed on as it is, from the sender. Where several sessions carry the
/// callsign that `INF` asks about, the answer describes one of them.
pub open spec fn request_outcome(
    clients: Map<PeerAddrView, ClientView>,
    p: PacketView,
    sender: PeerAddrView,
    out: Seq<BroadcastView>,
) -> bool {
    if p.data.len() == 0 {
        out == Seq::<BroadcastView>::empty()
    } else if p.data[0] == "CAPS"@ {
        out == seq![relay(sender, p)]
    } else if p.data[0] == "ATIS"@ {
        out == atis_outcome(p, sender)
    } else if p.data[0] == "RN"@ {
        out == real_name_outcome(
            p,
            sender,
            if clients.dom().contains(sender) {
                Some(clients[sender])
            } else {
                None
            },
        )
    } else if p.data[0] == "INF"@ {
        inf_answers(clients, p, sender, out)
    } else if p.data[0] == "ACC"@ {
        out == acc_outcome(p, sender, has_callsign(clients, p.destination))
    } else {
        out == seq![relay(sender, p)]
    }
}

/// Whether `out` is what a request for system information may put on
/// the bus, given the sessions.
pub open spec fn inf_answers(
    clients: Map<PeerAddrView, ClientView>,
    p: PacketView,
    sender: PeerAddrView,
    out: Seq<BroadcastView>,
) -> bool {
    if has_callsign(clients, p.destination) {
        exists|a: PeerAddrView| #[trigger]
            clients.dom().contains(a) && clients[a].callsign == Some(p.destination) && out
                == inf_outcome(p, sender, Some(clients[a]))
    } else {
        out == inf_outcome(p, sender, None)
    }
}

/// A response to `to` in the name of `from`, with three data fields.
fn response3(from: String, to: String, a: &str, b: &str, c: String) -> (p: Packet)
    ensures
        p@ == response_view(from@, to@, seq![a@, b@, c@]),
{
    let mut data: Vec<String> = Vec::new();
    data.push(String::from_str(a));
    data.push(String::from_str(b));
    data.push(c);
    assert(views(data@) =~= seq![a@, b@, c@]);
    Packet {
        packet_type: PacketType::Request,
        command: String::from_str("CR"),
        source: from,
        destination: to,
        data,
    }
}

/// The lines of the station information that the server gives.
fn atis_text() -> (lines: Vec<String>)
    ensures
        views(lines@) == atis_lines(),
{
    let mut lines: Vec<String> = Vec::new();
    lines.push(String::from_str("London Heathrow ATIS Information Alpha"));
    lines.push(String::from_str("Runway 27L in use for landing"));
    lines.push(String::from_str("Runway 27R in use for departure"));
    lines.push(String::from_str("Wind 270 at 8 knots"));
    lines.push(String::from_str("Visibility 10km"));
    lines.push(String::from_str("Cloud scattered at 4000ft"));
    lines.push(String::from_str("Temperature 15 Celsius"));
    lines.push(String::from_str("QNH 1013"));
    lines.push(String::from_str("Advise on first contact you have information Alpha"));
    assert(views(lines@) =~= atis_lines());
    lines
}

/// A copy of an optional string, empty if there is none.
fn text_or_empty(s: &Option<String>) -> (r: String)
    ensures
        r@ == or_empty(crate::client::opt_view(*s)),
{
    match s {
        Some(t) => t.clone(),
        None => String::new(),
    }
}

/// Handles a response (`CR`): it is passed on as it is.
pub fn handle_response(packet: Packet, sender_addr: &PeerAddr) -> (out: Vec<Broadcast>)
    ensures
        broadcasts(out@) == response_outcome(packet@, sender_addr@),
{
    let mut out: Vec<Broadcast> = Vec::new();
    assert(broadcasts(out@) =~= Seq::<BroadcastView>::empty());
    emit(&mut out, sender_addr, packet);
    assert(broadcasts(out@) =~= response_outcome(packet@, sender_addr@));
    out
}

/// Handles a weather request (`AX`).
pub fn handle_metar_request(packet: Packet, sender_addr: &PeerAddr) -> (out: Vec<Broadcast>)
    ensures
        broadcasts(out@) == metar_outcome(packet@, sender_addr@),
{
    let mut out: Vec<Broadcast> = Vec::new();
    assert(broadcasts(out@) =~= Seq::<BroadcastView>::empty());
    if packet.data.len() < 2 {
        return out;
    }
    let report = packet.data[1].clone().concat(
        " 121200Z AUTO 09008KT 9999 FEW040 BKN100 15/08 Q1013 NOSIG",
    );
    let mut data: Vec<String> = Vec::new();
    data.push(String::from_str("METAR"));
    data.push(report);
    assert(views(data@) =~= seq!["METAR"@, metar_text(packet@.data[1])]);
    let response = Packet {
        packet_type: PacketType::Request,
        command: String::from_str("AR"),
        source: String::from_str("server"),
        destination: packet.source,
        data,
    };
    reply(&mut out, response);
    assert(broadcasts(out@) =~= metar_outcome(packet@, sender_addr@));
    out
}

/// Handles a request for station information (`CQ` with `ATIS`).
pub fn handle_atis_request(packet: Packet, sender_addr: &PeerAddr) -> (out: Vec<Broadcast>)
    ensures
        broadcasts(out@) == atis_outcome(packet@, sender_addr@),
{
    let lines = atis_text();
    let ghost expected = atis_packets(packet@);
    let mut out: Vec<Broadcast> = Vec::new();
    assert(broadcasts(out@) =~= Seq::<BroadcastView>::empty());
    reply(
        &mut out,
        response3(
            packet.destination.clone(),
            packet.source.clone(),
            "ATIS",
            "V",
            String::from_str("voice.vatsim.net/uk"),
        ),
    );
    assert(broadcasts(out@) =~= answer_all(expected.take(1)));
    let mut i: usize = 0;
    while i < lines.len()
        invariant
            i <= lines.len(),
            views(lines@) == atis_lines(),
            expected == atis_packets(packet@),
            broadcasts(out@) == answer_all(expected.take(i + 1)),
        decreases lines.len() - i,
    {
        assert(views(lines@)[i as int] == lines@[i as int]@);
        reply(
            &mut out,
            response3(
                packet.destination.clone(),
                packet.source.clone(),
                "ATIS",
                "T",
                lines[i].clone(),
            ),
        );
        assert(broadcasts(out@) =~= answer_all(expected.take(i + 2)));
        i += 1;
    }
    let count = decimal_string((lines.len() + 2) as i64);
    reply(
        &mut out,
        response3(packet.destination.clone(), packet.source.clone(), "ATIS", "E", count),
    );
    assert(broadcasts(out@) =~= answer_all(expected));
    out
}

/// Answers a request for the real name, given the session of the
/// requester.
pub fn real_name_reply(packet: Packet, sender_addr: &PeerAddr, own: Option<&Client>) -> (out: Vec<
    Broadcast,
>)
    ensures
        broadcasts(out@) == real_name_outcome(
            packet@,
            sender_addr@,
            match own {
                Some(c) => Some(c@),
                None => None,
            },
        ),
{
    let mut out: Vec<Broadcast> = Vec::new();
    assert(broadcasts(out@) =~= Seq::<BroadcastView>::empty());
    let client = match own {
        Some(c) => c,
        None => {
            return out;
        },
    };
    let callsign = match &client.callsign {
        Some(s) => s.clone(),
        None => {
            return out;
        },
    };
    match client.client_type {
        Some(ClientType::Atc) | Some(ClientType::Pilot) => {},
        _ => {
            return out;
        },
    }
    let rating: i32 = match client.rating {
        Some(r) => r,
        None => 0,
    };
    let mut data: Vec<String> = Vec::new();
    data.push(String::from_str("RN"));
    data.push(text_or_empty(&client.real_name));
    data.push(String::new());
    data.push(decimal_string(rating as i64));
    assert(views(data@) =~= seq![
        "RN"@,
        or_empty(client@.real_name),
        Seq::<char>::empty(),
        decimal(rating as int),
    ]);
    let response = Packet {
        packet_type: PacketType::Request,
        command: String::from_str("CR"),
        source: callsign,
        destination: packet.source,
        data,
    };
    reply(&mut out, response);
    proof {
        let expected = real_name_outcome(packet@, sender_addr@, Some(client@));
        assert(expected[0].message->Packet_0.data =~= response@.data);
    }
    assert(broadcasts(out@) =~= real_name_outcome(packet@, sender_addr@, Some(client@)));
    out
}

/// Handles a request for the real name (`CQ` with `RN`): the requester
/// is told its own real name and rating.
pub fn handle_real_name_request(
    packet: Packet,
    sender_addr: &PeerAddr,
    registry: &Registry,
) -> (out: Vec<Broadcast>)
    ensures
        broadcasts(out@) == real_name_outcome(
            packet@,
            sender_addr@,
            if registry@.clients.dom().contains(sender_addr@) {
                Some(registry@.clients[sender_addr@])
            } else {
                None
            },
        ),
{
    real_name_reply(packet, sender_addr, registry.get(sender_addr))
}

/// Answers a request for system information, given the session that was
/// found for the callsign it asks about.
pub fn inf_reply(packet: Packet, sender_addr: &PeerAddr, target: Option<&Client>) -> (out: Vec<
    Broadcast,
>)
    ensures
        broadcasts(out@) == inf_outcome(
            packet@,
            sender_addr@,
            match target {
                Some(c) => Some(c@),
                None => None,
            },
        ),
{
    let mut out: Vec<Broadcast> = Vec::new();
    assert(broadcasts(out@) =~= Seq::<BroadcastView>::empty());
    let client = match target {
        Some(c) => c,
        None => {
            return out;
        },
    };
    let mut line = text_or_empty(&client.client_string);
    line.append(" PID=(");
    line.append(text_or_empty(&client.network_id).as_str());
    line.append(") ((");
    line.append(text_or_empty(&client.real_name).as_str());
    line.append(")) IP=(");
    line.append(client.addr.ip.as_str());
    line.append(") SYS_UID=-123456789 FSVER=");
    match client.client_type {
        Some(ClientType::Atc) => {},
        Some(_) => {
            line.append("Prepar3dV3");
        },
        None => {},
    }
    line.append(" LT=51.5 LO=-0.1 AL=35000");
    assert(line@ =~= inf_text(client@));
    let mut data: Vec<String> = Vec::new();
    data.push(line);
    assert(views(data@) =~= seq![inf_text(client@)]);
    let response = Packet {
        packet_type: PacketType::Client,
        command: String::from_str("TM"),
        source: packet.destination,
        destination: String::from_str("DATA"),
        data,
    };
    reply(&mut out, response);
    assert(broadcasts(out@) =~= inf_outcome(packet@, sender_addr@, Some(client@)));
    out
}

/// Handles a request for system information (`CQ` with `INF`) about the
/// client whose callsign is the destination of the packet.
pub fn handle_inf_request(packet: Packet, sender_addr: &PeerAddr, registry: &Registry) -> (out: Vec<
    Broadcast,
>)
    ensures
        inf_answers(registry@.clients, packet@, sender_addr@, broadcasts(out@)),
{
    let target = registry.find_by_callsign(packet.destination.as_str());
    proof {
        if let Some(c) = target {
            assert(registry@.clients.dom().contains(c@.addr) && registry@.clients[c@.addr].callsign
                == Some(packet@.destination));
        }
    }
    inf_reply(packet, sender_addr, target)
}

/// Handles a request for the aircraft configuration (`CQ` with `ACC`) of
/// the client whose callsign is the destination of the packet.
pub fn handle_acc_request(packet: Packet, sender_addr: &PeerAddr, registry: &Registry) -> (out: Vec<
    Broadcast,
>)
    ensures
        broadcasts(out@) == acc_outcome(
            packet@,
            sender_addr@,
            has_callsign(registry@.clients, packet@.destination),
        ),
{
    let mut out: Vec<Broadcast> = Vec::new();
    assert(broadcasts(out@) =~= Seq::<BroadcastView>::empty());
    let target = registry.find_by_callsign(packet.destination.as_str());
    proof {
        if let Some(c) = target {
            assert(registry@.clients.dom().contains(c@.addr) && registry@.clients[c@.addr].callsign
                == Some(packet@.destination));
        }
    }
    if target.is_some() {
        let mut data: Vec<String> = Vec::new();
        data.push(String::from_str("ACC"));
        data.push(String::from_str(AIRCRAFT_CONFIG));
        assert(views(data@) =~= seq!["ACC"@, AIRCRAFT_CONFIG@]);
        let response = Packet {
            packet_type: PacketType::Request,
            command: String::from_str("CQ"),
            source: packet.destination,
            destination: packet.source,
            data,
        };
        reply(&mut out, response);
        assert(broadcasts(out@) =~= acc_outcome(packet@, sender_addr@, true));
    }
    out
}

/// Handles a request (`CQ`).
pub fn handle_request(packet: Packet, sender_addr: &PeerAddr, registry: &Registry) -> (out: Vec<
    Broadcast,
>)
    ensures
        request_outcome(registry@.clients, packet@, sender_addr@, broadcasts(out@)),
{
    if packet.data.len() == 0 {
        let out: Vec<Broadcast> = Vec::new();
        assert(broadcasts(out@) =~= Seq::<BroadcastView>::empty());
        return out;
    }
    assert(packet@.data[0] == packet.data@[0]@);
    let kind = packet.data[0].as_str();
    if same_text(kind, "CAPS") {
        handle_response(packet, sender_addr)
    } else if same_text(kind, "ATIS") {
        handle_atis_request(packet, sender_addr)
    } else if same_text(kind, "RN") {
        handle_real_name_request(packet, sender_addr, registry)
    } else if same_text(kind, "INF") {
        handle_inf_request(packet, sender_addr, registry)
    } else if same_text(kind, "ACC") {
        handle_acc_request(packet, sender_addr, registry)
    } else {
        handle_response(packet, sender_addr)
    }
}

} // verus!
