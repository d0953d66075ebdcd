//! Identification, login and logoff.

use crate::auth::{
    login_verdict, verdict_view, AuthError, AuthErrorView, PasswordCheck, UserRecord,
    UserRecordView,
};
use crate::client::{
    activated, fresh_client, identified, ClientState, ClientType, PeerAddr, PeerAddrView,
};
use crate::packet::{format_spec, Packet, PacketType, PacketView};
use crate::server::bus::{
    all_from_or_server, answer, answer_all, broadcasts, heartbeat_view, relay,
    server_origin_view, write_action_spec, Broadcast, BroadcastView,
};
use crate::server::handlers::{emit, error_packet, error_view, reply};
use crate::server::registry::{index_resolves, lemma_index_keeps_resolving, Registry, RegistryView};
use crate::text::{same_text, views};
use vstd::prelude::*;

verus! {

/// The data field at `i`, if the packet has that many.
pub open spec fn field(data: Seq<Seq<char>>, i: int) -> Option<Seq<char>> {
    if 0 <= i < data.len() {
        Some(data[i])
    } else {
        None
    }
}

/// The client software id that an identification names: its first data
/// field, or the empty text if it has none.
pub open spec fn client_id_of(p: PacketView) -> Seq<char> {
    if p.data.len() > 0 {
        p.data[0]
    } else {
        Seq::empty()
    }
}

/// What an identification puts on the bus: nothing if the client software
/// was accepted, else the server's report of error 016, addressed to the
/// callsign of the requester.
pub open spec fn identification_outcome(p: PacketView, sender: PeerAddrView, accepted: bool)
    -> Seq<BroadcastView> {
    if accepted {
        Seq::empty()
    } else {
        seq![answer(error_view(p.source, "016"@, Seq::empty(), "Unauthorized client software"@))]
    }
}

/// The registry after an identification: if the client software was
/// accepted and the sender is registered, its session holds the callsign,
/// the client string and the network id of the packet and is identified;
/// else nothing has changed.
pub open spec fn identification_effect(
    r: RegistryView,
    p: PacketView,
    sender: PeerAddrView,
    accepted: bool,
) -> RegistryView {
    if accepted && r.clients.dom().contains(sender) {
        RegistryView {
            clients: r.clients.insert(
                sender,
                identified(r.clients[sender], p.source, field(p.data, 1), field(p.data, 4)),
            ),
            callsigns: r.callsigns,
        }
    } else {
        r
    }
}

/// The kind of client that a login command stands for.
pub open spec fn login_type(command: Seq<char>) -> Option<ClientType> {
    if command == "AA"@ {
        Some(ClientType::Atc)
    } else if command == "AP"@ {
        Some(ClientType::Pilot)
    } else {
        None
    }
}

/// The network id that a login names: the second data field of a
/// controller's login, the first of a pilot's.
pub open spec fn login_network_id(p: PacketView) -> Option<Seq<char>> {
    match login_type(p.command) {
        Some(ClientType::Atc) => field(p.data, 1),
        Some(ClientType::Pilot) => field(p.data, 0),
        _ => None,
    }
}

/// The password that a login names: the third data field of a
/// controller's login, the second of a pilot's.
pub open spec fn login_password(p: PacketView) -> Option<Seq<char>> {
    match login_type(p.command) {
        Some(ClientType::Atc) => field(p.data, 2),
        Some(ClientType::Pilot) => field(p.data, 1),
        _ => None,
    }
}

/// Whether a packet is a login that names a network id and a password.
pub open spec fn is_login(p: PacketView) -> bool {
    login_network_id(p) is Some && login_password(p) is Some
}

/// The rating that a user logs in with.
pub open spec fn login_rating(t: ClientType, user: UserRecordView) -> i32 {
    match t {
        ClientType::Atc => user.atc_rating,
        ClientType::Pilot => user.pilot_rating,
        ClientType::Observer => 1,
    }
}

/// The lines of the welcome text.
pub open spec fn welcome_lines() -> Seq<Seq<char>> {
    seq![
        "By using your VATSIM assigned identification number on this server you"@,
        "hereby agree to the terms of the VATSIM Code of Regulations and the"@,
        "VATSIM User Agreement and the VATSIM Code of Conduct which may be viewed"@,
        "at http://www.vatsim.net/network/docs/"@,
        "All logins are tracked and identification numbers are recorded."@,
        "Users must enter their real full first names and surnames when logging"@,
        "onto any of the VATSIM.net servers."@,
    ]
}

/// One line of text from the server to `callsign`.
pub open spec fn server_text_view(callsign: Seq<char>, line: Seq<char>) -> PacketView {
    PacketView {
        packet_type: PacketType::Client,
        command: "TM"@,
        source: "server"@,
        destination: callsign,
        data: seq![line],
    }
}

/// A request or response of the server to `callsign`.
pub open spec fn server_info_view(command: Seq<char>, callsign: Seq<char>, data: Seq<Seq<char>>)
    -> PacketView {
    PacketView {
        packet_type: PacketType::Request,
        command,
        source: "SERVER"@,
        destination: callsign,
        data,
    }
}

/// The welcome text, one packet for each line.
pub open spec fn welcome_packets(callsign: Seq<char>) -> Seq<PacketView> {
    Seq::new(welcome_lines().len(), |i: int| server_text_view(callsign, welcome_lines()[i]))
}

/// What follows the welcome text. A controller is asked for its
/// capabilities and told the server's and its own address; a pilot is
/// asked for its capabilities, told its address and that it has no
/// flight plan.
pub open spec fn login_followups(t: ClientType, callsign: Seq<char>, ip: Seq<char>) -> Seq<
    PacketView,
> {
    match t {
        ClientType::Atc => seq![
            server_info_view("CQ"@, callsign, seq!["CAPS"@]),
            server_info_view(
                "CR"@,
                callsign,
                seq!["CAPS:ATCINFO=1:SECPOS=1:MODELDESC=1:ONGOINGCOORD=1"@],
            ),
            server_info_view("CR"@, callsign, seq!["IP"@, ip]),
        ],
        ClientType::Pilot => seq![
            server_info_view("CQ"@, callsign, seq!["CAPS"@]),
            server_info_view("CR"@, callsign, seq!["IP"@, ip]),
            error_view(callsign, "008"@, callsign, "No flightplan"@),
        ],
        ClientType::Observer => Seq::empty(),
    }
}

/// The announcement that a client has joined: its login, addressed to the
/// server.
pub open spec fn join_view(p: PacketView) -> PacketView {
    PacketView {
        packet_type: PacketType::Client,
        command: p.command,
        source: p.source,
        destination: "SERVER"@,
        data: p.data,
    }
}

/// What a login puts on the bus.
///
/// Nothing, if the packet is no login or lacks the network id or the
/// password. The server's report of error 003, addressed to the callsign
/// of the requester, if the login was refused. Else the welcome text and
/// what follows it for the kind of client, all from the server, and then
/// from the sender the announcement that the client has joined.
pub open spec fn login_outcome(p: PacketView, sender: PeerAddrView, user: Option<UserRecordView>)
    -> Seq<BroadcastView> {
    if !is_login(p) {
        Seq::empty()
    } else if user is None {
        seq![answer(error_view(p.source, "003"@, Seq::empty(), "Invalid credentials"@))]
    } else {
        answer_all(
            welcome_packets(p.source) + login_followups(
                login_type(p.command)->Some_0,
                p.source,
                sender.ip,
            ),
        ).push(relay(sender, join_view(p)))
    }
}

/// The registry after a login.
///
/// Unchanged, if the packet is no login, lacks the network id or the
/// password, or was refused. Else the callsign points at the sender, and
/// the sender's session, if it is registered, is active and holds the
/// callsign, the kind of client, the network id, and the real name and
/// rating of the user record.
pub open spec fn login_effect(
    r: RegistryView,
    p: PacketView,
    sender: PeerAddrView,
    user: Option<UserRecordView>,
) -> RegistryView {
    if is_login(p) && user is Some {
        let t = login_type(p.command)->Some_0;
        RegistryView {
            clients: if r.clients.dom().contains(sender) {
                r.clients.insert(
                    sender,
                    activated(
                        r.clients[sender],
                        p.source,
                        t,
                        user->Some_0.real_name,
                        login_network_id(p)->Some_0,
                        login_rating(t, user->Some_0),
                    ),
                )
            } else {
                r.clients
            },
            callsigns: r.callsigns.insert(p.source, sender),
        }
    } else {
        r
    }
}

/// What a logoff puts on the bus: the announcement that the client has
/// left, which is the logoff itself as a client packet.
pub open spec fn logoff_outcome(p: PacketView, sender: PeerAddrView) -> Seq<BroadcastView> {
    seq![relay(sender, PacketView { packet_type: PacketType::Client, ..p })]
}

/// The user of an accepted login.
pub open spec fn accepted(verdict: Result<UserRecordView, AuthErrorView>) -> Option<
    UserRecordView,
> {
    match verdict {
        Ok(u) => Some(u),
        Err(_) => None,
    }
}

/// A login that names a network id which the user store does not know is
/// refused, however the check of the password ended. Exactly one message
/// goes on the bus, the server's report of error 003 addressed to the
/// callsign of the requester, and the requester's own connection is
/// handed it. The registry stays as it was, so that a session which was
/// identified is still identified and not active.
pub proof fn lemma_unknown_user_is_refused(
    r: RegistryView,
    p: PacketView,
    sender: PeerAddrView,
    check: PasswordCheck,
)
    requires
        is_login(p),
    ensures
        accepted(login_verdict(Ok(None), check)) is None,
        login_outcome(p, sender, accepted(login_verdict(Ok(None), check))) == seq![
            answer(error_view(p.source, "003"@, Seq::empty(), "Invalid credentials"@)),
        ],
        write_action_spec(
            sender,
            login_outcome(p, sender, accepted(login_verdict(Ok(None), check)))[0],
        ) == Some(
            Some(
                format_spec(
                    error_view(p.source, "003"@, Seq::empty(), "Invalid credentials"@),
                ),
            ),
        ),
        login_effect(r, p, sender, accepted(login_verdict(Ok(None), check))) == r,
{
}

/// Identification, login and logoff keep every callsign of the index
/// pointing at a registered connection, as long as the sender of a login
/// is registered.
pub proof fn lemma_handlers_keep_index_resolving(
    r: RegistryView,
    p: PacketView,
    sender: PeerAddrView,
    accepted_id: bool,
    user: Option<UserRecordView>,
)
    requires
        index_resolves(r),
    ensures
        index_resolves(identification_effect(r, p, sender, accepted_id)),
        r.clients.dom().contains(sender) ==> index_resolves(login_effect(r, p, sender, user)),
        index_resolves(
            RegistryView { clients: r.clients, callsigns: r.callsigns.remove(p.source) },
        ),
{
    lemma_index_keeps_resolving(r, sender, p.source, fresh_client(sender));
    if r.clients.dom().contains(sender) {
        lemma_index_keeps_resolving(
            r,
            sender,
            p.source,
            identified(r.clients[sender], p.source, field(p.data, 1), field(p.data, 4)),
        );
        if is_login(p) && user is Some {
            let t = login_type(p.command)->Some_0;
            let session = activated(
                r.clients[sender],
                p.source,
                t,
                user->Some_0.real_name,
                login_network_id(p)->Some_0,
                login_rating(t, user->Some_0),
            );
            let stored = RegistryView {
                clients: r.clients.insert(sender, session),
                callsigns: r.callsigns,
            };
            lemma_index_keeps_resolving(r, sender, p.source, session);
            lemma_index_keeps_resolving(stored, sender, p.source, session);
        }
    }
}

/// A session becomes active through an accepted login of its own
/// connection and in no other way: an identification never makes a
/// session active, and a login makes none active but the sender's, and
/// that only if it names its credentials and was accepted.
pub proof fn lemma_active_only_by_accepted_login(
    r: RegistryView,
    p: PacketView,
    sender: PeerAddrView,
    accepted_id: bool,
    user: Option<UserRecordView>,
    a: PeerAddrView,
)
    requires
        r.clients.dom().contains(a),
        r.clients[a].state != ClientState::Active,
    ensures
        identification_effect(r, p, sender, accepted_id).clients[a].state != ClientState::Active,
        login_effect(r, p, sender, user).clients[a].state == ClientState::Active ==> a == sender
            && is_login(p) && user is Some,
{
}

/// What the server answers to an identification or a login reaches the
/// connection that asked: the report of a refused identification, the
/// report of a refused login, and each packet of the welcome text and of
/// what follows it. Every message but the announcement that the client
/// has joined comes from the server.
pub proof fn lemma_answers_reach_the_requester(
    p: PacketView,
    sender: PeerAddrView,
    user: Option<UserRecordView>,
    i: int,
)
    requires
        is_login(p),
        0 <= i < login_outcome(p, sender, user).len(),
        user is Some ==> i < login_outcome(p, sender, user).len() - 1,
    ensures
        write_action_spec(sender, identification_outcome(p, sender, false)[0]) == Some(
            Some(
                format_spec(
                    error_view(
                        p.source,
                        "016"@,
                        Seq::empty(),
                        "Unauthorized client software"@,
                    ),
                ),
            ),
        ),
        user is None ==> write_action_spec(sender, login_outcome(p, sender, user)[0]) == Some(
            Some(
                format_spec(
                    error_view(p.source, "003"@, Seq::empty(), "Invalid credentials"@),
                ),
            ),
        ),
        login_outcome(p, sender, user)[i].origin == server_origin_view(),
        write_action_spec(sender, login_outcome(p, sender, user)[i]) is Some,
        all_from_or_server(identification_outcome(p, sender, false), sender),
        all_from_or_server(login_outcome(p, sender, user), sender),
{
}

/// The last thing that an accepted login puts on the bus is the
/// announcement that the client has joined, which comes from the sender.
/// Every other connection is handed it, the one that logged in is not;
/// the heartbeat is handed to both.
pub proof fn lemma_login_is_announced_to_others(
    p: PacketView,
    a: PeerAddrView,
    b: PeerAddrView,
    user: UserRecordView,
)
    requires
        is_login(p),
        a != b,
        a.port != 0,
    ensures
        login_outcome(p, a, Some(user)).last() == relay(a, join_view(p)),
        write_action_spec(b, login_outcome(p, a, Some(user)).last()) == Some(
            Some(format_spec(join_view(p))),
        ),
        write_action_spec(a, login_outcome(p, a, Some(user)).last()) is None,
        write_action_spec(a, heartbeat_view()) is Some,
        write_action_spec(b, heartbeat_view()) is Some,
{
}

/// A copy of the data field at `i`, if the packet has that many.
fn field_of(data: &Vec<String>, i: usize) -> (r: Option<String>)
    ensures
        crate::client::opt_view(r) == field(views(data@), i as int),
{
    if i < data.len() {
        Some(data[i].clone())
    } else {
        None
    }
}

/// The kind of client that a login command stands for.
fn login_type_of(command: &str) -> (t: Option<ClientType>)
    ensures
        t == login_type(command@),
{
    if same_text(command, "AA") {
        Some(ClientType::Atc)
    } else if same_text(command, "AP") {
        Some(ClientType::Pilot)
    } else {
        None
    }
}

/// The client software id that an identification names.
pub fn client_id(packet: &Packet) -> (id: String)
    ensures
        id@ == client_id_of(packet@),
{
    if packet.data.len() > 0 {
        packet.data[0].clone()
    } else {
        String::new()
    }
}

/// The network id and the password that a login names, if the packet is
/// a login and has both.
pub fn login_credentials(packet: &Packet) -> (r: Option<(String, String)>)
    ensures
        r is Some <==> is_login(packet@),
        r matches Some(c) ==> Some(c.0@) == login_network_id(packet@) && Some(c.1@)
            == login_password(packet@),
{
    let (network_id, password) = match login_type_of(packet.command.as_str()) {
        Some(ClientType::Atc) => (field_of(&packet.data, 1), field_of(&packet.data, 2)),
        Some(ClientType::Pilot) => (field_of(&packet.data, 0), field_of(&packet.data, 1)),
        _ => (None, None),
    };
    match (network_id, password) {
        (Some(id), Some(pw)) => Some((id, pw)),
        _ => None,
    }
}

/// Handles an identification (`ID`), given the verdict on the client
/// software id that it names.
pub fn handle_identification(
    packet: Packet,
    sender_addr: &PeerAddr,
    registry: &mut Registry,
    verdict: Result<(), AuthError>,
) -> (out: Vec<Broadcast>)
    ensures
        broadcasts(out@) == identification_outcome(packet@, sender_addr@, verdict is Ok),
        final(registry)@ == identification_effect(
            old(registry)@,
            packet@,
            sender_addr@,
            verdict is Ok,
        ),
{
    let mut out: Vec<Broadcast> = Vec::new();
    assert(broadcasts(out@) =~= Seq::<BroadcastView>::empty());
    match verdict {
        Ok(_) => {
            let client_string = field_of(&packet.data, 1);
            let network_id = field_of(&packet.data, 4);
            registry.identify(sender_addr, packet.source, client_string, network_id);
        },
        Err(_) => {
            let report = error_packet(
                packet.source,
                "016",
                String::new(),
                "Unauthorized client software",
            );
            reply(&mut out, report);
            assert(broadcasts(out@) =~= identification_outcome(packet@, sender_addr@, false));
        },
    }
    out
}

/// The lines of the welcome text.
fn welcome_text() -> (lines: Vec<String>)
    ensures
        views(lines@) == welcome_lines(),
{
    let mut lines: Vec<String> = Vec::new();
    lines.push(
        String::from_str("By using your VATSIM assigned identification number on this server you"),
    );
    lines.push(
        String::from_str("hereby agree to the terms of the VATSIM Code of Regulations and the"),
    );
    lines.push(
        String::from_str(
            "VATSIM User Agreement and the VATSIM Code of Conduct which may be viewed",
        ),
    );
    lines.push(String::from_str("at http://www.vatsim.net/network/docs/"));
    lines.push(String::from_str("All logins are tracked and identification numbers are recorded."));
    lines.push(
        String::from_str("Users must enter their real full first names and surnames when logging"),
    );
    lines.push(String::from_str("onto any of the VATSIM.net servers."));
    assert(views(lines@) =~= welcome_lines());
    lines
}

/// One line of text from the server to `callsign`.
pub(crate) fn server_text(callsign: String, line: String) -> (p: Packet)
    ensures
        p@ == server_text_view(callsign@, line@),
{
    let mut data: Vec<String> = Vec::new();
    data.push(line);
    assert(views(data@) =~= seq![line@]);
    Packet {
        packet_type: PacketType::Client,
        command: String::from_str("TM"),
        source: String::from_str("server"),
        destination: callsign,
        data,
    }
}

/// A request or response of the server to `callsign`, with one data field
/// or two.
fn server_info(command: &str, callsign: String, first: &str, second: Option<String>) -> (p: Packet)
    ensures
        p@ == server_info_view(
            command@,
            callsign@,
            match second {
                Some(s) => seq![first@, s@],
                None => seq![first@],
            },
        ),
{
    let mut data: Vec<String> = Vec::new();
    data.push(String::from_str(first));
    match second {
        Some(s) => {
            data.push(s);
            assert(views(data@) =~= seq![first@, s@]);
        },
        None => {
            assert(views(data@) =~= seq![first@]);
        },
    }
    Packet {
        packet_type: PacketType::Request,
        command: String::from_str(command),
        source: String::from_str("SERVER"),
        destination: callsign,
        data,
    }
}

/// Puts on the bus what follows the welcome text for a client of kind `t`.
fn emit_followups(
    out: &mut Vec<Broadcast>,
    sender_addr: &PeerAddr,
    t: ClientType,
    callsign: &String,
)
    ensures
        broadcasts(final(out)@) == broadcasts(old(out)@) + answer_all(
            login_followups(t, callsign@, sender_addr@.ip),
        ),
{
    let ghost before = broadcasts(out@);
    match t {
        ClientType::Atc => {
            reply(out, server_info("CQ", callsign.clone(), "CAPS", None));
            reply(
                out,
                server_info(
                    "CR",
                    callsign.clone(),
                    "CAPS:ATCINFO=1:SECPOS=1:MODELDESC=1:ONGOINGCOORD=1",
                    None,
                ),
            );
            reply(out, server_info("CR", callsign.clone(), "IP", Some(sender_addr.ip.clone())));
        },
        ClientType::Pilot => {
            reply(out, server_info("CQ", callsign.clone(), "CAPS", None));
            reply(out, server_info("CR", callsign.clone(), "IP", Some(sender_addr.ip.clone())));
            reply(out, error_packet(callsign.clone(), "008", callsign.clone(), "No flightplan"));
        },
        ClientType::Observer => {},
    }
    assert(broadcasts(out@) =~= before + answer_all(
        login_followups(t, callsign@, sender_addr@.ip),
    ));
}

/// Handles a login (`AA`, `AP`), given the verdict on the credentials
/// that it names: the user's record, or why the login was refused.
pub fn handle_login(
    packet: Packet,
    sender_addr: &PeerAddr,
    registry: &mut Registry,
    auth: Result<UserRecord, AuthError>,
) -> (out: Vec<Broadcast>)
    ensures
        broadcasts(out@) == login_outcome(packet@, sender_addr@, accepted(verdict_view(auth))),
        final(registry)@ == login_effect(
            old(registry)@,
            packet@,
            sender_addr@,
            accepted(verdict_view(auth)),
        ),
{
    let mut out: Vec<Broadcast> = Vec::new();
    assert(broadcasts(out@) =~= Seq::<BroadcastView>::empty());
    let client_type = match login_type_of(packet.command.as_str()) {
        Some(t) => t,
        None => {
            return out;
        },
    };
    let network_id = match login_credentials(&packet) {
        Some(c) => c.0,
        None => {
            return out;
        },
    };
    let user = match auth {
        Ok(u) => u,
        Err(_) => {
            reply(
                &mut out,
                error_packet(packet.source, "003", String::new(), "Invalid credentials"),
            );
            assert(broadcasts(out@) =~= login_outcome(packet@, sender_addr@, None));
            return out;
        },
    };
    let rating = match client_type {
        ClientType::Atc => user.atc_rating,
        ClientType::Pilot => user.pilot_rating,
        ClientType::Observer => 1,
    };
    let callsign = packet.source.clone();
    registry.activate(
        sender_addr,
        callsign.clone(),
        client_type,
        user.real_name,
        network_id,
        rating,
    );
    registry.index_callsign(callsign.clone(), sender_addr.clone());

    let lines = welcome_text();
    let ghost welcome = welcome_packets(callsign@);
    let mut i: usize = 0;
    assert(broadcasts(out@) =~= answer_all(welcome.take(0)));
    while i < lines.len()
        invariant
            i <= lines.len(),
            views(lines@) == welcome_lines(),
            welcome == welcome_packets(callsign@),
            broadcasts(out@) == answer_all(welcome.take(i as int)),
        decreases lines.len() - i,
    {
        assert(views(lines@)[i as int] == lines@[i as int]@);
        reply(&mut out, server_text(callsign.clone(), lines[i].clone()));
        assert(broadcasts(out@) =~= answer_all(welcome.take(i + 1)));
        i += 1;
    }
    assert(welcome.take(lines.len() as int) =~= welcome);
    emit_followups(&mut out, sender_addr, client_type, &callsign);
    let joined = Packet {
        packet_type: PacketType::Client,
        command: packet.command,
        source: callsign,
        destination: String::from_str("SERVER"),
        data: packet.data,
    };
    emit(&mut out, sender_addr, joined);
    assert(broadcasts(out@) =~= login_outcome(packet@, sender_addr@, accepted(verdict_view(auth))));
    out
}

/// Handles a logoff (`DA`, `DP`): the callsign of the packet leaves the
/// index, and the other clients are told. Whether the sender had logged
/// in is not looked at.
pub fn handle_logoff(packet: Packet, sender_addr: &PeerAddr, registry: &mut Registry) -> (out: Vec<
    Broadcast,
>)
    ensures
        broadcasts(out@) == logoff_outcome(packet@, sender_addr@),
        final(registry)@.clients == old(registry)@.clients,
        final(registry)@.callsigns == old(registry)@.callsigns.remove(packet@.source),
{
    registry.unindex_callsign(packet.source.as_str());
    let left = Packet {
        packet_type: PacketType::Client,
        command: packet.command,
        source: packet.source,
        destination: packet.destination,
        data: packet.data,
    };
    let mut out: Vec<Broadcast> = Vec::new();
    assert(broadcasts(out@) =~= Seq::<BroadcastView>::empty());
    emit(&mut out, sender_addr, left);
    assert(broadcasts(out@) =~= logoff_outcome(packet@, sender_addr@));
    out
}

} // verus!
