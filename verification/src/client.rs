//! Sessions: the protocol state kept for each live connection.

use vstd::prelude::*;

verus! {

/// The identity of a connection: the address of the remote end of its
/// socket, which does not change while the socket lives.
///
/// `ip` is the address in its usual text form. Port 0 is never that of a
/// real peer: it marks what the server itself sends to everybody.
#[derive(Debug)]
pub struct PeerAddr {
    pub ip: String,
    pub port: u16,
}

/// A connection identity as plain mathematical data.
pub struct PeerAddrView {
    pub ip: Seq<char>,
    pub port: u16,
}

impl View for PeerAddr {
    type V = PeerAddrView;

    open spec fn view(&self) -> PeerAddrView {
        PeerAddrView { ip: self.ip@, port: self.port }
    }
}

impl Clone for PeerAddr {
    fn clone(&self) -> (r: Self)
        ensures
            r@ == self@,
    {
        PeerAddr { ip: self.ip.clone(), port: self.port }
    }
}

impl PartialEq for PeerAddr {
    fn eq(&self, other: &Self) -> (r: bool) {
        self.port == other.port && self.ip == other.ip
    }
}

impl Eq for PeerAddr {

}

impl vstd::std_specs::cmp::PartialEqSpecImpl for PeerAddr {
    open spec fn obeys_eq_spec() -> bool {
        true
    }

    open spec fn eq_spec(&self, other: &Self) -> bool {
        self@ == other@
    }
}

impl PeerAddr {
    /// Whether this identity is the one reserved for the server.
    pub fn is_server(&self) -> (r: bool)
        ensures
            r == (self@.port == 0),
    {
        self.port == 0
    }
}

/// Where a session stands in its life.
#[derive(Debug, Clone, Copy, PartialEq, Eq, Structural)]
pub enum ClientState {
    /// Just connected, waiting for identification.
    Connected,
    /// Identified but not logged in.
    Identified,
    /// Logged in and active.
    Active,
    /// Disconnected.
    Disconnected,
}

/// What kind of client a session belongs to.
#[derive(Debug, Clone, Copy, PartialEq, Eq, Structural)]
pub enum ClientType {
    Pilot,
    Atc,
    Observer,
}

/// The state of one connected client.
///
/// Latitude and longitude are in millionths of a degree.
#[derive(Debug)]
pub struct Client {
    pub callsign: Option<String>,
    pub addr: PeerAddr,
    pub state: ClientState,
    pub client_type: Option<ClientType>,
    pub real_name: Option<String>,
    pub network_id: Option<String>,
    pub rating: Option<i32>,
    pub client_string: Option<String>,
    pub latitude: Option<i64>,
    pub longitude: Option<i64>,
    pub altitude: Option<i32>,
}

/// A session as plain mathematical data.
pub struct ClientView {
    pub callsign: Option<Seq<char>>,
    pub addr: PeerAddrView,
    pub state: ClientState,
    pub client_type: Option<ClientType>,
    pub real_name: Option<Seq<char>>,
    pub network_id: Option<Seq<char>>,
    pub rating: Option<i32>,
    pub client_string: Option<Seq<char>>,
    pub latitude: Option<i64>,
    pub longitude: Option<i64>,
    pub altitude: Option<i32>,
}

/// The view of an optional string.
pub open spec fn opt_view(s: Option<String>) -> Option<Seq<char>> {
    match s {
        Some(t) => Some(t@),
        None => None,
    }
}

impl View for Client {
    type V = ClientView;

    open spec fn view(&self) -> ClientView {
        ClientView {
            callsign: opt_view(self.callsign),
            addr: self.addr@,
            state: self.state,
            client_type: self.client_type,
            real_name: opt_view(self.real_name),
            network_id: opt_view(self.network_id),
            rating: self.rating,
            client_string: opt_view(self.client_string),
            latitude: self.latitude,
            longitude: self.longitude,
            altitude: self.altitude,
        }
    }
}

/// The session of a connection that has just been accepted.
pub open spec fn fresh_client(addr: PeerAddrView) -> ClientView {
    ClientView {
        callsign: None,
        addr,
        state: ClientState::Connected,
        client_type: None,
        real_name: None,
        network_id: None,
        rating: None,
        client_string: None,
        latitude: None,
        longitude: None,
        altitude: None,
    }
}

/// The session after its client has identified itself.
pub open spec fn identified(
    c: ClientView,
    callsign: Seq<char>,
    client_string: Option<Seq<char>>,
    network_id: Option<Seq<char>>,
) -> ClientView {
    ClientView {
        callsign: Some(callsign),
        client_string,
        network_id,
        state: ClientState::Identified,
        ..c
    }
}

/// The session after a login has been accepted.
pub open spec fn activated(
    c: ClientView,
    callsign: Seq<char>,
    client_type: ClientType,
    real_name: Seq<char>,
    network_id: Seq<char>,
    rating: i32,
) -> ClientView {
    ClientView {
        callsign: Some(callsign),
        client_type: Some(client_type),
        state: ClientState::Active,
        real_name: Some(real_name),
        network_id: Some(network_id),
        rating: Some(rating),
        ..c
    }
}

/// Whether a session holds what its state promises: a callsign once it is
/// identified, and the results of the login once it is active.
pub open spec fn coherent(c: ClientView) -> bool {
    &&& c.state == ClientState::Identified ==> c.callsign is Some
    &&& c.state == ClientState::Active ==> c.callsign is Some && c.client_type is Some
        && c.real_name is Some && c.network_id is Some && c.rating is Some
}

/// A session stays coherent through identification and login.
pub proof fn lemma_transitions_keep_coherence(
    c: ClientView,
    callsign: Seq<char>,
    client_string: Option<Seq<char>>,
    network_id: Option<Seq<char>>,
    client_type: ClientType,
    real_name: Seq<char>,
    login_id: Seq<char>,
    rating: i32,
)
    ensures
        coherent(fresh_client(c.addr)),
        coherent(identified(c, callsign, client_string, network_id)),
        coherent(activated(c, callsign, client_type, real_name, login_id, rating)),
        activated(c, callsign, client_type, real_name, login_id, rating).state
            == ClientState::Active,
{
}

impl Client {
    /// The session of a connection that has just been accepted.
    pub fn new(addr: PeerAddr) -> (c: Client)
        ensures
            c@ == fresh_client(addr@),
    {
        Client {
            callsign: None,
            addr,
            state: ClientState::Connected,
            client_type: None,
            real_name: None,
            network_id: None,
            rating: None,
            client_string: None,
            latitude: None,
            longitude: None,
            altitude: None,
        }
    }

    /// Whether the client has logged in.
    pub fn is_active(&self) -> (r: bool)
        ensures
            r == (self@.state == ClientState::Active),
    {
        self.state == ClientState::Active
    }

    /// The callsign, once the client has given one.
    pub fn callsign(&self) -> (r: Option<&str>)
        ensures
            match r {
                Some(s) => self@.callsign == Some(s@),
                None => self@.callsign is None,
            },
    {
        match &self.callsign {
            Some(s) => Some(s.as_str()),
            None => None,
        }
    }

    /// Records what the client said of itself and marks it identified.
    pub fn identify(
        &mut self,
        callsign: String,
        client_string: Option<String>,
        network_id: Option<String>,
    )
        ensures
            final(self)@ == identified(
                old(self)@,
                callsign@,
                opt_view(client_string),
                opt_view(network_id),
            ),
    {
        self.callsign = Some(callsign);
        self.client_string = client_string;
        self.network_id = network_id;
        self.state = ClientState::Identified;
    }

    /// Records the outcome of an accepted login and marks the client active.
    pub fn activate(
        &mut self,
        callsign: String,
        client_type: ClientType,
        real_name: String,
        network_id: String,
        rating: i32,
    )
        ensures
            final(self)@ == activated(
                old(self)@,
                callsign@,
                client_type,
                real_name@,
                network_id@,
                rating,
            ),
    {
        self.callsign = Some(callsign);
        self.client_type = Some(client_type);
        self.state = ClientState::Active;
        self.real_name = Some(real_name);
        self.network_id = Some(network_id);
        self.rating = Some(rating);
    }
}

} // verus!
