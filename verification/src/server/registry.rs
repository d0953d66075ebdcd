//! The session registry: every live connection with its session, and an
//! index from callsign to connection.
//!
//! The registry is a plain value. Whoever shares it between tasks guards
//! it; each operation below is one step under that guard. An operation on
//! a connection that is not registered changes nothing.
//!
//! Sessions and index are kept as lists in which no key occurs twice.
//! Removing a connection walks the index for the callsigns that point at
//! it, and looking a client up by callsign walks the sessions.

use crate::assoc::{
    distinct_keys, has_key, lemma_entry, lemma_keys, lemma_push, lemma_remove, lemma_size,
    lemma_update, to_map,
};
use crate::client::{
    activated, coherent, fresh_client, identified, opt_view, Client, ClientType, ClientView,
    PeerAddr, PeerAddrView,
};
use crate::text::same_text;
use vstd::prelude::*;

verus! {

/// The registry of sessions.
pub struct Registry {
    clients: Vec<Client>,
    callsigns: Vec<(String, PeerAddr)>,
}

/// A registry as plain mathematical data: the session of each connection,
/// and the connection that each indexed callsign points at.
pub struct RegistryView {
    pub clients: Map<PeerAddrView, ClientView>,
    pub callsigns: Map<Seq<char>, PeerAddrView>,
}

/// The sessions as pairs of identity and session.
pub open spec fn client_entries(s: Seq<Client>) -> Seq<(PeerAddrView, ClientView)> {
    Seq::new(s.len(), |i: int| (s[i].addr@, s[i]@))
}

/// The callsign index as pairs of callsign and identity.
pub open spec fn callsign_entries(s: Seq<(String, PeerAddr)>) -> Seq<(Seq<char>, PeerAddrView)> {
    Seq::new(s.len(), |i: int| (s[i].0@, s[i].1@))
}

/// Every session of `s` holds what its state promises.
pub open spec fn all_coherent(s: Seq<Client>) -> bool {
    forall|i: int| 0 <= i < s.len() ==> coherent(#[trigger] s[i]@)
}

/// The callsign index without the entries that point at `addr`.
pub open spec fn without_target(
    index: Map<Seq<char>, PeerAddrView>,
    addr: PeerAddrView,
) -> Map<Seq<char>, PeerAddrView> {
    Map::new(|c: Seq<char>| index.dom().contains(c) && index[c] != addr, |c: Seq<char>| index[c])
}

/// Whether some session of `clients` has the callsign `callsign`.
pub open spec fn has_callsign(clients: Map<PeerAddrView, ClientView>, callsign: Seq<char>) -> bool {
    exists|a: PeerAddrView| #[trigger]
        clients.dom().contains(a) && clients[a].callsign == Some(callsign)
}

impl View for Registry {
    type V = RegistryView;

    closed spec fn view(&self) -> RegistryView {
        RegistryView {
            clients: to_map(client_entries(self.clients@)),
            callsigns: to_map(callsign_entries(self.callsigns@)),
        }
    }
}

/// The place of `addr` among the sessions, if it is there.
fn client_position(v: &Vec<Client>, addr: &PeerAddr) -> (r: Option<usize>)
    ensures
        match r {
            Some(i) => i < v.len() && v[i as int].addr@ == addr@,
            None => !has_key(client_entries(v@), addr@),
        },
{
    let mut i: usize = 0;
    while i < v.len()
        invariant
            i <= v.len(),
            forall|j: int| 0 <= j < i ==> v[j].addr@ != addr@,
        decreases v.len() - i,
    {
        if v[i].addr == *addr {
            return Some(i);
        }
        i += 1;
    }
    proof {
        if has_key(client_entries(v@), addr@) {
            let j = choose|j: int|
                0 <= j < client_entries(v@).len() && (#[trigger] client_entries(v@)[j]).0 == addr@;
            assert(v[j].addr@ == addr@);
        }
    }
    None
}

/// The place of `callsign` in the index, if it is there.
fn callsign_position(v: &Vec<(String, PeerAddr)>, callsign: &str) -> (r: Option<usize>)
    ensures
        match r {
            Some(i) => i < v.len() && v[i as int].0@ == callsign@,
            None => !has_key(callsign_entries(v@), callsign@),
        },
{
    let mut i: usize = 0;
    while i < v.len()
        invariant
            i <= v.len(),
            forall|j: int| 0 <= j < i ==> v[j].0@ != callsign@,
        decreases v.len() - i,
    {
        if same_text(v[i].0.as_str(), callsign) {
            return Some(i);
        }
        i += 1;
    }
    proof {
        if has_key(callsign_entries(v@), callsign@) {
            let j = choose|j: int|
                0 <= j < callsign_entries(v@).len() && (#[trigger] callsign_entries(v@)[j]).0
                    == callsign@;
            assert(v[j].0@ == callsign@);
        }
    }
    None
}

/// Stores `c` under its own identity, in place of a session that was there.
fn put_client(v: &mut Vec<Client>, c: Client)
    requires
        distinct_keys(client_entries(old(v)@)),
        all_coherent(old(v)@),
        coherent(c@),
    ensures
        distinct_keys(client_entries(final(v)@)),
        all_coherent(final(v)@),
        to_map(client_entries(final(v)@)) == to_map(client_entries(old(v)@)).insert(c.addr@, c@),
{
    let ghost before = client_entries(v@);
    match client_position(v, &c.addr) {
        Some(i) => {
            v.set(i, c);
            proof {
                lemma_update(before, i as int, c@);
                assert(client_entries(v@) =~= before.update(i as int, (before[i as int].0, c@)));
            }
        },
        None => {
            v.push(c);
            proof {
                lemma_push(before, c.addr@, c@);
                assert(client_entries(v@) =~= before.push((c.addr@, c@)));
            }
        },
    }
}

/// Points `callsign` at `addr`, in place of what it pointed at before.
fn put_callsign(v: &mut Vec<(String, PeerAddr)>, callsign: String, addr: PeerAddr)
    requires
        distinct_keys(callsign_entries(old(v)@)),
    ensures
        distinct_keys(callsign_entries(final(v)@)),
        to_map(callsign_entries(final(v)@)) == to_map(callsign_entries(old(v)@)).insert(
            callsign@,
            addr@,
        ),
{
    let ghost before = callsign_entries(v@);
    match callsign_position(v, callsign.as_str()) {
        Some(i) => {
            v.set(i, (callsign, addr));
            proof {
                lemma_update(before, i as int, addr@);
                assert(callsign_entries(v@) =~= before.update(
                    i as int,
                    (before[i as int].0, addr@),
                ));
            }
        },
        None => {
            v.push((callsign, addr));
            proof {
                lemma_push(before, callsign@, addr@);
                assert(callsign_entries(v@) =~= before.push((callsign@, addr@)));
            }
        },
    }
}

/// Takes `callsign` out of the index.
fn drop_callsign(v: &mut Vec<(String, PeerAddr)>, callsign: &str)
    requires
        distinct_keys(callsign_entries(old(v)@)),
    ensures
        distinct_keys(callsign_entries(final(v)@)),
        to_map(callsign_entries(final(v)@)) == to_map(callsign_entries(old(v)@)).remove(
            callsign@,
        ),
{
    let ghost before = callsign_entries(v@);
    match callsign_position(v, callsign) {
        Some(i) => {
            v.remove(i);
            proof {
                lemma_remove(before, i as int);
                assert(callsign_entries(v@) =~= before.remove(i as int));
            }
        },
        None => {
            proof {
                lemma_keys(before);
                assert(to_map(before).remove(callsign@) =~= to_map(before));
            }
        },
    }
}

/// Takes the session of `addr` out, if there is one.
fn drop_client(v: &mut Vec<Client>, addr: &PeerAddr)
    requires
        distinct_keys(client_entries(old(v)@)),
        all_coherent(old(v)@),
    ensures
        distinct_keys(client_entries(final(v)@)),
        all_coherent(final(v)@),
        to_map(client_entries(final(v)@)) == to_map(client_entries(old(v)@)).remove(addr@),
{
    let ghost before = client_entries(v@);
    match client_position(v, addr) {
        Some(i) => {
            v.remove(i);
            proof {
                lemma_remove(before, i as int);
                assert(client_entries(v@) =~= before.remove(i as int));
            }
        },
        None => {
            proof {
                lemma_keys(before);
                assert(to_map(before).remove(addr@) =~= to_map(before));
            }
        },
    }
}

/// Takes out of the index every callsign that points at `addr`.
fn drop_target(v: &mut Vec<(String, PeerAddr)>, addr: &PeerAddr)
    requires
        distinct_keys(callsign_entries(old(v)@)),
    ensures
        distinct_keys(callsign_entries(final(v)@)),
        to_map(callsign_entries(final(v)@)) == without_target(
            to_map(callsign_entries(old(v)@)),
            addr@,
        ),
{
    let ghost start = to_map(callsign_entries(v@));
    let mut i: usize = 0;
    while i < v.len()
        invariant
            i <= v.len(),
            distinct_keys(callsign_entries(v@)),
            forall|j: int| 0 <= j < i ==> v[j].1@ != addr@,
            forall|c: Seq<char>| #[trigger]
                to_map(callsign_entries(v@)).dom().contains(c) ==> start.dom().contains(c)
                    && start[c] == to_map(callsign_entries(v@))[c],
            forall|c: Seq<char>|
                start.dom().contains(c) && start[c] != addr@ ==> #[trigger] to_map(
                    callsign_entries(v@),
                ).dom().contains(c),
        decreases v.len() - i,
    {
        if v[i].1 == *addr {
            let ghost before = callsign_entries(v@);
            proof {
                lemma_entry(before, i as int);
                lemma_remove(before, i as int);
            }
            v.remove(i);
            assert(callsign_entries(v@) =~= before.remove(i as int));
        } else {
            i += 1;
        }
    }
    proof {
        let now = callsign_entries(v@);
        lemma_keys(now);
        assert forall|c: Seq<char>| #[trigger] to_map(now).dom().contains(c) implies to_map(now)[c]
            != addr@ by {
            let j = choose|j: int| 0 <= j < now.len() && (#[trigger] now[j]).0 == c;
            lemma_entry(now, j);
            assert(v[j].1@ != addr@);
        }
        assert(to_map(now) =~= without_target(start, addr@));
    }
}

impl Registry {
    #[verifier::type_invariant]
    spec fn inv(&self) -> bool {
        &&& distinct_keys(client_entries(self.clients@))
        &&& distinct_keys(callsign_entries(self.callsigns@))
        &&& all_coherent(self.clients@)
    }

    /// A registry without sessions.
    pub fn new() -> (r: Registry)
        ensures
            r@.clients == Map::<PeerAddrView, ClientView>::empty(),
            r@.callsigns == Map::<Seq<char>, PeerAddrView>::empty(),
    {
        Registry { clients: Vec::new(), callsigns: Vec::new() }
    }

    /// Hands out the sessions and leaves none behind, so that they can be
    /// changed and put back.
    fn take_clients(&mut self) -> (v: Vec<Client>)
        ensures
            v == old(self).clients,
            final(self).clients@.len() == 0,
            final(self).callsigns == old(self).callsigns,
    {
        proof {
            use_type_invariant(&*self);
        }
        let mut v: Vec<Client> = Vec::new();
        core::mem::swap(&mut self.clients, &mut v);
        v
    }

    /// Hands out the callsign index and leaves none behind, so that it can
    /// be changed and put back.
    fn take_callsigns(&mut self) -> (v: Vec<(String, PeerAddr)>)
        ensures
            v == old(self).callsigns,
            final(self).callsigns@.len() == 0,
            final(self).clients == old(self).clients,
    {
        proof {
            use_type_invariant(&*self);
        }
        let mut v: Vec<(String, PeerAddr)> = Vec::new();
        core::mem::swap(&mut self.callsigns, &mut v);
        v
    }

    /// The number of registered connections.
    pub fn len(&self) -> (n: usize)
        ensures
            self@.clients.dom().finite(),
            n == self@.clients.dom().len(),
    {
        proof {
            use_type_invariant(self);
            lemma_size(client_entries(self.clients@));
        }
        self.clients.len()
    }

    /// Whether `addr` is registered.
    pub fn contains(&self, addr: &PeerAddr) -> (r: bool)
        ensures
            r == self@.clients.dom().contains(addr@),
    {
        self.get(addr).is_some()
    }

    /// The session of `addr`, if it is registered.
    pub fn get(&self, addr: &PeerAddr) -> (r: Option<&Client>)
        ensures
            match r {
                Some(c) => self@.clients.dom().contains(addr@) && c@ == self@.clients[addr@]
                    && c@.addr == addr@ && coherent(c@),
                None => !self@.clients.dom().contains(addr@),
            },
    {
        proof {
            use_type_invariant(self);
            lemma_keys(client_entries(self.clients@));
        }
        match client_position(&self.clients, addr) {
            Some(i) => {
                proof {
                    lemma_entry(client_entries(self.clients@), i as int);
                }
                Some(&self.clients[i])
            },
            None => None,
        }
    }

    /// Some session whose callsign is `callsign`, if there is one. Where
    /// several sessions carry it, which of them is returned is left open.
    pub fn find_by_callsign(&self, callsign: &str) -> (r: Option<&Client>)
        ensures
            match r {
                Some(c) => self@.clients.dom().contains(c@.addr) && self@.clients[c@.addr] == c@
                    && c@.callsign == Some(callsign@) && coherent(c@),
                None => !has_callsign(self@.clients, callsign@),
            },
    {
        proof {
            use_type_invariant(self);
            lemma_keys(client_entries(self.clients@));
        }
        let mut i: usize = 0;
        while i < self.clients.len()
            invariant
                i <= self.clients.len(),
                forall|j: int| 0 <= j < i ==> self.clients[j]@.callsign != Some(callsign@),
            decreases self.clients.len() - i,
        {
            let found = match &self.clients[i].callsign {
                Some(s) => same_text(s.as_str(), callsign),
                None => false,
            };
            if found {
                proof {
                    use_type_invariant(self);
                    lemma_entry(client_entries(self.clients@), i as int);
                }
                return Some(&self.clients[i]);
            }
            i += 1;
        }
        proof {
            use_type_invariant(self);
            let entries = client_entries(self.clients@);
            lemma_keys(entries);
            if has_callsign(self@.clients, callsign@) {
                let a = choose|a: PeerAddrView| #[trigger]
                    self@.clients.dom().contains(a) && self@.clients[a].callsign == Some(
                        callsign@,
                    );
                let j = choose|j: int| 0 <= j < entries.len() && (#[trigger] entries[j]).0 == a;
                lemma_entry(entries, j);
                assert(self.clients[j]@.callsign == Some(callsign@));
            }
        }
        None
    }

    /// Registers `addr` with a fresh session. A session that was there
    /// under the same identity is replaced.
    pub fn register(&mut self, addr: PeerAddr)
        ensures
            final(self)@.clients == old(self)@.clients.insert(addr@, fresh_client(addr@)),
            final(self)@.callsigns == old(self)@.callsigns,
    {
        proof {
            use_type_invariant(&*self);
        }
        let mut v = self.take_clients();
        put_client(&mut v, Client::new(addr));
        self.clients = v;
    }

    /// Applies an identification to the session of `addr`.
    pub fn identify(
        &mut self,
        addr: &PeerAddr,
        callsign: String,
        client_string: Option<String>,
        network_id: Option<String>,
    )
        ensures
            final(self)@.callsigns == old(self)@.callsigns,
            old(self)@.clients.dom().contains(addr@) ==> final(self)@.clients
                == old(self)@.clients.insert(
                addr@,
                identified(
                    old(self)@.clients[addr@],
                    callsign@,
                    opt_view(client_string),
                    opt_view(network_id),
                ),
            ),
            !old(self)@.clients.dom().contains(addr@) ==> final(self)@.clients
                == old(self)@.clients,
    {
        proof {
            use_type_invariant(&*self);
            lemma_keys(client_entries(self.clients@));
        }
        let mut v = self.take_clients();
        let ghost before = client_entries(v@);
        match client_position(&v, addr) {
            Some(i) => {
                let c = &mut v[i];
                c.identify(callsign, client_string, network_id);
                proof {
                    lemma_entry(before, i as int);
                    lemma_update(before, i as int, v[i as int]@);
                    assert(client_entries(v@) =~= before.update(
                        i as int,
                        (before[i as int].0, v[i as int]@),
                    ));
                }
            },
            None => {},
        }
        self.clients = v;
    }

    /// Applies an accepted login to the session of `addr`.
    pub fn activate(
        &mut self,
        addr: &PeerAddr,
        callsign: String,
        client_type: ClientType,
        real_name: String,
        network_id: String,
        rating: i32,
    )
        ensures
            final(self)@.callsigns == old(self)@.callsigns,
            old(self)@.clients.dom().contains(addr@) ==> final(self)@.clients
                == old(self)@.clients.insert(
                addr@,
                activated(
                    old(self)@.clients[addr@],
                    callsign@,
                    client_type,
                    real_name@,
                    network_id@,
                    rating,
                ),
            ),
            !old(self)@.clients.dom().contains(addr@) ==> final(self)@.clients
                == old(self)@.clients,
    {
        proof {
            use_type_invariant(&*self);
            lemma_keys(client_entries(self.clients@));
        }
        let mut v = self.take_clients();
        let ghost before = client_entries(v@);
        match client_position(&v, addr) {
            Some(i) => {
                let c = &mut v[i];
                c.activate(callsign, client_type, real_name, network_id, rating);
                proof {
                    lemma_entry(before, i as int);
                    lemma_update(before, i as int, v[i as int]@);
                    assert(client_entries(v@) =~= before.update(
                        i as int,
                        (before[i as int].0, v[i as int]@),
                    ));
                }
            },
            None => {},
        }
        self.clients = v;
    }

    /// Points `callsign` at `addr` in the index, in place of what it
    /// pointed at before.
    pub fn index_callsign(&mut self, callsign: String, addr: PeerAddr)
        ensures
            final(self)@.callsigns == old(self)@.callsigns.insert(callsign@, addr@),
            final(self)@.clients == old(self)@.clients,
    {
        proof {
            use_type_invariant(&*self);
        }
        let mut v = self.take_callsigns();
        put_callsign(&mut v, callsign, addr);
        self.callsigns = v;
    }

    /// The connection that `callsign` points at, if it is indexed.
    pub fn resolve_callsign(&self, callsign: &str) -> (r: Option<PeerAddr>)
        ensures
            match r {
                Some(a) => self@.callsigns.dom().contains(callsign@) && self@.callsigns[callsign@]
                    == a@,
                None => !self@.callsigns.dom().contains(callsign@),
            },
    {
        proof {
            use_type_invariant(self);
            lemma_keys(callsign_entries(self.callsigns@));
        }
        match callsign_position(&self.callsigns, callsign) {
            Some(i) => {
                proof {
                    lemma_entry(callsign_entries(self.callsigns@), i as int);
                }
                Some(self.callsigns[i].1.clone())
            },
            None => None,
        }
    }

    /// Takes `callsign` out of the index.
    pub fn unindex_callsign(&mut self, callsign: &str)
        ensures
            final(self)@.callsigns == old(self)@.callsigns.remove(callsign@),
            final(self)@.clients == old(self)@.clients,
    {
        proof {
            use_type_invariant(&*self);
        }
        let mut v = self.take_callsigns();
        drop_callsign(&mut v, callsign);
        self.callsigns = v;
    }

    /// Takes the session of `addr` out of the registry, and with it every
    /// callsign that points at `addr`. Nothing else changes, and nothing
    /// at all if `addr` is not registered and no callsign points at it.
    pub fn remove(&mut self, addr: &PeerAddr)
        ensures
            final(self)@.clients == old(self)@.clients.remove(addr@),
            final(self)@.callsigns == without_target(old(self)@.callsigns, addr@),
    {
        proof {
            use_type_invariant(&*self);
        }
        let mut v = self.take_clients();
        drop_client(&mut v, addr);
        self.clients = v;
        let mut w = self.take_callsigns();
        drop_target(&mut w, addr);
        self.callsigns = w;
    }
}

/// Whether every callsign of the index points at a registered connection.
pub open spec fn index_resolves(r: RegistryView) -> bool {
    forall|c: Seq<char>| #[trigger]
        r.callsigns.dom().contains(c) ==> r.clients.dom().contains(r.callsigns[c])
}

/// Every callsign of the index keeps pointing at a registered connection
/// through each operation of the registry: storing a session, taking a
/// callsign out, removing a connection, and pointing a callsign at a
/// connection that is registered.
pub proof fn lemma_index_keeps_resolving(
    r: RegistryView,
    addr: PeerAddrView,
    callsign: Seq<char>,
    session: ClientView,
)
    requires
        index_resolves(r),
    ensures
        index_resolves(
            RegistryView { clients: r.clients.insert(addr, session), callsigns: r.callsigns },
        ),
        index_resolves(
            RegistryView { clients: r.clients, callsigns: r.callsigns.remove(callsign) },
        ),
        index_resolves(
            RegistryView {
                clients: r.clients.remove(addr),
                callsigns: without_target(r.callsigns, addr),
            },
        ),
        r.clients.dom().contains(addr) ==> index_resolves(
            RegistryView { clients: r.clients, callsigns: r.callsigns.insert(callsign, addr) },
        ),
{
    let stored = RegistryView { clients: r.clients.insert(addr, session), callsigns: r.callsigns };
    assert forall|c: Seq<char>| #[trigger] stored.callsigns.dom().contains(c) implies
        stored.clients.dom().contains(stored.callsigns[c]) by {
        assert(r.callsigns.dom().contains(c));
    }
    let unindexed = RegistryView { clients: r.clients, callsigns: r.callsigns.remove(callsign) };
    assert forall|c: Seq<char>| #[trigger] unindexed.callsigns.dom().contains(c) implies
        unindexed.clients.dom().contains(unindexed.callsigns[c]) by {
        assert(r.callsigns.dom().contains(c));
    }
    let removed = RegistryView {
        clients: r.clients.remove(addr),
        callsigns: without_target(r.callsigns, addr),
    };
    assert forall|c: Seq<char>| #[trigger] removed.callsigns.dom().contains(c) implies
        removed.clients.dom().contains(removed.callsigns[c]) by {
        assert(r.callsigns.dom().contains(c));
    }
    if r.clients.dom().contains(addr) {
        let indexed = RegistryView {
            clients: r.clients,
            callsigns: r.callsigns.insert(callsign, addr),
        };
        assert forall|c: Seq<char>| #[trigger] indexed.callsigns.dom().contains(c) implies
            indexed.clients.dom().contains(indexed.callsigns[c]) by {
            if c != callsign {
                assert(r.callsigns.dom().contains(c));
            }
        }
    }
}

/// Removing a connection leaves every other session as it was, and
/// leaves the index as it was for every callsign that points elsewhere.
/// If no callsign pointed at the connection, the index does not change.
pub proof fn lemma_remove_spares_others(
    index: Map<Seq<char>, PeerAddrView>,
    addr: PeerAddrView,
)
    ensures
        forall|c: Seq<char>|
            index.dom().contains(c) && index[c] != addr ==> #[trigger] without_target(
                index,
                addr,
            ).dom().contains(c) && without_target(index, addr)[c] == index[c],
        forall|c: Seq<char>| #[trigger]
            without_target(index, addr).dom().contains(c) ==> index.dom().contains(c) && index[c]
                != addr,
        (forall|c: Seq<char>| #[trigger] index.dom().contains(c) ==> index[c] != addr)
            ==> without_target(index, addr) == index,
{
    if forall|c: Seq<char>| #[trigger] index.dom().contains(c) ==> index[c] != addr {
        assert(without_target(index, addr) =~= index);
    }
}

} // verus!
