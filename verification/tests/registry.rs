use openfsd::client::{Client, ClientState, ClientType, PeerAddr};
use openfsd::server::registry::Registry;

fn peer(ip: &str, port: u16) -> PeerAddr {
    PeerAddr { ip: ip.to_string(), port }
}

#[test]
fn new_client_is_connected_and_empty() {
    let c = Client::new(peer("10.0.0.1", 4000));
    assert_eq!(c.addr, peer("10.0.0.1", 4000));
    assert_eq!(c.state, ClientState::Connected);
    assert_eq!(c.callsign, None);
    assert_eq!(c.callsign(), None);
    assert_eq!(c.client_type, None);
    assert_eq!(c.real_name, None);
    assert_eq!(c.network_id, None);
    assert_eq!(c.rating, None);
    assert_eq!(c.client_string, None);
    assert_eq!(c.latitude, None);
    assert_eq!(c.longitude, None);
    assert_eq!(c.altitude, None);
    assert!(!c.is_active());
}

#[test]
fn client_walks_through_its_states() {
    let mut c = Client::new(peer("10.0.0.1", 4000));
    c.identify("BAW1".to_string(), Some("EuroScope".to_string()), Some("123".to_string()));
    assert_eq!(c.state, ClientState::Identified);
    assert_eq!(c.callsign(), Some("BAW1"));
    assert_eq!(c.client_string.as_deref(), Some("EuroScope"));
    assert_eq!(c.network_id.as_deref(), Some("123"));
    assert!(!c.is_active());
    c.activate("BAW1".to_string(), ClientType::Pilot, "Jo".to_string(), "456".to_string(), 3);
    assert_eq!(c.state, ClientState::Active);
    assert!(c.is_active());
    assert_eq!(c.client_type, Some(ClientType::Pilot));
    assert_eq!(c.real_name.as_deref(), Some("Jo"));
    assert_eq!(c.network_id.as_deref(), Some("456"));
    assert_eq!(c.rating, Some(3));
    assert_eq!(c.client_string.as_deref(), Some("EuroScope"));
}

#[test]
fn peers_compare_by_address_and_port() {
    assert_eq!(peer("10.0.0.1", 1), peer("10.0.0.1", 1));
    assert_ne!(peer("10.0.0.1", 1), peer("10.0.0.1", 2));
    assert_ne!(peer("10.0.0.1", 1), peer("10.0.0.2", 1));
    assert!(peer("0.0.0.0", 0).is_server());
    assert!(peer("10.0.0.1", 0).is_server());
    assert!(!peer("0.0.0.0", 1).is_server());
    let a = peer("::1", 9);
    assert_eq!(a.clone(), a);
}

#[test]
fn register_adds_a_connected_session() {
    let mut r = Registry::new();
    assert_eq!(r.len(), 0);
    r.register(peer("10.0.0.1", 4000));
    r.register(peer("10.0.0.2", 4000));
    assert_eq!(r.len(), 2);
    assert!(r.contains(&peer("10.0.0.1", 4000)));
    assert!(!r.contains(&peer("10.0.0.1", 4001)));
    let c = r.get(&peer("10.0.0.2", 4000)).unwrap();
    assert_eq!(c.state, ClientState::Connected);
    assert_eq!(c.addr, peer("10.0.0.2", 4000));
    assert!(r.get(&peer("10.0.0.3", 4000)).is_none());
}

#[test]
fn register_twice_resets_the_session() {
    let mut r = Registry::new();
    let a = peer("10.0.0.1", 4000);
    r.register(a.clone());
    r.identify(&a, "BAW1".to_string(), None, None);
    assert_eq!(r.get(&a).unwrap().state, ClientState::Identified);
    r.register(a.clone());
    assert_eq!(r.len(), 1);
    assert_eq!(r.get(&a).unwrap().state, ClientState::Connected);
    assert_eq!(r.get(&a).unwrap().callsign, None);
}

#[test]
fn identify_and_activate_touch_only_their_session() {
    let mut r = Registry::new();
    let a = peer("10.0.0.1", 4000);
    let b = peer("10.0.0.2", 4000);
    r.register(a.clone());
    r.register(b.clone());
    r.identify(&a, "BAW1".to_string(), Some("vPilot".to_string()), None);
    assert_eq!(r.get(&a).unwrap().callsign(), Some("BAW1"));
    assert_eq!(r.get(&b).unwrap().state, ClientState::Connected);
    r.activate(&b, "EGLL_TWR".to_string(), ClientType::Atc, "Al".to_string(), "9".to_string(), 5);
    assert_eq!(r.get(&b).unwrap().state, ClientState::Active);
    assert_eq!(r.get(&b).unwrap().rating, Some(5));
    assert_eq!(r.get(&a).unwrap().state, ClientState::Identified);
    assert_eq!(r.len(), 2);
}

#[test]
fn mutating_a_vanished_session_is_a_no_op() {
    let mut r = Registry::new();
    let a = peer("10.0.0.1", 4000);
    let gone = peer("10.0.0.9", 4000);
    r.register(a.clone());
    r.identify(&gone, "X".to_string(), None, None);
    r.activate(&gone, "X".to_string(), ClientType::Pilot, "n".to_string(), "1".to_string(), 1);
    r.remove(&gone);
    assert_eq!(r.len(), 1);
    assert!(!r.contains(&gone));
    assert_eq!(r.get(&a).unwrap().state, ClientState::Connected);
}

#[test]
fn callsign_index_resolves_and_forgets() {
    let mut r = Registry::new();
    let a = peer("10.0.0.1", 4000);
    let b = peer("10.0.0.2", 4000);
    assert_eq!(r.resolve_callsign("BAW1"), None);
    r.index_callsign("BAW1".to_string(), a.clone());
    r.index_callsign("EGLL_TWR".to_string(), b.clone());
    assert_eq!(r.resolve_callsign("BAW1"), Some(a.clone()));
    assert_eq!(r.resolve_callsign("EGLL_TWR"), Some(b.clone()));
    r.index_callsign("BAW1".to_string(), b.clone());
    assert_eq!(r.resolve_callsign("BAW1"), Some(b.clone()));
    r.unindex_callsign("BAW1");
    assert_eq!(r.resolve_callsign("BAW1"), None);
    assert_eq!(r.resolve_callsign("EGLL_TWR"), Some(b));
    r.unindex_callsign("NOBODY");
    assert_eq!(r.resolve_callsign("NOBODY"), None);
}

#[test]
fn remove_takes_the_session_and_its_callsigns() {
    let mut r = Registry::new();
    let a = peer("10.0.0.1", 4000);
    let b = peer("10.0.0.2", 4000);
    r.register(a.clone());
    r.register(b.clone());
    r.index_callsign("BAW1".to_string(), a.clone());
    r.index_callsign("BAW2".to_string(), a.clone());
    r.index_callsign("EGLL_TWR".to_string(), b.clone());
    r.remove(&a);
    assert!(!r.contains(&a));
    assert!(r.contains(&b));
    assert_eq!(r.len(), 1);
    assert_eq!(r.resolve_callsign("BAW1"), None);
    assert_eq!(r.resolve_callsign("BAW2"), None);
    assert_eq!(r.resolve_callsign("EGLL_TWR"), Some(b));
}

#[test]
fn removing_a_connection_that_never_logged_in_spares_the_index() {
    let mut r = Registry::new();
    let a = peer("10.0.0.1", 4000);
    let b = peer("10.0.0.2", 4000);
    r.register(a.clone());
    r.register(b.clone());
    r.activate(&b, "BAW2".to_string(), ClientType::Pilot, "n".to_string(), "1".to_string(), 1);
    r.index_callsign("BAW2".to_string(), b.clone());
    r.remove(&a);
    r.remove(&a);
    assert!(!r.contains(&a));
    assert_eq!(r.len(), 1);
    assert_eq!(r.resolve_callsign("BAW2"), Some(b.clone()));
    assert_eq!(r.get(&b).unwrap().callsign(), Some("BAW2"));
    assert_eq!(r.get(&b).unwrap().state, ClientState::Active);
}

#[test]
fn find_by_callsign_looks_at_sessions_not_at_the_index() {
    let mut r = Registry::new();
    let a = peer("10.0.0.1", 4000);
    r.register(a.clone());
    r.index_callsign("BAW1".to_string(), a.clone());
    assert!(r.find_by_callsign("BAW1").is_none());
    r.identify(&a, "BAW1".to_string(), None, None);
    assert_eq!(r.find_by_callsign("BAW1").unwrap().addr, a);
    assert!(r.find_by_callsign("BAW2").is_none());
}
