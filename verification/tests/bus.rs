use openfsd::client::PeerAddr;
use openfsd::packet::{Packet, PacketType};
use openfsd::server::bus::{
    heartbeat, on_broadcast, on_writer_event, server_origin, Broadcast, WriteAction, WriterEvent,
    BUS_CAPACITY, HEARTBEAT_SECONDS, REQUEST_QUEUE_CAPACITY,
};
use openfsd::server::ServerMessage;

fn peer(ip: &str, port: u16) -> PeerAddr {
    PeerAddr { ip: ip.to_string(), port }
}

fn text_message() -> Packet {
    Packet {
        packet_type: PacketType::Client,
        command: "TM".to_string(),
        source: "A".to_string(),
        destination: "B".to_string(),
        data: vec!["hi".to_string()],
    }
}

#[test]
fn packets_reach_the_others_and_not_the_sender() {
    let a = peer("10.0.0.1", 4000);
    let b = peer("10.0.0.2", 4000);
    let message = ServerMessage::Packet(text_message());
    match on_broadcast(&b, &a, &message) {
        WriteAction::Write(line) => assert_eq!(line, "#TMA:B:hi\r\n"),
        other => panic!("{:?}", other),
    }
    assert!(matches!(on_broadcast(&a, &a, &message), WriteAction::Skip));
}

#[test]
fn same_address_with_another_port_is_another_connection() {
    let a = peer("10.0.0.1", 4000);
    let b = peer("10.0.0.1", 4001);
    let message = ServerMessage::Packet(text_message());
    assert!(matches!(on_broadcast(&b, &a, &message), WriteAction::Write(_)));
}

#[test]
fn heartbeat_reaches_everybody() {
    let beat = heartbeat();
    assert_eq!(beat.origin, server_origin());
    assert_eq!(beat.origin.port, 0);
    assert_eq!(beat.origin.ip, "0.0.0.0");
    for subscriber in [peer("10.0.0.1", 4000), peer("10.0.0.2", 4000), peer("0.0.0.0", 0)] {
        match on_broadcast(&subscriber, &beat.origin, &beat.message) {
            WriteAction::Write(line) => assert_eq!(line, "#DLSERVER:*:0:0\r\n"),
            other => panic!("{:?}", other),
        }
    }
}

#[test]
fn disconnect_ends_the_connection_it_names_and_no_other() {
    let a = peer("10.0.0.1", 4000);
    let b = peer("10.0.0.2", 4000);
    assert!(matches!(on_broadcast(&a, &a, &ServerMessage::Disconnect), WriteAction::Stop));
    assert!(matches!(on_broadcast(&b, &a, &ServerMessage::Disconnect), WriteAction::Skip));
}

#[test]
fn disconnect_from_the_server_ends_everybody() {
    let a = peer("10.0.0.1", 4000);
    assert!(matches!(
        on_broadcast(&a, &server_origin(), &ServerMessage::Disconnect),
        WriteAction::Stop
    ));
}

#[test]
fn broadcast_clone_keeps_origin_and_message() {
    let b = Broadcast { origin: peer("10.0.0.1", 7), message: ServerMessage::Packet(text_message()) };
    let c = b.clone();
    assert_eq!(c.origin, b.origin);
    match c.message {
        ServerMessage::Packet(p) => assert_eq!(p.format(), "#TMA:B:hi\r\n"),
        ServerMessage::Disconnect => panic!("not a packet"),
    }
    assert!(matches!(ServerMessage::Disconnect.clone(), ServerMessage::Disconnect));
}

#[test]
fn queue_sizes_and_heartbeat_period() {
    assert_eq!(BUS_CAPACITY, 1000);
    assert_eq!(REQUEST_QUEUE_CAPACITY, 1000);
    assert_eq!(HEARTBEAT_SECONDS, 30);
}

#[test]
fn writer_survives_a_lag_and_stops_on_failure() {
    let a = peer("10.0.0.1", 4000);
    assert!(matches!(on_writer_event(&a, &WriterEvent::Lagged(17)), WriteAction::Skip));
    assert!(matches!(on_writer_event(&a, &WriterEvent::Closed), WriteAction::Stop));
    assert!(matches!(on_writer_event(&a, &WriterEvent::WriteFailed), WriteAction::Stop));
}

#[test]
fn writer_applies_the_delivery_rule_to_messages() {
    let a = peer("10.0.0.1", 4000);
    let b = peer("10.0.0.2", 4000);
    let from_a = |message| WriterEvent::Message(Broadcast { origin: a.clone(), message });
    match on_writer_event(&b, &from_a(ServerMessage::Packet(text_message()))) {
        WriteAction::Write(line) => assert_eq!(line, "#TMA:B:hi\r\n"),
        other => panic!("{:?}", other),
    }
    assert!(matches!(
        on_writer_event(&a, &from_a(ServerMessage::Packet(text_message()))),
        WriteAction::Skip
    ));
    assert!(matches!(on_writer_event(&a, &from_a(ServerMessage::Disconnect)), WriteAction::Stop));
    assert!(matches!(on_writer_event(&b, &from_a(ServerMessage::Disconnect)), WriteAction::Skip));
    assert!(matches!(
        on_writer_event(&a, &WriterEvent::Message(heartbeat())),
        WriteAction::Write(_)
    ));
}
