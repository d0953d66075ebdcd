use openfsd::packet::{type_of_prefix, prefix_of, Packet, PacketError, PacketType};

fn strings(items: &[&str]) -> Vec<String> {
    items.iter().map(|s| s.to_string()).collect()
}

#[test]
fn test_parse_server_identification() {
    let raw = "$DISERVER:CLIENT:VATSIM FSD V3.13:ABCD1234567890ABCD1234\r\n";
    let packet = Packet::parse(raw).unwrap();

    assert_eq!(packet.packet_type, PacketType::Request);
    assert_eq!(packet.command, "DI");
    assert_eq!(packet.destination, "SERVER");
    assert_eq!(packet.source, "CLIENT");
    assert_eq!(packet.data.len(), 2);
    assert_eq!(packet.data[0], "VATSIM FSD V3.13");
}

#[test]
fn test_parse_client_identification() {
    let raw = "$IDUAX123:SERVER:69d7:EuroScope 3.2:3:2:1234567:987654321\r\n";
    let packet = Packet::parse(raw).unwrap();

    assert_eq!(packet.command, "ID");
    assert_eq!(packet.source, "UAX123");
    assert_eq!(packet.data[0], "69d7");
}

#[test]
fn test_parse_text_message() {
    let raw = "#TMUAX123:BAW456:Hello there\r\n";
    let packet = Packet::parse(raw).unwrap();

    assert_eq!(packet.packet_type, PacketType::Client);
    assert_eq!(packet.command, "TM");
    assert_eq!(packet.source, "UAX123");
    assert_eq!(packet.destination, "BAW456");
    assert_eq!(packet.data[0], "Hello there");
}

#[test]
fn test_parse_position_update() {
    let raw = "@NUAX123:1200:1:45.5:-73.5:35000:450:123456789:50\r\n";
    let packet = Packet::parse(raw).unwrap();

    assert_eq!(packet.packet_type, PacketType::PilotUpdate);
    assert_eq!(packet.command, "N");
    assert_eq!(packet.destination, "UAX123");
}

#[test]
fn test_format_packet() {
    let packet = Packet {
        packet_type: PacketType::Request,
        command: "DI".to_string(),
        destination: "SERVER".to_string(),
        source: "CLIENT".to_string(),
        data: vec!["VATSIM FSD V3.13".to_string(), "TOKEN123".to_string()],
    };

    let formatted = packet.format();
    assert!(formatted.starts_with("$DISERVER:CLIENT:"));
    assert!(formatted.ends_with("\r\n"));
}

#[test]
fn parse_server_identification_with_token() {
    let packet = Packet::parse("$DISERVER:CLIENT:VATSIM FSD V3.13:TOKEN\r\n").unwrap();
    assert_eq!(packet.command, "DI");
    assert_eq!(packet.destination, "SERVER");
    assert_eq!(packet.source, "CLIENT");
    assert_eq!(packet.data, strings(&["VATSIM FSD V3.13", "TOKEN"]));
}

#[test]
fn parse_text_message_has_one_data_field() {
    let packet = Packet::parse("#TMUAX123:BAW456:Hello there\r\n").unwrap();
    assert_eq!(packet.data, strings(&["Hello there"]));
}

#[test]
fn parse_position_update_leaves_source_empty() {
    let packet =
        Packet::parse("@NUAX123:1200:1:45.5:-73.5:35000:450:123456789:50\r\n").unwrap();
    assert_eq!(packet.source, "");
    assert_eq!(
        packet.data,
        strings(&["1", "45.5", "-73.5", "35000", "450", "123456789", "50"])
    );
}

#[test]
fn parse_atc_update_keeps_only_the_subject() {
    let packet = Packet::parse("%EGLL_TWR:18500:3:100:5:51.47:-0.45\n").unwrap();
    assert_eq!(packet.packet_type, PacketType::AtcUpdate);
    assert_eq!(packet.command, "EG");
    assert_eq!(packet.destination, "LL_TWR");
    assert_eq!(packet.source, "");
    assert_eq!(packet.data, strings(&["3", "100", "5", "51.47", "-0.45"]));
}

#[test]
fn parse_rejects_empty_input() {
    for raw in ["", "\r\n", "   ", "\r\n\r\n", " \t\r\n"] {
        match Packet::parse(raw) {
            Err(PacketError::InvalidFormat(m)) => assert_eq!(m, "Empty packet"),
            other => panic!("{:?}", other),
        }
    }
}

#[test]
fn parse_rejects_unknown_prefix() {
    match Packet::parse("XIDUAX123:SERVER\r\n") {
        Err(PacketError::InvalidFormat(m)) => assert_eq!(m, "Unknown prefix: X"),
        other => panic!("{:?}", other),
    }
}

#[test]
fn parse_rejects_line_without_colon() {
    match Packet::parse("$IDUAX123\r\n") {
        Err(PacketError::InvalidFormat(m)) => assert_eq!(m, "No colon found"),
        other => panic!("{:?}", other),
    }
    match Packet::parse("$") {
        Err(PacketError::InvalidFormat(m)) => assert_eq!(m, "No colon found"),
        other => panic!("{:?}", other),
    }
}

#[test]
fn parse_knows_every_prefix() {
    let table = [
        ('$', PacketType::Request),
        ('#', PacketType::Client),
        ('%', PacketType::AtcUpdate),
        ('@', PacketType::PilotUpdate),
        ('!', PacketType::IvaoSpecific),
        ('&', PacketType::IvaoData),
        ('-', PacketType::IvaoOther),
    ];
    for (c, t) in table {
        let packet = Packet::parse(&format!("{}TMA:B", c)).unwrap();
        assert_eq!(packet.packet_type, t);
        assert_eq!(type_of_prefix(c), Some(t));
        assert_eq!(prefix_of(t), c);
    }
    assert_eq!(type_of_prefix('^'), None);
}

#[test]
fn parse_ignores_surrounding_white_space() {
    let packet = Packet::parse("  \t#TMA:B:hi  \r\n\r\n").unwrap();
    assert_eq!(packet.packet_type, PacketType::Client);
    assert_eq!(packet.source, "A");
    assert_eq!(packet.destination, "B");
    assert_eq!(packet.data, strings(&["hi"]));
}

#[test]
fn parse_without_second_colon_has_no_data() {
    let packet = Packet::parse("$CQA:B\r\n").unwrap();
    assert_eq!(packet.source, "A");
    assert_eq!(packet.destination, "B");
    assert!(packet.data.is_empty());
}

#[test]
fn parse_keeps_empty_data_fields() {
    let packet = Packet::parse("#TMA:B:x::y:\r\n").unwrap();
    assert_eq!(packet.data, strings(&["x", "", "y", ""]));
    let packet = Packet::parse("#TMA:B:\r\n").unwrap();
    assert_eq!(packet.data, strings(&[""]));
}

#[test]
fn split_command_source_prefers_known_pairs() {
    let cases = [
        ("DISERVER", "DI", "SERVER"),
        ("IDUAX123", "ID", "UAX123"),
        ("TMA", "TM", "A"),
        ("AAEGLL_TWR", "AA", "EGLL_TWR"),
        ("APBAW1", "AP", "BAW1"),
        ("DAX", "DA", "X"),
        ("DPX", "DP", "X"),
        ("CQX", "CQ", "X"),
        ("CRX", "CR", "X"),
        ("FPX", "FP", "X"),
        ("NVX", "NV", "X"),
        ("NV", "NV", ""),
    ];
    for (input, command, ident) in cases {
        assert_eq!(
            Packet::split_command_source(input),
            (command.to_string(), ident.to_string())
        );
    }
}

#[test]
fn split_command_source_falls_back_to_single_letters() {
    let cases = [
        ("NUAX123", "N", "UAX123"),
        ("SUAX123", "S", "UAX123"),
        ("YUAX123", "Y", "UAX123"),
        ("CUAX123", "C", "UAX123"),
        ("RUAX123", "R", "UAX123"),
        ("N", "N", ""),
    ];
    for (input, command, ident) in cases {
        assert_eq!(
            Packet::split_command_source(input),
            (command.to_string(), ident.to_string())
        );
    }
}

#[test]
fn split_command_source_takes_two_characters_otherwise() {
    assert_eq!(
        Packet::split_command_source("AXBAW1"),
        ("AX".to_string(), "BAW1".to_string())
    );
    assert_eq!(Packet::split_command_source("Z"), ("Z".to_string(), String::new()));
    assert_eq!(Packet::split_command_source(""), (String::new(), String::new()));
}

#[test]
fn split_command_source_counts_characters() {
    assert_eq!(
        Packet::split_command_source("\u{e9}\u{20ac}rest"),
        ("\u{e9}\u{20ac}".to_string(), "rest".to_string())
    );
}

#[test]
fn format_puts_destination_first_for_server_identification() {
    let packet = Packet {
        packet_type: PacketType::Request,
        command: "DI".to_string(),
        destination: "SERVER".to_string(),
        source: "CLIENT".to_string(),
        data: strings(&["VATSIM FSD V3.13", "TOKEN123"]),
    };
    assert_eq!(packet.format(), "$DISERVER:CLIENT:VATSIM FSD V3.13:TOKEN123\r\n");
}

#[test]
fn format_omits_source_of_position_updates() {
    let packet = Packet {
        packet_type: PacketType::PilotUpdate,
        command: "N".to_string(),
        destination: "UAX123".to_string(),
        source: "IGNORED".to_string(),
        data: strings(&["1", "45.5"]),
    };
    assert_eq!(packet.format(), "@NUAX123:1:45.5\r\n");
    let packet = Packet {
        packet_type: PacketType::AtcUpdate,
        command: "EG".to_string(),
        destination: "LL".to_string(),
        source: String::new(),
        data: Vec::new(),
    };
    assert_eq!(packet.format(), "%EGLL\r\n");
}

#[test]
fn format_puts_source_first_in_general() {
    let packet = Packet {
        packet_type: PacketType::Client,
        command: "TM".to_string(),
        destination: "BAW456".to_string(),
        source: "UAX123".to_string(),
        data: strings(&["Hello there"]),
    };
    assert_eq!(packet.format(), "#TMUAX123:BAW456:Hello there\r\n");
    let packet = Packet {
        packet_type: PacketType::Request,
        command: "CQ".to_string(),
        destination: "B".to_string(),
        source: "A".to_string(),
        data: Vec::new(),
    };
    assert_eq!(packet.format(), "$CQA:B\r\n");
}

#[test]
fn parse_then_format_gives_the_line_back() {
    let lines = [
        "$IDUAX123:SERVER:69d7:EuroScope 3.2:3:2:1234567:987654321\r\n",
        "#TMUAX123:BAW456:Hello there\r\n",
        "#AAEGLL_TWR:SERVER:John Doe:1234567:secret:5:100\r\n",
        "#APBAW1:SERVER:1234567:secret:1:100:2:John Doe EGLL\r\n",
        "#DABAW1:SERVER\r\n",
        "$CQA:B:CAPS\r\n",
        "$CRA:B:x::y:\r\n",
        "$FPBAW1:*A:I:B738\r\n",
        "$DISERVER:CLIENT:VATSIM FSD V3.13:TOKEN\r\n",
        "$AXBAW1:SERVER:METAR:EGLL\r\n",
        "!ZZ:\r\n",
        "&R:B\r\n",
        "-:\r\n",
    ];
    for line in lines {
        let packet = Packet::parse(line).unwrap();
        assert_eq!(packet.format(), line);
    }
}

#[test]
fn position_updates_lose_their_second_identifier() {
    let packet = Packet::parse("@NUAX123:1200:1\r\n").unwrap();
    assert_eq!(packet.format(), "@NUAX123:1\r\n");
}

#[test]
fn display_drops_the_terminator() {
    let packet = Packet::parse("#TMUAX123:BAW456:Hello there  \r\n").unwrap();
    assert_eq!(packet.display(), "#TMUAX123:BAW456:Hello there");
    let packet = Packet {
        packet_type: PacketType::Client,
        command: "TM".to_string(),
        destination: "B".to_string(),
        source: "A".to_string(),
        data: strings(&["trailing \t"]),
    };
    assert_eq!(packet.display(), "#TMA:B:trailing");
}

#[test]
fn clone_copies_every_field() {
    let packet = Packet::parse("$IDUAX123:SERVER:69d7:EuroScope 3.2\r\n").unwrap();
    let copy = packet.clone();
    assert_eq!(copy.packet_type, packet.packet_type);
    assert_eq!(copy.command, packet.command);
    assert_eq!(copy.source, packet.source);
    assert_eq!(copy.destination, packet.destination);
    assert_eq!(copy.data, packet.data);
}

#[test]
fn error_messages_name_the_problem() {
    assert_eq!(
        PacketError::InvalidFormat("No colon found".to_string()).message(),
        "Invalid packet format: No colon found"
    );
    assert_eq!(
        PacketError::MissingField("callsign".to_string()).message(),
        "Missing field: callsign"
    );
}

#[test]
fn json_errors_convert_and_show_their_text() {
    let cause = serde_json::from_str::<serde_json::Value>("{").unwrap_err();
    let text = cause.to_string();
    let error: PacketError = cause.into();
    assert!(matches!(error, PacketError::JsonError(_)));
    assert_eq!(error.message(), format!("JSON parsing error: {}", text));
    assert!(!text.is_empty());
}

#[test]
fn format_then_parse_gives_the_packet_back() {
    let packets = [
        Packet {
            packet_type: PacketType::Request,
            command: "DI".to_string(),
            destination: "SERVER".to_string(),
            source: "CLIENT".to_string(),
            data: strings(&["VATSIM FSD V3.13", "0123456789abcdef012345"]),
        },
        Packet {
            packet_type: PacketType::PilotUpdate,
            command: "DI".to_string(),
            destination: "A".to_string(),
            source: "B".to_string(),
            data: Vec::new(),
        },
        Packet {
            packet_type: PacketType::Client,
            command: "TM".to_string(),
            destination: "BAW456".to_string(),
            source: "UAX123".to_string(),
            data: strings(&["Hello there", "", "x"]),
        },
        Packet {
            packet_type: PacketType::Request,
            command: "ER".to_string(),
            destination: "BAW1".to_string(),
            source: "server".to_string(),
            data: strings(&["008", "BAW1", "No flightplan"]),
        },
        Packet {
            packet_type: PacketType::IvaoOther,
            command: "N".to_string(),
            destination: String::new(),
            source: "X".to_string(),
            data: Vec::new(),
        },
    ];
    for packet in packets {
        let back = Packet::parse(&packet.format()).unwrap();
        assert_eq!(back.packet_type, packet.packet_type);
        assert_eq!(back.command, packet.command);
        assert_eq!(back.source, packet.source);
        assert_eq!(back.destination, packet.destination);
        assert_eq!(back.data, packet.data);
    }
}

#[test]
fn packets_that_are_not_safe_on_the_wire_come_back_changed() {
    let glued = Packet {
        packet_type: PacketType::Request,
        command: "A".to_string(),
        destination: "SERVER".to_string(),
        source: "XBAW1".to_string(),
        data: Vec::new(),
    };
    let back = Packet::parse(&glued.format()).unwrap();
    assert_eq!(back.command, "AX");
    assert_eq!(back.source, "BAW1");
    let colon = Packet {
        packet_type: PacketType::Request,
        command: "CR".to_string(),
        destination: "EGLL_TWR".to_string(),
        source: "SERVER".to_string(),
        data: strings(&["CAPS:ATCINFO=1"]),
    };
    let back = Packet::parse(&colon.format()).unwrap();
    assert_eq!(back.data, strings(&["CAPS", "ATCINFO=1"]));
}
