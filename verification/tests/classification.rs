use reply_codes::Message;

#[test]
fn success_scenario() {
    let m = Message::from_code(0, "");
    assert!(matches!(m, Message::Success));
    assert_eq!(m.code(), 0);
}

#[test]
fn success_discards_payload() {
    let m = Message::from_code(0, "text is dropped for the no-payload reply");
    assert!(matches!(m, Message::Success));
    assert_eq!(m.code(), 0);
}

#[test]
fn interface_summary_scenario() {
    let m = Message::from_code(1005, "eth0 ready");
    match &m {
        Message::InterfaceSummary(s) => assert_eq!(s, "eth0 ready"),
        other => panic!("expected InterfaceSummary, got code {}", other.code()),
    }
    assert_eq!(m.code(), 1005);
}

#[test]
fn banded_table_header_scenario() {
    let m = Message::from_code(2500, "Name  Proto  Table");
    match &m {
        Message::TableHeader(c, s) => {
            assert_eq!(*c, 2500);
            assert_eq!(s, "Name  Proto  Table");
        }
        other => panic!("expected TableHeader, got code {}", other.code()),
    }
    assert_eq!(m.code(), 2500);
}

#[test]
fn banded_client_error_scenario() {
    let m = Message::from_code(9050, "bad token");
    match &m {
        Message::ClientError(c, s) => {
            assert_eq!(*c, 9050);
            assert_eq!(s, "bad token");
        }
        other => panic!("expected ClientError, got code {}", other.code()),
    }
    assert_eq!(m.code(), 9050);
}

#[test]
fn fallback_scenario() {
    let m = Message::from_code(12345, "?");
    match &m {
        Message::Unknown(c, s) => {
            assert_eq!(*c, 12345);
            assert_eq!(s, "?");
        }
        other => panic!("expected Unknown, got code {}", other.code()),
    }
    assert_eq!(m.code(), 12345);
}

#[test]
fn round_trip_whole_protocol_range() {
    for code in 0u32..=9999 {
        let m = Message::from_code(code, "payload");
        assert_eq!(m.code(), code, "round trip broke at code {code}");
    }
}

#[test]
fn round_trip_beyond_protocol_range() {
    for code in [10000u32, 54321, 1_000_000, u32::MAX] {
        let m = Message::from_code(code, "payload");
        assert!(matches!(m, Message::Unknown(_, _)));
        assert_eq!(m.code(), code);
    }
}

#[test]
fn informational_band_edges() {
    assert!(matches!(Message::from_code(1, "hi"), Message::Welcome(_)));
    assert!(matches!(
        Message::from_code(25, "x"),
        Message::GracefulRestartOrdered(_)
    ));
    assert!(matches!(Message::from_code(26, "x"), Message::Unknown(26, _)));
    assert!(matches!(Message::from_code(999, "x"), Message::Unknown(999, _)));
}

#[test]
fn table_entry_band_edges() {
    assert!(matches!(Message::from_code(1000, "v"), Message::BirdVersion(_)));
    assert!(matches!(Message::from_code(1025, "b"), Message::BabelEntries(_)));
    assert!(matches!(
        Message::from_code(1026, "x"),
        Message::Unknown(1026, _)
    ));
    assert!(matches!(
        Message::from_code(1999, "x"),
        Message::Unknown(1999, _)
    ));
}

#[test]
fn header_band_edges() {
    assert!(matches!(
        Message::from_code(2000, "h"),
        Message::TableHeader(2000, _)
    ));
    assert!(matches!(
        Message::from_code(2999, "h"),
        Message::TableHeader(2999, _)
    ));
    assert!(matches!(
        Message::from_code(3000, "x"),
        Message::Unknown(3000, _)
    ));
}

#[test]
fn dedicated_headers_win_over_band() {
    let m = Message::from_code(2002, "protocols");
    match &m {
        Message::ProtocolListHeader(s) => assert_eq!(s, "protocols"),
        other => panic!("expected ProtocolListHeader, got code {}", other.code()),
    }
    assert_eq!(m.code(), 2002);

    let m = Message::from_code(2005, "interfaces");
    match &m {
        Message::InterfaceSummaryHeader(s) => assert_eq!(s, "interfaces"),
        other => panic!("expected InterfaceSummaryHeader, got code {}", other.code()),
    }
    assert_eq!(m.code(), 2005);
}

#[test]
fn server_error_band_edges() {
    assert!(matches!(
        Message::from_code(7999, "x"),
        Message::Unknown(7999, _)
    ));
    assert!(matches!(Message::from_code(8000, "e"), Message::ReplyTooLong(_)));
    assert!(matches!(Message::from_code(8007, "e"), Message::AccessDenied(_)));
    assert!(matches!(
        Message::from_code(8008, "e"),
        Message::RuntimeError(8008, _)
    ));
    assert!(matches!(
        Message::from_code(8999, "e"),
        Message::RuntimeError(8999, _)
    ));
}

#[test]
fn configuration_file_error_round_trip() {
    let m = Message::from_code(8002, "syntax error in line 3");
    match &m {
        Message::ConfigurationFileError(s) => assert_eq!(s, "syntax error in line 3"),
        other => panic!("expected ConfigurationFileError, got code {}", other.code()),
    }
    assert_eq!(m.code(), 8002);
}

#[test]
fn client_error_band_edges() {
    assert!(matches!(Message::from_code(9000, "e"), Message::CommandTooLong(_)));
    assert!(matches!(Message::from_code(9001, "e"), Message::ParseError(_)));
    assert!(matches!(Message::from_code(9002, "e"), Message::InvalidSymbol(_)));
    assert!(matches!(
        Message::from_code(9003, "e"),
        Message::ClientError(9003, _)
    ));
    assert!(matches!(
        Message::from_code(9999, "e"),
        Message::ClientError(9999, _)
    ));
}

#[test]
fn payload_preserved_in_every_band() {
    let text = "a payload with spaces\tand a tab";
    match Message::from_code(13, text) {
        Message::StatusReport(s) => assert_eq!(s, text),
        other => panic!("expected StatusReport, got code {}", other.code()),
    }
    match Message::from_code(1007, text) {
        Message::RouteList(s) => assert_eq!(s, text),
        other => panic!("expected RouteList, got code {}", other.code()),
    }
    match Message::from_code(2345, text) {
        Message::TableHeader(_, s) => assert_eq!(s, text),
        other => panic!("expected TableHeader, got code {}", other.code()),
    }
    match Message::from_code(8500, text) {
        Message::RuntimeError(_, s) => assert_eq!(s, text),
        other => panic!("expected RuntimeError, got code {}", other.code()),
    }
    match Message::from_code(9500, text) {
        Message::ClientError(_, s) => assert_eq!(s, text),
        other => panic!("expected ClientError, got code {}", other.code()),
    }
    match Message::from_code(77777, text) {
        Message::Unknown(_, s) => assert_eq!(s, text),
        other => panic!("expected Unknown, got code {}", other.code()),
    }
}

#[test]
fn empty_payload_preserved() {
    match Message::from_code(1011, "") {
        Message::Uptime(s) => assert_eq!(s, ""),
        other => panic!("expected Uptime, got code {}", other.code()),
    }
}

#[test]
fn dedicated_informational_table() {
    let cases: [(u32, fn(&Message) -> bool); 8] = [
        (2, |m| matches!(m, Message::ReadingConfiguration(_))),
        (3, |m| matches!(m, Message::Reconfigured(_))),
        (9, |m| matches!(m, Message::Disabled(_))),
        (11, |m| matches!(m, Message::Enabled(_))),
        (12, |m| matches!(m, Message::Restarted(_))),
        (14, |m| matches!(m, Message::RouteCount(_))),
        (20, |m| matches!(m, Message::ConfigurationOk(_))),
        (24, |m| matches!(m, Message::GracefulRestartStatus(_))),
    ];
    for (code, is_expected) in cases {
        let m = Message::from_code(code, "t");
        assert!(is_expected(&m), "wrong variant for code {code}");
        assert_eq!(m.code(), code);
    }
}

#[test]
fn dedicated_table_entry_table() {
    let cases: [(u32, fn(&Message) -> bool); 8] = [
        (1001, |m| matches!(m, Message::InterfaceList(_))),
        (1002, |m| matches!(m, Message::ProtocolList(_))),
        (1010, |m| matches!(m, Message::SymbolList(_))),
        (1013, |m| matches!(m, Message::OspfNeighbors(_))),
        (1018, |m| matches!(m, Message::Memory(_))),
        (1019, |m| matches!(m, Message::RoaList(_))),
        (1020, |m| matches!(m, Message::BfdSessions(_))),
        (1024, |m| matches!(m, Message::BabelNeighbors(_))),
    ];
    for (code, is_expected) in cases {
        let m = Message::from_code(code, "t");
        assert!(is_expected(&m), "wrong variant for code {code}");
        assert_eq!(m.code(), code);
    }
}

#[test]
fn dedicated_error_table() {
    let cases: [(u32, fn(&Message) -> bool); 6] = [
        (8001, |m| matches!(m, Message::RouteNotFound(_))),
        (8003, |m| matches!(m, Message::NoProtocolsMatch(_))),
        (8004, |m| matches!(m, Message::StoppedDueToReconfiguration(_))),
        (8005, |m| matches!(m, Message::ProtocolDown(_))),
        (8006, |m| matches!(m, Message::ReloadFailed(_))),
        (9001, |m| matches!(m, Message::ParseError(_))),
    ];
    for (code, is_expected) in cases {
        let m = Message::from_code(code, "t");
        assert!(is_expected(&m), "wrong variant for code {code}");
        assert_eq!(m.code(), code);
    }
}

#[test]
fn encoder_accepts_externally_built_messages() {
    assert_eq!(Message::Welcome(String::from("hello")).code(), 1);
    assert_eq!(Message::TableHeader(2750, String::from("h")).code(), 2750);
    assert_eq!(Message::RuntimeError(8123, String::from("e")).code(), 8123);
    assert_eq!(Message::ClientError(9123, String::from("e")).code(), 9123);
    assert_eq!(Message::Unknown(31337, String::from("?")).code(), 31337);
    assert_eq!(
        Message::ConfigurationFileError(String::from("e")).code(),
        8002
    );
}
