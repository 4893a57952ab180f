use noirtty::protocol::{
    clamp_min_interval, route_client_message, route_incoming, wire_format, ClientMessage,
    Incoming, PtyCommand, RouterStep, WireFormat,
};

#[test]
fn format_selector() {
    assert_eq!(wire_format(Some("bincode")), WireFormat::Binary);
    assert_eq!(wire_format(Some("bin")), WireFormat::Binary);
    assert_eq!(wire_format(Some("binary")), WireFormat::Binary);
    assert_eq!(wire_format(Some("json")), WireFormat::Json);
    assert_eq!(wire_format(Some("")), WireFormat::Json);
    assert_eq!(wire_format(Some("Binary")), WireFormat::Json);
    assert_eq!(wire_format(Some("bin ")), WireFormat::Json);
    assert_eq!(wire_format(Some("bincod")), WireFormat::Json);
    assert_eq!(wire_format(None), WireFormat::Json);
}

#[test]
fn throttle_value_is_clamped_never_refused() {
    assert_eq!(clamp_min_interval(0), 0);
    assert_eq!(clamp_min_interval(100), 100);
    assert_eq!(clamp_min_interval(u32::MAX as i128), u32::MAX);
    assert_eq!(clamp_min_interval(u32::MAX as i128 + 1), 0);
    assert_eq!(clamp_min_interval(-1), 0);
    assert_eq!(clamp_min_interval(i128::MIN), 0);
    assert_eq!(clamp_min_interval(i128::MAX), 0);
}

#[test]
fn client_messages_are_routed() {
    assert_eq!(
        route_client_message(ClientMessage::Data { data: "ls\r".to_string() }),
        RouterStep::Forward(PtyCommand::Data(b"ls\r".to_vec()))
    );
    assert_eq!(
        route_client_message(ClientMessage::Data { data: "é€".to_string() }),
        RouterStep::Forward(PtyCommand::Data(vec![0xc3, 0xa9, 0xe2, 0x82, 0xac]))
    );
    assert_eq!(
        route_client_message(ClientMessage::Data { data: String::new() }),
        RouterStep::Forward(PtyCommand::Data(Vec::new()))
    );
    assert_eq!(
        route_client_message(ClientMessage::Resize { cols: 120, rows: 40 }),
        RouterStep::Forward(PtyCommand::Resize(120, 40))
    );
    assert_eq!(
        route_client_message(ClientMessage::Scroll { delta: -3 }),
        RouterStep::Forward(PtyCommand::Scroll(-3))
    );
    assert_eq!(
        route_client_message(ClientMessage::Quality { min_interval_ms: 100 }),
        RouterStep::SetMinInterval(100)
    );
    assert_eq!(
        route_client_message(ClientMessage::Quality { min_interval_ms: u32::MAX }),
        RouterStep::SetMinInterval(u32::MAX)
    );
}

#[test]
fn resize_needs_both_dimensions() {
    assert_eq!(route_client_message(ClientMessage::Resize { cols: 0, rows: 40 }), RouterStep::Discard);
    assert_eq!(route_client_message(ClientMessage::Resize { cols: 80, rows: 0 }), RouterStep::Discard);
    assert_eq!(
        route_client_message(ClientMessage::Resize { cols: 1, rows: 1 }),
        RouterStep::Forward(PtyCommand::Resize(1, 1))
    );
}

#[test]
fn deliveries_are_routed() {
    assert_eq!(
        route_incoming(Incoming::Message(ClientMessage::Scroll { delta: 5 })),
        RouterStep::Forward(PtyCommand::Scroll(5))
    );
    assert_eq!(route_incoming(Incoming::Malformed), RouterStep::Discard);
    assert_eq!(
        route_incoming(Incoming::Binary(vec![0xff, 0x00, 0x1b])),
        RouterStep::Forward(PtyCommand::Data(vec![0xff, 0x00, 0x1b]))
    );
    assert_eq!(route_incoming(Incoming::Close), RouterStep::Stop);
    assert_eq!(route_incoming(Incoming::Other), RouterStep::Discard);
}

#[test]
fn a_malformed_message_leaves_the_transport_open() {
    let steps: Vec<RouterStep> = vec![
        Incoming::Malformed,
        Incoming::Message(ClientMessage::Data { data: "a".to_string() }),
        Incoming::Other,
        Incoming::Message(ClientMessage::Resize { cols: 0, rows: 0 }),
        Incoming::Binary(b"b".to_vec()),
    ]
    .into_iter()
    .map(route_incoming)
    .collect();
    assert!(!steps.contains(&RouterStep::Stop));
    // What is forwarded keeps the order of arrival.
    let forwarded: Vec<&RouterStep> = steps.iter().filter(|s| matches!(s, RouterStep::Forward(_))).collect();
    assert_eq!(
        forwarded,
        vec![
            &RouterStep::Forward(PtyCommand::Data(b"a".to_vec())),
            &RouterStep::Forward(PtyCommand::Data(b"b".to_vec()))
        ]
    );
}
