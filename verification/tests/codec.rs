use tt_backend::messages::{
    encode_backend_msg, parse_client_msg, parse_host_msg, BackendMessage, ClientMessage,
    HostMessage,
};
use tt_backend::wire::{decode_host_payload, encode_host_frame};

#[test]
fn parse_client_login() {
    match parse_client_msg("{\"type\":\"ClientLogin\",\"name\":\"Ada\"}") {
        Some(ClientMessage::ClientLogin { name }) => assert_eq!(name, "Ada"),
        other => panic!("unexpected: {:?}", other),
    }
}

#[test]
fn parse_client_disconnect() {
    match parse_client_msg("{\"type\":\"Disconnecting\",\"reason\":\"done\"}") {
        Some(ClientMessage::Disconnect { reason }) => assert_eq!(reason, "done"),
        other => panic!("unexpected: {:?}", other),
    }
}

#[test]
fn parse_client_input() {
    match parse_client_msg("{\"type\":\"Input\",\"content\":\"42\"}") {
        Some(ClientMessage::Input { content }) => assert_eq!(content, "42"),
        other => panic!("unexpected: {:?}", other),
    }
}

#[test]
fn parse_client_ignores_field_order() {
    match parse_client_msg("{\"name\":\"Ada\",\"type\":\"ClientLogin\"}") {
        Some(ClientMessage::ClientLogin { name }) => assert_eq!(name, "Ada"),
        other => panic!("unexpected: {:?}", other),
    }
}

#[test]
fn parse_client_rejects_unknown_type() {
    assert!(parse_client_msg("{\"type\":\"Launch\",\"content\":\"x\"}").is_none());
}

#[test]
fn parse_client_rejects_missing_field() {
    assert!(parse_client_msg("{\"type\":\"ClientLogin\"}").is_none());
    assert!(parse_client_msg("{\"type\":\"Input\"}").is_none());
}

#[test]
fn parse_client_rejects_non_string_field() {
    assert!(parse_client_msg("{\"type\":\"ClientLogin\",\"name\":5}").is_none());
    assert!(parse_client_msg("{\"type\":5,\"name\":\"Ada\"}").is_none());
}

#[test]
fn parse_client_rejects_non_object() {
    assert!(parse_client_msg("[1,2]").is_none());
    assert!(parse_client_msg("\"ClientLogin\"").is_none());
    assert!(parse_client_msg("not json at all").is_none());
}

#[test]
fn parse_host_update() {
    match parse_host_msg("{\"type\":\"Update\",\"content\":\"tick\"}") {
        Some(HostMessage::Update { content }) => assert_eq!(content, "tick"),
        other => panic!("unexpected: {:?}", other),
    }
}

#[test]
fn parse_host_change_state() {
    match parse_host_msg("{\"type\":\"ChangeState\",\"content\":\"{\\\"round\\\":1}\"}") {
        Some(HostMessage::ChangeState { content }) => assert_eq!(content, "{\"round\":1}"),
        other => panic!("unexpected: {:?}", other),
    }
}

#[test]
fn parse_host_disconnect() {
    match parse_host_msg("{\"type\":\"Disconnecting\",\"reason\":\"bye\"}") {
        Some(HostMessage::Disconnect { reason }) => assert_eq!(reason, "bye"),
        other => panic!("unexpected: {:?}", other),
    }
}

#[test]
fn parse_host_rejects_client_only_type() {
    assert!(parse_host_msg("{\"type\":\"ClientLogin\",\"name\":\"Ada\"}").is_none());
}

#[test]
fn encode_disconnect_exact() {
    let text = encode_backend_msg(BackendMessage::Disconnect { reason: "r".to_string() });
    assert_eq!(text, "{\"reason\":\"r\",\"type\":\"Disconnecting\"}");
}

#[test]
fn encode_client_connected_exact() {
    let text = encode_backend_msg(BackendMessage::ClientConnected {
        name: "Ada".to_string(),
        address: "addr1".to_string(),
    });
    assert_eq!(
        text,
        "{\"address\":\"addr1\",\"name\":\"Ada\",\"type\":\"ClientConnected\"}"
    );
}

#[test]
fn encode_client_disconnected_exact() {
    let text = encode_backend_msg(BackendMessage::ClientDisconnected {
        name: "Ada".to_string(),
        address: "addr1".to_string(),
        reason: "Sending failed".to_string(),
    });
    assert_eq!(
        text,
        "{\"address\":\"addr1\",\"name\":\"Ada\",\"reason\":\"Sending failed\",\"type\":\"ClientDisconnected\"}"
    );
}

#[test]
fn encode_input_exact() {
    let text = encode_backend_msg(BackendMessage::Input {
        input: "42".to_string(),
        name: "Ada".to_string(),
        address: "addr1".to_string(),
    });
    assert_eq!(
        text,
        "{\"address\":\"addr1\",\"input\":\"42\",\"name\":\"Ada\",\"type\":\"Input\"}"
    );
}

#[test]
fn encode_update_exact() {
    let text = encode_backend_msg(BackendMessage::Update { content: "tick".to_string() });
    assert_eq!(text, "{\"content\":\"tick\",\"type\":\"Update\"}");
}

#[test]
fn encode_change_state_escapes_content() {
    let text = encode_backend_msg(BackendMessage::ChangeState {
        content: "{\"round\":1}".to_string(),
    });
    assert_eq!(
        text,
        "{\"content\":\"{\\\"round\\\":1}\",\"type\":\"ChangeState\"}"
    );
}

#[test]
fn encode_then_reparse_through_json() {
    let text = encode_backend_msg(BackendMessage::Input {
        input: "left".to_string(),
        name: "Bob\"?".to_string(),
        address: "127.0.0.1:9".to_string(),
    });
    let value: serde_json::Value = serde_json::from_str(&text).unwrap();
    assert_eq!(value["type"].as_str(), Some("Input"));
    assert_eq!(value["input"].as_str(), Some("left"));
    assert_eq!(value["name"].as_str(), Some("Bob\"?"));
    assert_eq!(value["address"].as_str(), Some("127.0.0.1:9"));
}

#[test]
fn host_frame_layout() {
    let text = encode_backend_msg(BackendMessage::Update { content: "x".to_string() });
    let frame = encode_host_frame(BackendMessage::Update { content: "x".to_string() }).unwrap();
    let body = text.as_bytes();
    let n = body.len() as u32;
    assert_eq!(frame.len(), body.len() + 4);
    assert_eq!(frame[0], (n >> 24) as u8);
    assert_eq!(frame[1], (n >> 16) as u8);
    assert_eq!(frame[2], (n >> 8) as u8);
    assert_eq!(frame[3], n as u8);
    assert_eq!(&frame[4..], body);
}

#[test]
fn host_frame_round_trip() {
    let frame = encode_host_frame(BackendMessage::Disconnect {
        reason: "Protocol violation".to_string(),
    })
    .unwrap();
    // the frame's payload is itself a well-formed host-side JSON text
    let payload = frame[4..].to_vec();
    // the backend→peer Disconnect uses the same tag the host→backend one does
    match decode_host_payload(payload) {
        Some(HostMessage::Disconnect { reason }) => assert_eq!(reason, "Protocol violation"),
        other => panic!("unexpected: {:?}", other),
    }
}

#[test]
fn decode_host_payload_rejects_bad_utf8() {
    assert!(decode_host_payload(vec![0xff, 0xfe, 0x41]).is_none());
}

#[test]
fn decode_host_payload_rejects_bad_json() {
    assert!(decode_host_payload(b"{\"type\":".to_vec()).is_none());
    assert!(decode_host_payload(b"{\"type\":\"Update\"}".to_vec()).is_none());
}

#[test]
fn decode_host_payload_reads_update() {
    match decode_host_payload(b"{\"type\":\"Update\",\"content\":\"tock\"}".to_vec()) {
        Some(HostMessage::Update { content }) => assert_eq!(content, "tock"),
        other => panic!("unexpected: {:?}", other),
    }
}
