use tt_backend::messages::{ClientMessage, HostMessage};
use tt_backend::reader::{client_reader_step, host_reader_step, login_step, LoginStep};
use tt_backend::server::{DisconnectReason, InternalMessage};

#[test]
fn login_accepts_client_login() {
    let step = login_step(Some(ClientMessage::ClientLogin { name: "Ada".to_string() }));
    match step {
        LoginStep::LoggedIn { name } => assert_eq!(name, "Ada"),
        other => panic!("unexpected: {:?}", step_name(&other)),
    }
}

#[test]
fn login_closes_on_stream_end() {
    match login_step(None) {
        LoginStep::Close { reason } => assert_eq!(reason, DisconnectReason::ClientForceful),
        other => panic!("unexpected: {:?}", step_name(&other)),
    }
}

#[test]
fn login_closes_on_disconnect() {
    match login_step(Some(ClientMessage::Disconnect { reason: "bye".to_string() })) {
        LoginStep::Close { reason } => assert_eq!(reason, DisconnectReason::ClientGraceful),
        other => panic!("unexpected: {:?}", step_name(&other)),
    }
}

#[test]
fn login_drops_early_input_and_waits() {
    match login_step(Some(ClientMessage::Input { content: "42".to_string() })) {
        LoginStep::Continue => {},
        other => panic!("unexpected: {:?}", step_name(&other)),
    }
}

fn step_name(step: &LoginStep) -> &'static str {
    match step {
        LoginStep::LoggedIn { .. } => "LoggedIn",
        LoginStep::Close { .. } => "Close",
        LoginStep::Continue => "Continue",
    }
}

#[test]
fn client_reader_forwards_input() {
    let step = client_reader_step(
        "addr1".to_string(),
        Some(ClientMessage::Input { content: "42".to_string() }),
    );
    assert!(!step.stop);
    match step.event {
        InternalMessage::ClientInput { address, content } => {
            assert_eq!(address, "addr1");
            assert_eq!(content, "42");
        },
        other => panic!("unexpected: {:?}", other),
    }
}

#[test]
fn client_reader_treats_second_login_as_violation() {
    let step = client_reader_step(
        "addr1".to_string(),
        Some(ClientMessage::ClientLogin { name: "Eve".to_string() }),
    );
    assert!(step.stop);
    match step.event {
        InternalMessage::ClientCloseConnection { address, reason } => {
            assert_eq!(address, "addr1");
            assert_eq!(reason, DisconnectReason::Violation);
        },
        other => panic!("unexpected: {:?}", other),
    }
}

#[test]
fn client_reader_closes_on_disconnect() {
    let step = client_reader_step(
        "addr1".to_string(),
        Some(ClientMessage::Disconnect { reason: "bye".to_string() }),
    );
    assert!(step.stop);
    match step.event {
        InternalMessage::ClientCloseConnection { reason, .. } => {
            assert_eq!(reason, DisconnectReason::ClientGraceful);
        },
        other => panic!("unexpected: {:?}", other),
    }
}

#[test]
fn client_reader_closes_on_stream_end() {
    let step = client_reader_step("addr1".to_string(), None);
    assert!(step.stop);
    match step.event {
        InternalMessage::ClientCloseConnection { reason, .. } => {
            assert_eq!(reason, DisconnectReason::ClientForceful);
        },
        other => panic!("unexpected: {:?}", other),
    }
}

#[test]
fn host_reader_forwards_update() {
    let step = host_reader_step(
        "host".to_string(),
        Some(HostMessage::Update { content: "tick".to_string() }),
    );
    assert!(!step.stop);
    match step.event {
        InternalMessage::HostUpdate { address, content } => {
            assert_eq!(address, "host");
            assert_eq!(content, "tick");
        },
        other => panic!("unexpected: {:?}", other),
    }
}

#[test]
fn host_reader_forwards_change_state() {
    let step = host_reader_step(
        "host".to_string(),
        Some(HostMessage::ChangeState { content: "{\"round\":1}".to_string() }),
    );
    assert!(!step.stop);
    match step.event {
        InternalMessage::HostChangeState { address, content } => {
            assert_eq!(address, "host");
            assert_eq!(content, "{\"round\":1}");
        },
        other => panic!("unexpected: {:?}", other),
    }
}

#[test]
fn host_reader_closes_on_disconnect() {
    let step = host_reader_step(
        "host".to_string(),
        Some(HostMessage::Disconnect { reason: "bye".to_string() }),
    );
    assert!(step.stop);
    match step.event {
        InternalMessage::HostCloseConnection { reason, .. } => {
            assert_eq!(reason, DisconnectReason::HostGraceful);
        },
        other => panic!("unexpected: {:?}", other),
    }
}

#[test]
fn host_reader_closes_on_stream_end() {
    let step = host_reader_step("host".to_string(), None);
    assert!(step.stop);
    match step.event {
        InternalMessage::HostCloseConnection { address, reason } => {
            assert_eq!(address, "host");
            assert_eq!(reason, DisconnectReason::HostForceful);
        },
        other => panic!("unexpected: {:?}", other),
    }
}
