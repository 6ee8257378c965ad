use tt_backend::messages::BackendMessage;
use tt_backend::server::{Action, DisconnectReason, InternalMessage, Server};

fn connect_client(server: &mut Server, name: &str, address: &str) -> Vec<Action> {
    // the event loop delivers the retained state first; with no failure the
    // outcome it reports is success
    server.handle_client_connected(name.to_string(), address.to_string(), true)
}

#[test]
fn login_before_any_host_sends_nothing() {
    // Scenario: a client logs in while no host ever connected: there is no
    // retained state, so no initial message is owed to it.
    let mut server = Server::new();
    assert!(server.last_state_message().is_none());
    let actions = connect_client(&mut server, "Ada", "addr1");
    assert_eq!(actions.len(), 1);
    match &actions[0] {
        Action::SpawnClientReader { address } => assert_eq!(address, "addr1"),
        other => panic!("unexpected: {:?}", other),
    }
}

#[test]
fn change_state_broadcasts_and_greets_late_joiner() {
    // Scenario: the host changes state; every connected client receives the
    // message, and a client connecting afterwards receives it at login.
    let mut server = Server::new();
    server.handle_host_connected("host".to_string());
    connect_client(&mut server, "Ada", "addr1");
    connect_client(&mut server, "Bob", "addr2");
    let actions =
        server.handle_host_change_state("host".to_string(), "{\"round\":1}".to_string());
    let mut sent_to = Vec::new();
    for action in &actions {
        match action {
            Action::SendToClient { address, message } => {
                match message {
                    BackendMessage::ChangeState { content } => {
                        assert_eq!(content, "{\"round\":1}")
                    },
                    other => panic!("unexpected: {:?}", other),
                }
                sent_to.push(address.clone());
            },
            other => panic!("unexpected: {:?}", other),
        }
    }
    assert_eq!(sent_to, vec!["addr1".to_string(), "addr2".to_string()]);
    match server.last_state_message() {
        Some(BackendMessage::ChangeState { content }) => assert_eq!(content, "{\"round\":1}"),
        other => panic!("unexpected: {:?}", other),
    }
}

#[test]
fn input_is_forwarded_with_identity() {
    // Scenario: client "Ada" at addr1 sends input "42" while a host is
    // connected; the host receives it tagged with name and address.
    let mut server = Server::new();
    server.handle_host_connected("host".to_string());
    connect_client(&mut server, "Ada", "addr1");
    let actions = server.handle_client_input("addr1".to_string(), "42".to_string());
    assert_eq!(actions.len(), 1);
    match &actions[0] {
        Action::SendToHost { address, message } => {
            assert_eq!(address, "host");
            match message {
                BackendMessage::Input { input, name, address } => {
                    assert_eq!(input, "42");
                    assert_eq!(name, "Ada");
                    assert_eq!(address, "addr1");
                },
                other => panic!("unexpected: {:?}", other),
            }
        },
        other => panic!("unexpected: {:?}", other),
    }
}

#[test]
fn input_without_host_is_dropped() {
    let mut server = Server::new();
    connect_client(&mut server, "Ada", "addr1");
    let actions = server.handle_client_input("addr1".to_string(), "42".to_string());
    assert!(actions.is_empty());
}

#[test]
fn input_from_unknown_address_is_dropped() {
    let mut server = Server::new();
    server.handle_host_connected("host".to_string());
    let actions = server.handle_client_input("ghostly".to_string(), "42".to_string());
    assert!(actions.is_empty());
}

#[test]
fn second_host_supersedes_first() {
    // Scenario: host B connects while host A is connected; A is closed as
    // superseded and B becomes the current host.
    let mut server = Server::new();
    server.handle_host_connected("hostA".to_string());
    let actions = server.handle_host_connected("hostB".to_string());
    assert_eq!(actions.len(), 2);
    match &actions[0] {
        Action::CloseHost { address, reason } => {
            assert_eq!(address, "hostA");
            assert_eq!(*reason, DisconnectReason::Superseded);
            assert_eq!(reason.text(), "superseded by another host");
        },
        other => panic!("unexpected: {:?}", other),
    }
    match &actions[1] {
        Action::SpawnHostReader { address } => assert_eq!(address, "hostB"),
        other => panic!("unexpected: {:?}", other),
    }
    // B is current: an update from B reaches clients, one from A does not
    connect_client(&mut server, "Ada", "addr1");
    let from_a = server.handle_host_update("hostA".to_string(), "late".to_string());
    assert!(from_a.is_empty());
    let from_b = server.handle_host_update("hostB".to_string(), "tick".to_string());
    assert_eq!(from_b.len(), 1);
}

#[test]
fn stale_host_close_is_a_no_op() {
    // A close event for host A arriving after host B took the slot mutates
    // nothing.
    let mut server = Server::new();
    server.handle_host_connected("hostA".to_string());
    server.handle_host_connected("hostB".to_string());
    let actions =
        server.handle_host_close_connection("hostA".to_string(), DisconnectReason::HostForceful);
    assert!(actions.is_empty());
    // hostB still holds the slot
    let update = server.handle_host_update("hostB".to_string(), "tick".to_string());
    assert!(update.is_empty()); // no clients yet, but the address matched
    connect_client(&mut server, "Ada", "addr1");
    let update = server.handle_host_update("hostB".to_string(), "tick".to_string());
    assert_eq!(update.len(), 1);
}

#[test]
fn matching_host_close_empties_the_slot() {
    let mut server = Server::new();
    server.handle_host_connected("host".to_string());
    let actions =
        server.handle_host_close_connection("host".to_string(), DisconnectReason::HostGraceful);
    assert_eq!(actions.len(), 1);
    match &actions[0] {
        Action::CloseHost { address, reason } => {
            assert_eq!(address, "host");
            assert_eq!(*reason, DisconnectReason::HostGraceful);
        },
        other => panic!("unexpected: {:?}", other),
    }
    connect_client(&mut server, "Ada", "addr1");
    assert!(server.handle_host_update("host".to_string(), "tick".to_string()).is_empty());
}

#[test]
fn failed_broadcast_send_removes_only_that_client() {
    // Scenario: a send to one client fails during a broadcast; the event
    // loop posts a close event for it, the client is removed and closed
    // with the send-failure reason, and later broadcasts skip it.
    let mut server = Server::new();
    server.handle_host_connected("host".to_string());
    connect_client(&mut server, "Ada", "addr1");
    connect_client(&mut server, "Bob", "addr2");
    let first = server.handle_host_update("host".to_string(), "tick".to_string());
    assert_eq!(first.len(), 2); // both clients were addressed
    // the send to Ada failed; the loop reports it as an event
    let close_actions = server.handle_message(
        InternalMessage::ClientCloseConnection {
            address: "addr1".to_string(),
            reason: DisconnectReason::SendFailed,
        },
        true,
    );
    assert_eq!(close_actions.len(), 2);
    match &close_actions[0] {
        Action::SendToHost { message, .. } => match message {
            BackendMessage::ClientDisconnected { name, address, reason } => {
                assert_eq!(name, "Ada");
                assert_eq!(address, "addr1");
                assert_eq!(reason, "Sending failed");
            },
            other => panic!("unexpected: {:?}", other),
        },
        other => panic!("unexpected: {:?}", other),
    }
    match &close_actions[1] {
        Action::CloseClient { address, reason } => {
            assert_eq!(address, "addr1");
            assert_eq!(*reason, DisconnectReason::SendFailed);
        },
        other => panic!("unexpected: {:?}", other),
    }
    // subsequent broadcasts no longer target addr1
    let second = server.handle_host_update("host".to_string(), "tock".to_string());
    assert_eq!(second.len(), 1);
    match &second[0] {
        Action::SendToClient { address, .. } => assert_eq!(address, "addr2"),
        other => panic!("unexpected: {:?}", other),
    }
}

#[test]
fn removing_unknown_client_is_a_no_op() {
    let mut server = Server::new();
    connect_client(&mut server, "Ada", "addr1");
    // remove once
    let first = server.handle_client_close_connection(
        "addr1".to_string(),
        DisconnectReason::ClientGraceful,
    );
    assert_eq!(first.len(), 1);
    // remove again: no error, no action, no mutation
    let second = server.handle_client_close_connection(
        "addr1".to_string(),
        DisconnectReason::ClientGraceful,
    );
    assert!(second.is_empty());
    // an address that never existed
    let third = server
        .handle_client_close_connection("nobody".to_string(), DisconnectReason::ClientForceful);
    assert!(third.is_empty());
}

#[test]
fn most_recent_host_wins() {
    // Any sequence of host connects leaves exactly the last one in the slot.
    let mut server = Server::new();
    for name in ["h1", "h2", "h3", "h4"] {
        server.handle_host_connected(name.to_string());
    }
    connect_client(&mut server, "Ada", "addr1");
    for name in ["h1", "h2", "h3"] {
        assert!(server.handle_host_update(name.to_string(), "x".to_string()).is_empty());
    }
    assert_eq!(server.handle_host_update("h4".to_string(), "x".to_string()).len(), 1);
}

#[test]
fn update_does_not_retain_state() {
    let mut server = Server::new();
    server.handle_host_connected("host".to_string());
    connect_client(&mut server, "Ada", "addr1");
    server.handle_host_update("host".to_string(), "transient".to_string());
    assert!(server.last_state_message().is_none());
}

#[test]
fn update_from_non_host_is_ignored() {
    let mut server = Server::new();
    server.handle_host_connected("host".to_string());
    connect_client(&mut server, "Ada", "addr1");
    assert!(server.handle_host_update("impostor".to_string(), "x".to_string()).is_empty());
    assert!(server
        .handle_host_change_state("impostor".to_string(), "x".to_string())
        .is_empty());
    assert!(server.last_state_message().is_none());
}

#[test]
fn undelivered_snapshot_closes_client_without_registering() {
    let mut server = Server::new();
    server.handle_host_connected("host".to_string());
    server.handle_host_change_state("host".to_string(), "s1".to_string());
    // the snapshot send to the fresh client failed
    let actions = server.handle_client_connected("Ada".to_string(), "addr1".to_string(), false);
    assert_eq!(actions.len(), 1);
    match &actions[0] {
        Action::CloseClient { address, reason } => {
            assert_eq!(address, "addr1");
            assert_eq!(*reason, DisconnectReason::SendFailed);
        },
        other => panic!("unexpected: {:?}", other),
    }
    // never registered: its input is dropped
    assert!(server.handle_client_input("addr1".to_string(), "42".to_string()).is_empty());
}

#[test]
fn connect_notifies_host() {
    let mut server = Server::new();
    server.handle_host_connected("host".to_string());
    let actions = connect_client(&mut server, "Ada", "addr1");
    assert_eq!(actions.len(), 2);
    match &actions[0] {
        Action::SendToHost { address, message } => {
            assert_eq!(address, "host");
            match message {
                BackendMessage::ClientConnected { name, address } => {
                    assert_eq!(name, "Ada");
                    assert_eq!(address, "addr1");
                },
                other => panic!("unexpected: {:?}", other),
            }
        },
        other => panic!("unexpected: {:?}", other),
    }
}

#[test]
fn reason_texts_are_exact() {
    assert_eq!(
        DisconnectReason::ClientGraceful.text(),
        "Connection closed gracefully by client"
    );
    assert_eq!(
        DisconnectReason::ClientForceful.text(),
        "Connection closed forcefully by client"
    );
    assert_eq!(
        DisconnectReason::HostGraceful.text(),
        "Connection closed gracefully by host"
    );
    assert_eq!(
        DisconnectReason::HostForceful.text(),
        "Connection closed forcefully by host"
    );
    assert_eq!(DisconnectReason::Superseded.text(), "superseded by another host");
    assert_eq!(DisconnectReason::Violation.text(), "Protocol violation");
    assert_eq!(DisconnectReason::SendFailed.text(), "Sending failed");
}
