//! The session state machine: entries, transitions, and tear-down.

use mission_hub::registry::ConnectionKind;
use mission_hub::session::{room_entry, step, user_entry, SessionAction, SessionEvent, SessionState};

#[test]
fn room_sessions_skip_authorization() {
    let (state, action) = room_entry(42);
    assert_eq!(
        state,
        SessionState::AwaitingRegistration { kind: ConnectionKind::Room(42) }
    );
    assert_eq!(action, SessionAction::Register { kind: ConnectionKind::Room(42) });
}

#[test]
fn denied_authorization_never_creates_a_connection() {
    let (state, action) = user_entry();
    assert_eq!(state, SessionState::AwaitingAuth);
    assert_eq!(action, SessionAction::Stay);
    let (state, action) = step(state, SessionEvent::AuthDenied);
    assert_eq!(state, SessionState::Closed);
    assert_eq!(action, SessionAction::RejectHandshake);
}

#[test]
fn granted_authorization_registers_a_user_connection() {
    let (state, _) = user_entry();
    let (state, action) = step(state, SessionEvent::AuthGranted { brawler_id: 7 });
    assert_eq!(action, SessionAction::Register { kind: ConnectionKind::User(7) });
    let (state, action) = step(state, SessionEvent::Registered { conn_id: 10 });
    assert_eq!(state, SessionState::Open { conn_id: 10 });
    assert_eq!(action, SessionAction::Stay);
}

#[test]
fn an_open_session_deregisters_exactly_once_on_tear_down() {
    let mut state = SessionState::Open { conn_id: 5 };
    let mut deregisters = 0;

    // the transport fails, then a flood of late events arrives
    let events = [
        SessionEvent::TransportError,
        SessionEvent::MailboxClosed,
        SessionEvent::InboundClose,
        SessionEvent::Shutdown,
        SessionEvent::DeregisterDone,
        SessionEvent::TransportError,
        SessionEvent::Shutdown,
    ];
    for ev in events {
        let (next, action) = step(state, ev);
        if let SessionAction::Deregister { conn_id } = action {
            assert_eq!(conn_id, 5);
            deregisters += 1;
        }
        state = next;
    }
    assert_eq!(deregisters, 1);
    assert_eq!(state, SessionState::Closed);
}

#[test]
fn pings_keep_an_open_session_open() {
    let (state, action) = step(SessionState::Open { conn_id: 2 }, SessionEvent::InboundPing);
    assert_eq!(state, SessionState::Open { conn_id: 2 });
    assert_eq!(action, SessionAction::Stay);
}

#[test]
fn the_mailbox_is_released_only_after_deregistration_confirms() {
    let (state, action) = step(
        SessionState::Open { conn_id: 2 },
        SessionEvent::InboundClose,
    );
    assert_eq!(state, SessionState::Closing { conn_id: 2 });
    assert_eq!(action, SessionAction::Deregister { conn_id: 2 });
    // unrelated events during closing do nothing
    let (state, action) = step(state, SessionEvent::TransportError);
    assert_eq!(state, SessionState::Closing { conn_id: 2 });
    assert_eq!(action, SessionAction::Stay);
    let (state, action) = step(state, SessionEvent::DeregisterDone);
    assert_eq!(state, SessionState::Closed);
    assert_eq!(action, SessionAction::ReleaseMailbox);
}

#[test]
fn closed_is_terminal_for_every_event() {
    let events = [
        SessionEvent::AuthGranted { brawler_id: 1 },
        SessionEvent::AuthDenied,
        SessionEvent::Registered { conn_id: 1 },
        SessionEvent::InboundPing,
        SessionEvent::InboundClose,
        SessionEvent::TransportError,
        SessionEvent::MailboxClosed,
        SessionEvent::Shutdown,
        SessionEvent::DeregisterDone,
    ];
    for ev in events {
        let (state, action) = step(SessionState::Closed, ev);
        assert_eq!(state, SessionState::Closed);
        assert_eq!(action, SessionAction::Stay);
    }
}
