//! The lifecycle of one accepted connection.
//!
//! A session advances through a fixed ladder of phases: awaiting
//! authorization (authenticated path only), awaiting registration, open —
//! where a read duty drains inbound control frames while a write duty
//! drains the mailbox — closing, and closed. The decisions are pure: this
//! module maps the current state and one observed event to the next state
//! and the single action the runtime must perform. The runtime around it
//! does the awaiting, performs the action, and feeds back the next event.
//!
//! Two facts hold of every possible run and are proved below: a session
//! deregisters its connection at most once, and the `Closed` phase is
//! terminal.

use crate::registry::ConnectionKind;
use vstd::prelude::*;

verus! {

/// Where one session stands in its lifecycle.
#[derive(Clone, Copy, PartialEq, Eq, Structural, Debug)]
pub enum SessionState {
    /// Handshake accepted on the authenticated path; the authorization
    /// collaborator has not answered yet. No connection exists.
    AwaitingAuth,
    /// Authorization settled (or not needed); the connection is about to be
    /// registered under `kind`.
    AwaitingRegistration { kind: ConnectionKind },
    /// Registered as `conn_id`; the read and write duties run.
    Open { conn_id: u64 },
    /// Tear-down began; the deregistration has been requested and must be
    /// confirmed before the mailbox is released.
    Closing { conn_id: u64 },
    /// Terminal. No further action is ever taken; the id is never reused.
    Closed,
}

/// What a session observes: collaborator answers, control frames, and
/// transport or mailbox conditions.
#[derive(Clone, Copy, PartialEq, Eq, Structural, Debug)]
pub enum SessionEvent {
    /// The authorization collaborator yielded this brawler id.
    AuthGranted { brawler_id: i32 },
    /// The authorization collaborator rejected the attempt.
    AuthDenied,
    /// The registry registered the connection under this id.
    Registered { conn_id: u64 },
    /// A liveness ping arrived on the inbound half.
    InboundPing,
    /// The peer asked to close.
    InboundClose,
    /// The transport failed (read or write error).
    TransportError,
    /// The write duty found the mailbox closed (overflow policy fired or
    /// the connection was deregistered elsewhere).
    MailboxClosed,
    /// The process is shutting down.
    Shutdown,
    /// The registry confirmed the deregistration.
    DeregisterDone,
}

/// What the runtime must do after a step. Exactly one action per step.
#[derive(Clone, Copy, PartialEq, Eq, Structural, Debug)]
pub enum SessionAction {
    /// Nothing to perform.
    Stay,
    /// Reject the handshake; no connection was ever created.
    RejectHandshake,
    /// Register a connection of this kind with the registry.
    Register { kind: ConnectionKind },
    /// Remove this connection from the registry.
    Deregister { conn_id: u64 },
    /// Drop the mailbox and finish; the connection is already deregistered.
    ReleaseMailbox,
}

/// The entry state of a room-scoped session: observing a mission room
/// needs no authorization.
pub fn room_entry(mission_id: i32) -> (r: (SessionState, SessionAction))
    ensures
        r.0 == (SessionState::AwaitingRegistration {
            kind: ConnectionKind::Room(mission_id),
        }),
        r.1 == (SessionAction::Register { kind: ConnectionKind::Room(mission_id) }),
{
    (
        SessionState::AwaitingRegistration { kind: ConnectionKind::Room(mission_id) },
        SessionAction::Register { kind: ConnectionKind::Room(mission_id) },
    )
}

/// The entry state of an authenticated session: the authorization
/// collaborator must yield a brawler id before any connection exists.
pub fn user_entry() -> (r: (SessionState, SessionAction))
    ensures
        r.0 == SessionState::AwaitingAuth,
        r.1 == SessionAction::Stay,
{
    (SessionState::AwaitingAuth, SessionAction::Stay)
}

/// The transition table: next state and required action for one observed
/// event in one state.
pub open spec fn step_spec(s: SessionState, ev: SessionEvent) -> (SessionState, SessionAction) {
    match s {
        SessionState::AwaitingAuth => match ev {
            SessionEvent::AuthGranted { brawler_id } => (
                SessionState::AwaitingRegistration { kind: ConnectionKind::User(brawler_id) },
                SessionAction::Register { kind: ConnectionKind::User(brawler_id) },
            ),
            SessionEvent::AuthDenied => (SessionState::Closed, SessionAction::RejectHandshake),
            SessionEvent::TransportError | SessionEvent::Shutdown => (
                SessionState::Closed,
                SessionAction::Stay,
            ),
            _ => (s, SessionAction::Stay),
        },
        SessionState::AwaitingRegistration { kind } => match ev {
            SessionEvent::Registered { conn_id } => (
                SessionState::Open { conn_id },
                SessionAction::Stay,
            ),
            SessionEvent::TransportError | SessionEvent::Shutdown => (
                SessionState::Closed,
                SessionAction::Stay,
            ),
            _ => (s, SessionAction::Stay),
        },
        SessionState::Open { conn_id } => match ev {
            SessionEvent::InboundPing => (s, SessionAction::Stay),
            SessionEvent::InboundClose | SessionEvent::TransportError
                | SessionEvent::MailboxClosed | SessionEvent::Shutdown => (
                SessionState::Closing { conn_id },
                SessionAction::Deregister { conn_id },
            ),
            _ => (s, SessionAction::Stay),
        },
        SessionState::Closing { conn_id } => match ev {
            SessionEvent::DeregisterDone => (SessionState::Closed, SessionAction::ReleaseMailbox),
            _ => (s, SessionAction::Stay),
        },
        SessionState::Closed => (s, SessionAction::Stay),
    }
}

/// Performs one lifecycle step.
pub fn step(s: SessionState, ev: SessionEvent) -> (r: (SessionState, SessionAction))
    ensures
        r == step_spec(s, ev),
{
    match s {
        SessionState::AwaitingAuth => match ev {
            SessionEvent::AuthGranted { brawler_id } => (
                SessionState::AwaitingRegistration { kind: ConnectionKind::User(brawler_id) },
                SessionAction::Register { kind: ConnectionKind::User(brawler_id) },
            ),
            SessionEvent::AuthDenied => (SessionState::Closed, SessionAction::RejectHandshake),
            SessionEvent::TransportError | SessionEvent::Shutdown => (
                SessionState::Closed,
                SessionAction::Stay,
            ),
            _ => (s, SessionAction::Stay),
        },
        SessionState::AwaitingRegistration { kind: _ } => match ev {
            SessionEvent::Registered { conn_id } => (
                SessionState::Open { conn_id },
                SessionAction::Stay,
            ),
            SessionEvent::TransportError | SessionEvent::Shutdown => (
                SessionState::Closed,
                SessionAction::Stay,
            ),
            _ => (s, SessionAction::Stay),
        },
        SessionState::Open { conn_id } => match ev {
            SessionEvent::InboundPing => (s, SessionAction::Stay),
            SessionEvent::InboundClose | SessionEvent::TransportError
                | SessionEvent::MailboxClosed | SessionEvent::Shutdown => (
                SessionState::Closing { conn_id },
                SessionAction::Deregister { conn_id },
            ),
            _ => (s, SessionAction::Stay),
        },
        SessionState::Closing { conn_id: _ } => match ev {
            SessionEvent::DeregisterDone => (SessionState::Closed, SessionAction::ReleaseMailbox),
            _ => (s, SessionAction::Stay),
        },
        SessionState::Closed => (s, SessionAction::Stay),
    }
}

/// The ladder position of a phase; transitions never descend.
pub open spec fn phase_rank(s: SessionState) -> int {
    match s {
        SessionState::AwaitingAuth => 0,
        SessionState::AwaitingRegistration { .. } => 1,
        SessionState::Open { .. } => 2,
        SessionState::Closing { .. } => 3,
        SessionState::Closed => 4,
    }
}

/// A session only moves forward along its lifecycle: no step returns to an
/// earlier phase, so in particular a closed session never reopens.
pub proof fn lemma_phase_monotone(s: SessionState, ev: SessionEvent)
    ensures
        phase_rank(step_spec(s, ev).0) >= phase_rank(s),
{
}

/// A step asks for a deregistration only when leaving `Open`, and it leaves
/// `Open` for good.
pub proof fn lemma_deregister_leaves_open(s: SessionState, ev: SessionEvent)
    ensures
        (step_spec(s, ev).1 is Deregister) ==> s is Open && step_spec(s, ev).0 is Closing,
{
}

/// The `Closed` phase is terminal: every event leaves it closed and asks
/// for nothing.
pub proof fn lemma_closed_terminal(ev: SessionEvent)
    ensures
        step_spec(SessionState::Closed, ev) == (SessionState::Closed, SessionAction::Stay),
{
}

/// How many deregistrations a run of events from `s` asks for.
pub open spec fn deregister_count(s: SessionState, evs: Seq<SessionEvent>) -> nat
    decreases evs.len(),
{
    if evs.len() == 0 {
        0
    } else {
        let first = step_spec(s, evs[0]);
        (if first.1 is Deregister {
            1nat
        } else {
            0nat
        }) + deregister_count(first.0, evs.drop_first())
    }
}

/// Destruction is idempotent by construction: along any run of events from
/// any state, a session asks the registry to deregister at most once.
pub proof fn lemma_deregister_at_most_once(s: SessionState, evs: Seq<SessionEvent>)
    ensures
        deregister_count(s, evs) <= 1,
        phase_rank(s) >= 3 ==> deregister_count(s, evs) == 0,
    decreases evs.len(),
{
    if evs.len() > 0 {
        let first = step_spec(s, evs[0]);
        lemma_phase_monotone(s, evs[0]);
        lemma_deregister_leaves_open(s, evs[0]);
        lemma_deregister_at_most_once(first.0, evs.drop_first());
    }
}

} // verus!
