//! Decisions of a realtime WebSocket session: announce readiness, then
//! forward the node's errors to the client.
use vstd::prelude::*;
use crate::errors::NodeError;

verus! {

/// A message sent to the WebSocket client.
#[derive(Debug)]
pub enum ServerMessage {
    /// Whether the server finished replaying operations and is ready.
    Status { ready: bool },
    /// The text of the node's current error.
    Error { error: String },
}

/// Where a session stands.
#[derive(Debug, PartialEq, Eq, Structural)]
pub enum SessionPhase {
    /// The first status message is being sent.
    SendingGreeting { ready: bool },
    /// Waiting for the server to become ready.
    AwaitingReady,
    /// The "ready" status message is being sent.
    SendingReady,
    /// Reading the node's current error.
    ObservingError,
    /// An error message is being sent.
    SendingError,
    /// Waiting for the node's error to change.
    AwaitingErrorChange,
    /// The session is over.
    Closed,
}

/// What happened since the session's last action.
#[derive(Debug)]
pub enum SessionEvent {
    /// The last message was sent (`ok`) or could not be sent.
    Sent { ok: bool },
    /// The readiness changed to this value, or (`None`) its channel closed.
    ReadyChanged(Option<bool>),
    /// The node's current error, read and marked as seen.
    ErrorObserved(Option<NodeError>),
    /// The node's error changed (`open`), or its channel closed.
    ErrorChanged { open: bool },
}

/// What the session does next.
#[derive(Debug)]
pub enum SessionAction {
    /// Send this message.
    Send(ServerMessage),
    /// Wait for the readiness to change.
    WaitReady,
    /// Read the node's current error and mark it as seen.
    ObserveError,
    /// Wait for the node's error to change.
    WaitErrorChange,
    /// End the session.
    Close,
}

/// The text that an error message carries for a node error.
pub open spec fn spec_error_text(e: NodeError) -> String {
    match e {
        NodeError::RegionNotBound(msg) => msg,
        NodeError::GrpcUnavailable(msg) => msg,
    }
}

/// Whether the session is forwarding errors (readiness was announced).
pub open spec fn is_forwarding(p: SessionPhase) -> bool {
    p == SessionPhase::ObservingError || p == SessionPhase::SendingError || p
        == SessionPhase::AwaitingErrorChange
}

/// One step of a session: the next phase and action, given the phase and
/// what happened. An event that the phase does not expect ends the session.
pub open spec fn spec_session_step(p: SessionPhase, ev: SessionEvent) -> (SessionPhase, SessionAction) {
    match (p, ev) {
        (SessionPhase::SendingGreeting { ready }, SessionEvent::Sent { ok }) => {
            if !ok {
                (SessionPhase::Closed, SessionAction::Close)
            } else if ready {
                (SessionPhase::ObservingError, SessionAction::ObserveError)
            } else {
                (SessionPhase::AwaitingReady, SessionAction::WaitReady)
            }
        },
        (SessionPhase::AwaitingReady, SessionEvent::ReadyChanged(r)) => match r {
            None => (SessionPhase::Closed, SessionAction::Close),
            Some(true) => (
                SessionPhase::SendingReady,
                SessionAction::Send(ServerMessage::Status { ready: true }),
            ),
            Some(false) => (SessionPhase::AwaitingReady, SessionAction::WaitReady),
        },
        (SessionPhase::SendingReady, SessionEvent::Sent { ok }) => {
            if ok {
                (SessionPhase::ObservingError, SessionAction::ObserveError)
            } else {
                (SessionPhase::Closed, SessionAction::Close)
            }
        },
        (SessionPhase::ObservingError, SessionEvent::ErrorObserved(e)) => match e {
            Some(err) => (
                SessionPhase::SendingError,
                SessionAction::Send(ServerMessage::Error { error: spec_error_text(err) }),
            ),
            None => (SessionPhase::AwaitingErrorChange, SessionAction::WaitErrorChange),
        },
        (SessionPhase::SendingError, SessionEvent::Sent { ok }) => {
            if ok {
                (SessionPhase::AwaitingErrorChange, SessionAction::WaitErrorChange)
            } else {
                (SessionPhase::Closed, SessionAction::Close)
            }
        },
        (SessionPhase::AwaitingErrorChange, SessionEvent::ErrorChanged { open }) => {
            if open {
                (SessionPhase::ObservingError, SessionAction::ObserveError)
            } else {
                (SessionPhase::Closed, SessionAction::Close)
            }
        },
        _ => (SessionPhase::Closed, SessionAction::Close),
    }
}

/// One client's realtime session.
pub struct SocketSession {
    phase: SessionPhase,
}

impl SocketSession {
    /// The session's phase.
    pub closed spec fn spec_phase(self) -> SessionPhase {
        self.phase
    }

    /// Starts a session for a client that just connected, given whether the
    /// server is ready: the first message tells the client that readiness.
    pub fn connect(ready: bool) -> (r: (SocketSession, SessionAction))
        ensures
            r.0.spec_phase() == (SessionPhase::SendingGreeting { ready }),
            r.1 == SessionAction::Send(ServerMessage::Status { ready }),
    {
        (
            SocketSession { phase: SessionPhase::SendingGreeting { ready } },
            SessionAction::Send(ServerMessage::Status { ready }),
        )
    }

    /// Whether the session is over.
    pub fn is_closed(&self) -> (r: bool)
        ensures
            r == (self.spec_phase() == SessionPhase::Closed),
    {
        self.phase == SessionPhase::Closed
    }

    /// Advances the session by one event.
    pub fn step(&mut self, ev: SessionEvent) -> (action: SessionAction)
        ensures
            (final(self).spec_phase(), action) == spec_session_step(old(self).spec_phase(), ev),
    {
        let (next, action) = match (&self.phase, ev) {
            (SessionPhase::SendingGreeting { ready }, SessionEvent::Sent { ok }) => {
                if !ok {
                    (SessionPhase::Closed, SessionAction::Close)
                } else if *ready {
                    (SessionPhase::ObservingError, SessionAction::ObserveError)
                } else {
                    (SessionPhase::AwaitingReady, SessionAction::WaitReady)
                }
            },
            (SessionPhase::AwaitingReady, SessionEvent::ReadyChanged(r)) => match r {
                None => (SessionPhase::Closed, SessionAction::Close),
                Some(true) => (
                    SessionPhase::SendingReady,
                    SessionAction::Send(ServerMessage::Status { ready: true }),
                ),
                Some(false) => (SessionPhase::AwaitingReady, SessionAction::WaitReady),
            },
            (SessionPhase::SendingReady, SessionEvent::Sent { ok }) => {
                if ok {
                    (SessionPhase::ObservingError, SessionAction::ObserveError)
                } else {
                    (SessionPhase::Closed, SessionAction::Close)
                }
            },
            (SessionPhase::ObservingError, SessionEvent::ErrorObserved(e)) => match e {
                Some(err) => {
                    let text = match err {
                        NodeError::RegionNotBound(msg) => msg,
                        NodeError::GrpcUnavailable(msg) => msg,
                    };
                    (SessionPhase::SendingError, SessionAction::Send(ServerMessage::Error { error: text }))
                },
                None => (SessionPhase::AwaitingErrorChange, SessionAction::WaitErrorChange),
            },
            (SessionPhase::SendingError, SessionEvent::Sent { ok }) => {
                if ok {
                    (SessionPhase::AwaitingErrorChange, SessionAction::WaitErrorChange)
                } else {
                    (SessionPhase::Closed, SessionAction::Close)
                }
            },
            (SessionPhase::AwaitingErrorChange, SessionEvent::ErrorChanged { open }) => {
                if open {
                    (SessionPhase::ObservingError, SessionAction::ObserveError)
                } else {
                    (SessionPhase::Closed, SessionAction::Close)
                }
            },
            _ => (SessionPhase::Closed, SessionAction::Close),
        };
        self.phase = next;
        action
    }
}

/// A closed session stays closed, whatever happens.
pub proof fn law_closed_is_final(ev: SessionEvent)
    ensures
        spec_session_step(SessionPhase::Closed, ev) == (SessionPhase::Closed, SessionAction::Close),
{
}

/// A message that could not be sent ends the session.
pub proof fn law_failed_send_closes(p: SessionPhase)
    ensures
        spec_session_step(p, SessionEvent::Sent { ok: false }) == (SessionPhase::Closed, SessionAction::Close),
{
}

/// Errors are forwarded only after readiness was announced: only a
/// forwarding phase sends an error message, and a session enters the
/// forwarding phases only from another forwarding phase or right after a
/// status message saying "ready" was sent.
pub proof fn law_errors_only_after_ready(p: SessionPhase, ev: SessionEvent)
    ensures
        spec_session_step(p, ev).1 matches SessionAction::Send(ServerMessage::Error { .. })
            ==> p == SessionPhase::ObservingError,
        is_forwarding(spec_session_step(p, ev).0) && !is_forwarding(p) ==> {
            &&& (p == SessionPhase::SendingGreeting { ready: true } || p == SessionPhase::SendingReady)
            &&& ev == SessionEvent::Sent { ok: true }
        },
{
}

/// The next phase always expects the event that the action yields: waiting
/// for an error change leads to the phase that takes that change, reading
/// the error to the phase that takes the value read, waiting for readiness
/// to the phase that takes the readiness change, an error message to the
/// phase that takes its send result, a later status message to the phase
/// that takes its send result, and a session ends exactly when it says so.
pub proof fn law_next_phase_expects_action_event(p: SessionPhase, ev: SessionEvent)
    ensures
        spec_session_step(p, ev).1 is WaitErrorChange ==> spec_session_step(p, ev).0
            == SessionPhase::AwaitingErrorChange,
        spec_session_step(p, ev).1 is ObserveError ==> spec_session_step(p, ev).0
            == SessionPhase::ObservingError,
        spec_session_step(p, ev).1 is WaitReady ==> spec_session_step(p, ev).0
            == SessionPhase::AwaitingReady,
        spec_session_step(p, ev).1 matches SessionAction::Send(ServerMessage::Error { .. })
            ==> spec_session_step(p, ev).0 == SessionPhase::SendingError,
        spec_session_step(p, ev).1 matches SessionAction::Send(ServerMessage::Status { .. })
            ==> spec_session_step(p, ev).0 == SessionPhase::SendingReady,
        (spec_session_step(p, ev).1 is Close) == (spec_session_step(p, ev).0 == SessionPhase::Closed),
{
}

/// Errors keep being forwarded for as long as sends succeed and the error
/// channel stays open: after any error was forwarded and sent, a change of
/// the node's error leads to reading it again, and the next error read is
/// forwarded with its own text.
pub proof fn law_errors_keep_being_forwarded(first: NodeError, next: NodeError)
    ensures
        ({
            let (p1, a1) = spec_session_step(
                SessionPhase::ObservingError,
                SessionEvent::ErrorObserved(Some(first)),
            );
            let (p2, a2) = spec_session_step(p1, SessionEvent::Sent { ok: true });
            let (p3, a3) = spec_session_step(p2, SessionEvent::ErrorChanged { open: true });
            let (p4, a4) = spec_session_step(p3, SessionEvent::ErrorObserved(Some(next)));
            &&& a1 matches SessionAction::Send(ServerMessage::Error { error }) && error@
                == first.spec_message()
            &&& a2 is WaitErrorChange
            &&& a3 is ObserveError
            &&& p3 == SessionPhase::ObservingError
            &&& a4 matches SessionAction::Send(ServerMessage::Error { error }) && error@
                == next.spec_message()
            &&& p4 == SessionPhase::SendingError
        }),
        ({
            let (p1, a1) = spec_session_step(SessionPhase::ObservingError, SessionEvent::ErrorObserved(None));
            let (p2, a2) = spec_session_step(p1, SessionEvent::ErrorChanged { open: true });
            &&& a1 is WaitErrorChange
            &&& a2 is ObserveError
            &&& p2 == SessionPhase::ObservingError
        }),
{
}

/// A client that connects before the server is ready is told so, then told
/// when it becomes ready, and from then on gets the node's errors: after the
/// "ready" status is sent, the current error is read and forwarded with its
/// own text.
pub proof fn law_ready_then_errors(err: NodeError)
    ensures
        ({
            let p0 = SessionPhase::SendingGreeting { ready: false };
            let (p1, a1) = spec_session_step(p0, SessionEvent::Sent { ok: true });
            let (p2, a2) = spec_session_step(p1, SessionEvent::ReadyChanged(Some(true)));
            let (p3, a3) = spec_session_step(p2, SessionEvent::Sent { ok: true });
            let (p4, a4) = spec_session_step(p3, SessionEvent::ErrorObserved(Some(err)));
            &&& a1 is WaitReady
            &&& a2 == SessionAction::Send(ServerMessage::Status { ready: true })
            &&& a3 is ObserveError
            &&& a4 matches SessionAction::Send(ServerMessage::Error { error }) && error@
                == err.spec_message()
            &&& p4 == SessionPhase::SendingError
        }),
        ({
            let (p1, a1) = spec_session_step(
                SessionPhase::SendingGreeting { ready: true },
                SessionEvent::Sent { ok: true },
            );
            let (p2, a2) = spec_session_step(p1, SessionEvent::ErrorObserved(Some(err)));
            &&& a1 is ObserveError
            &&& a2 matches SessionAction::Send(ServerMessage::Error { error }) && error@
                == err.spec_message()
        }),
{
}

/// Every observed node error is forwarded with its own text.
pub proof fn law_error_forwarded_with_text(err: NodeError)
    ensures
        spec_session_step(SessionPhase::ObservingError, SessionEvent::ErrorObserved(Some(err)))
            == (SessionPhase::SendingError, SessionAction::Send(ServerMessage::Error { error: spec_error_text(err) })),
        spec_error_text(err)@ == err.spec_message(),
{
}

} // verus!
