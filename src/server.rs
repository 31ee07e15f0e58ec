use vstd::prelude::*;

use crate::session::Outcome;

verus! {

/// How one accepted connection ended.
#[derive(Clone, Copy, Debug, PartialEq, Eq, Structural)]
pub enum SessionEnd {
    /// The auth gate refused the handshake; no target was dialled.
    Unauthorized,
    /// The protocol upgrade itself failed; no target was dialled.
    HandshakeFailed,
    /// The upgrade succeeded but the target could not be reached.
    DialFailed,
    /// The relay ran and ended with this outcome.
    Relayed(Outcome),
}

/// Where one accepted connection stands.
#[derive(Clone, Copy, Debug, PartialEq, Eq, Structural)]
pub enum Phase {
    Handshaking,
    Dialing,
    Relaying,
    Closed(SessionEnd),
}

/// What happened to one accepted connection.
#[derive(Clone, Copy, Debug, PartialEq, Eq, Structural)]
pub enum ConnEvent {
    /// The handshake was refused by the auth gate.
    Rejected,
    /// The handshake failed for another reason.
    HandshakeFailed,
    /// The handshake completed: the caller's message stream is up.
    Upgraded,
    /// The target address answered: the byte stream is up.
    Dialed,
    DialFailed,
    RelayEnded(Outcome),
}

/// What the driver of a connection does next.
#[derive(Clone, Copy, Debug, PartialEq, Eq, Structural)]
pub enum ConnAction {
    /// Dial the target address.
    Dial,
    /// Hand both endpoints to the relay.
    StartRelay,
    /// Release what is left of the connection and report how it ended.
    Finish(SessionEnd),
    /// The event does not apply in this phase.
    Ignore,
}

/// The lifecycle of one accepted connection: handshake (with the auth gate),
/// then dial, then relay, then closed.
pub open spec fn conn_next(p: Phase, e: ConnEvent) -> (Phase, ConnAction) {
    match (p, e) {
        (Phase::Handshaking, ConnEvent::Rejected) => (
            Phase::Closed(SessionEnd::Unauthorized),
            ConnAction::Finish(SessionEnd::Unauthorized),
        ),
        (Phase::Handshaking, ConnEvent::HandshakeFailed) => (
            Phase::Closed(SessionEnd::HandshakeFailed),
            ConnAction::Finish(SessionEnd::HandshakeFailed),
        ),
        (Phase::Handshaking, ConnEvent::Upgraded) => (Phase::Dialing, ConnAction::Dial),
        (Phase::Dialing, ConnEvent::Dialed) => (Phase::Relaying, ConnAction::StartRelay),
        (Phase::Dialing, ConnEvent::DialFailed) => (
            Phase::Closed(SessionEnd::DialFailed),
            ConnAction::Finish(SessionEnd::DialFailed),
        ),
        (Phase::Relaying, ConnEvent::RelayEnded(o)) => (
            Phase::Closed(SessionEnd::Relayed(o)),
            ConnAction::Finish(SessionEnd::Relayed(o)),
        ),
        _ => (p, ConnAction::Ignore),
    }
}

/// One accepted connection.
pub struct Connection {
    phase: Phase,
}

impl View for Connection {
    type V = Phase;

    closed spec fn view(&self) -> Phase {
        self.phase
    }
}

impl Connection {
    /// A connection just accepted, about to be upgraded.
    pub fn new() -> (r: Connection)
        ensures
            r@ == Phase::Handshaking,
    {
        Connection { phase: Phase::Handshaking }
    }

    pub fn phase(&self) -> (r: Phase)
        ensures
            r == self@,
    {
        self.phase
    }

    /// Advances the connection on event `e`.
    pub fn handle(&mut self, e: ConnEvent) -> (r: ConnAction)
        ensures
            (final(self)@, r) == conn_next(old(self)@, e),
    {
        let (next, action) = match (self.phase, e) {
            (Phase::Handshaking, ConnEvent::Rejected) => (
                Phase::Closed(SessionEnd::Unauthorized),
                ConnAction::Finish(SessionEnd::Unauthorized),
            ),
            (Phase::Handshaking, ConnEvent::HandshakeFailed) => (
                Phase::Closed(SessionEnd::HandshakeFailed),
                ConnAction::Finish(SessionEnd::HandshakeFailed),
            ),
            (Phase::Handshaking, ConnEvent::Upgraded) => (Phase::Dialing, ConnAction::Dial),
            (Phase::Dialing, ConnEvent::Dialed) => (Phase::Relaying, ConnAction::StartRelay),
            (Phase::Dialing, ConnEvent::DialFailed) => (
                Phase::Closed(SessionEnd::DialFailed),
                ConnAction::Finish(SessionEnd::DialFailed),
            ),
            (Phase::Relaying, ConnEvent::RelayEnded(o)) => (
                Phase::Closed(SessionEnd::Relayed(o)),
                ConnAction::Finish(SessionEnd::Relayed(o)),
            ),
            (p, _) => (p, ConnAction::Ignore),
        };
        self.phase = next;
        action
    }
}

/// Where the listener stands.
#[derive(Clone, Copy, Debug, PartialEq, Eq, Structural)]
pub enum ListenerState {
    Listening,
    /// A fatal accept error stopped the listener.
    Stopped,
}

#[derive(Clone, Copy, Debug, PartialEq, Eq, Structural)]
pub enum ListenerEvent {
    /// A raw connection was accepted.
    Accepted,
    AcceptFailed,
    /// One of the spawned connections ended.
    SessionEnded(SessionEnd),
}

#[derive(Clone, Copy, Debug, PartialEq, Eq, Structural)]
pub enum ListenerAction {
    /// Run a new, independent connection for the accepted stream.
    Spawn,
    /// Report how one connection ended; the listener goes on.
    Report(SessionEnd),
    /// Stop serving: the error is fatal to the listener.
    Shutdown,
}

/// The listener's rule: it accepts until an accept fails, and what befalls a
/// single connection never changes it.
pub open spec fn listener_next(s: ListenerState, e: ListenerEvent) -> (ListenerState, ListenerAction) {
    match s {
        ListenerState::Stopped => (ListenerState::Stopped, ListenerAction::Shutdown),
        ListenerState::Listening => match e {
            ListenerEvent::Accepted => (ListenerState::Listening, ListenerAction::Spawn),
            ListenerEvent::AcceptFailed => (ListenerState::Stopped, ListenerAction::Shutdown),
            ListenerEvent::SessionEnded(end) => (
                ListenerState::Listening,
                ListenerAction::Report(end),
            ),
        },
    }
}

/// The listener of the server role.
pub struct Listener {
    state: ListenerState,
}

impl View for Listener {
    type V = ListenerState;

    closed spec fn view(&self) -> ListenerState {
        self.state
    }
}

impl Listener {
    /// A listener bound and ready to accept.
    pub fn new() -> (r: Listener)
        ensures
            r@ == ListenerState::Listening,
    {
        Listener { state: ListenerState::Listening }
    }

    pub fn state(&self) -> (r: ListenerState)
        ensures
            r == self@,
    {
        self.state
    }

    /// Advances the listener on event `e`.
    pub fn handle(&mut self, e: ListenerEvent) -> (r: ListenerAction)
        ensures
            (final(self)@, r) == listener_next(old(self)@, e),
    {
        match self.state {
            ListenerState::Stopped => ListenerAction::Shutdown,
            ListenerState::Listening => match e {
                ListenerEvent::Accepted => ListenerAction::Spawn,
                ListenerEvent::AcceptFailed => {
                    self.state = ListenerState::Stopped;
                    ListenerAction::Shutdown
                },
                ListenerEvent::SessionEnded(end) => ListenerAction::Report(end),
            },
        }
    }
}

/// A connection that has closed stays closed: no later event makes it dial,
/// relay or report a second time.
pub proof fn lemma_closed_is_final(end: SessionEnd, e: ConnEvent)
    ensures
        conn_next(Phase::Closed(end), e) == (Phase::Closed(end), ConnAction::Ignore),
{
}

/// A refused handshake closes the connection before the target is dialled,
/// and the target is dialled only after a completed upgrade.
pub proof fn lemma_dial_needs_upgrade(p: Phase, e: ConnEvent)
    ensures
        conn_next(Phase::Handshaking, ConnEvent::Rejected) == (
            Phase::Closed(SessionEnd::Unauthorized),
            ConnAction::Finish(SessionEnd::Unauthorized),
        ),
        conn_next(p, e).1 == ConnAction::Dial ==> p == Phase::Handshaking && e
            == ConnEvent::Upgraded,
{
}

/// A dial failure after a successful handshake ends that connection alone:
/// the listener keeps listening and spawns the next accepted connection,
/// which can go through handshake, dial and relay again.
pub proof fn lemma_dial_failure_is_local()
    ensures
        conn_next(Phase::Dialing, ConnEvent::DialFailed) == (
            Phase::Closed(SessionEnd::DialFailed),
            ConnAction::Finish(SessionEnd::DialFailed),
        ),
        listener_next(ListenerState::Listening, ListenerEvent::SessionEnded(SessionEnd::DialFailed))
            == (ListenerState::Listening, ListenerAction::Report(SessionEnd::DialFailed)),
        listener_next(ListenerState::Listening, ListenerEvent::Accepted) == (
            ListenerState::Listening,
            ListenerAction::Spawn,
        ),
        conn_next(Phase::Handshaking, ConnEvent::Upgraded) == (Phase::Dialing, ConnAction::Dial),
        conn_next(Phase::Dialing, ConnEvent::Dialed) == (Phase::Relaying, ConnAction::StartRelay),
{
}

/// No ending of a single connection, of any kind, stops the listener.
pub proof fn lemma_session_errors_stay_local(end: SessionEnd)
    ensures
        listener_next(ListenerState::Listening, ListenerEvent::SessionEnded(end)).0
            == ListenerState::Listening,
{
}

} // verus!
