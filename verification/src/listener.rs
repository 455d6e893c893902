//! The transport listener: one well-known virtual-socket endpoint that serves
//! one connection at a time.
//!
//! Setting the endpoint up either works or ends the process; once it listens,
//! nothing that happens to a single connection stops it.

use vstd::prelude::*;

verus! {

/// The port on which the agent listens, for callers of any context id.
pub const VSOCK_PORT: u32 = 52;

/// How many connections may wait to be accepted.
pub const BACKLOG: i32 = 1;

/// Where the listener stands.
#[derive(Debug, Clone, Copy, PartialEq, Eq, Structural)]
pub enum ListenerState {
    /// Creating the socket.
    Creating,
    /// Binding it to the port.
    Binding,
    /// Starting to listen.
    Listening,
    /// Waiting for the next connection.
    Accepting,
    /// Serving the exchange of an accepted connection.
    Serving,
    /// Set-up failed: the process ends.
    Stopped,
}

/// What the caller is to do next.
#[derive(Debug, Clone, Copy, PartialEq, Eq, Structural)]
pub enum ListenerAction {
    /// Create a stream socket of the virtual-socket family.
    CreateSocket,
    /// Bind it to `port`, for any context id.
    Bind { port: u32 },
    /// Listen with this backlog.
    Listen { backlog: i32 },
    /// Block until a client connects.
    Accept,
    /// Run one exchange on the accepted connection, and close it.
    Serve,
    /// End the process with the failure just reported.
    Exit,
}

/// The step that a report makes: whether the action just taken succeeded.
/// A failed set-up step stops the listener. A failed accept is tried again,
/// and the end of an exchange, good or bad, leads to the next accept.
pub open spec fn listener_transition(state: ListenerState, succeeded: bool) -> (
    ListenerState,
    ListenerAction,
) {
    match state {
        ListenerState::Creating => if succeeded {
            (ListenerState::Binding, ListenerAction::Bind { port: VSOCK_PORT })
        } else {
            (ListenerState::Stopped, ListenerAction::Exit)
        },
        ListenerState::Binding => if succeeded {
            (ListenerState::Listening, ListenerAction::Listen { backlog: BACKLOG })
        } else {
            (ListenerState::Stopped, ListenerAction::Exit)
        },
        ListenerState::Listening => if succeeded {
            (ListenerState::Accepting, ListenerAction::Accept)
        } else {
            (ListenerState::Stopped, ListenerAction::Exit)
        },
        ListenerState::Accepting => if succeeded {
            (ListenerState::Serving, ListenerAction::Serve)
        } else {
            (ListenerState::Accepting, ListenerAction::Accept)
        },
        ListenerState::Serving => (ListenerState::Accepting, ListenerAction::Accept),
        ListenerState::Stopped => (ListenerState::Stopped, ListenerAction::Exit),
    }
}

/// The listener at its start: the first thing to do is to create the socket.
pub fn listener_start() -> (r: (ListenerState, ListenerAction))
    ensures
        r == (ListenerState::Creating, ListenerAction::CreateSocket),
{
    (ListenerState::Creating, ListenerAction::CreateSocket)
}

/// Takes the report on the action just taken and says what to do next.
pub fn listener_step(state: ListenerState, succeeded: bool) -> (r: (ListenerState, ListenerAction))
    ensures
        r == listener_transition(state, succeeded),
{
    match state {
        ListenerState::Creating => if succeeded {
            (ListenerState::Binding, ListenerAction::Bind { port: VSOCK_PORT })
        } else {
            (ListenerState::Stopped, ListenerAction::Exit)
        },
        ListenerState::Binding => if succeeded {
            (ListenerState::Listening, ListenerAction::Listen { backlog: BACKLOG })
        } else {
            (ListenerState::Stopped, ListenerAction::Exit)
        },
        ListenerState::Listening => if succeeded {
            (ListenerState::Accepting, ListenerAction::Accept)
        } else {
            (ListenerState::Stopped, ListenerAction::Exit)
        },
        ListenerState::Accepting => if succeeded {
            (ListenerState::Serving, ListenerAction::Serve)
        } else {
            (ListenerState::Accepting, ListenerAction::Accept)
        },
        ListenerState::Serving => (ListenerState::Accepting, ListenerAction::Accept),
        ListenerState::Stopped => (ListenerState::Stopped, ListenerAction::Exit),
    }
}

/// Whether the listener has been set up and takes connections.
pub open spec fn listening(state: ListenerState) -> bool {
    state == ListenerState::Accepting || state == ListenerState::Serving
}

/// Once the listener takes connections it never stops: neither a failed
/// accept nor a failed exchange ends the process.
pub proof fn lemma_listener_never_stops(state: ListenerState, succeeded: bool)
    requires
        listening(state),
    ensures
        listening(listener_transition(state, succeeded).0),
        listener_transition(state, succeeded).1 != ListenerAction::Exit,
{
}

/// A failure while the listener is being set up ends the process.
pub proof fn lemma_failed_setup_is_fatal(state: ListenerState)
    requires
        state == ListenerState::Creating || state == ListenerState::Binding || state
            == ListenerState::Listening,
    ensures
        listener_transition(state, false) == (ListenerState::Stopped, ListenerAction::Exit),
{
}

/// Connections are served one at a time: a connection is accepted only
/// after the exchange of the one before it has ended.
pub proof fn lemma_one_connection_at_a_time(state: ListenerState, succeeded: bool)
    ensures
        listener_transition(state, succeeded).1 == ListenerAction::Serve ==> state
            == ListenerState::Accepting && succeeded,
        state == ListenerState::Serving ==> listener_transition(state, succeeded).1
            == ListenerAction::Accept,
{
}

} // verus!
