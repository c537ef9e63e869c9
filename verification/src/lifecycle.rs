//! The life of a server: it starts, runs until it is told to stop, and has
//! then stopped for good.

use vstd::prelude::*;

verus! {

/// Where a server stands.
#[derive(Clone, Copy, Debug, PartialEq, Eq, Structural)]
pub enum ServerState {
    /// Binding to its address.
    Starting,
    /// Accepting requests and dispatching them.
    Running,
    /// No longer accepting requests.
    Stopped,
}

/// What happened to a server.
#[derive(Clone, Copy, Debug, PartialEq, Eq, Structural)]
pub enum ServerEvent {
    /// The address was bound.
    Bound,
    /// The address could not be bound.
    BindFailed,
    /// A shutdown was asked for.
    Shutdown,
}

/// What the one who runs the server has to do next.
#[derive(Clone, Copy, Debug, PartialEq, Eq, Structural)]
pub enum Effect {
    /// Accept requests.
    Accept,
    /// Give up, with a failure that the process reports when it exits.
    Fail,
    /// Accept nothing more, and let the requests in flight finish.
    Drain,
    /// Nothing.
    Ignore,
}

/// The state that follows `state` on `event`, and what is to be done. A
/// server starts running once its address is bound, and fails for good if it
/// cannot be; a running server stops on a shutdown; every other event
/// changes nothing.
pub open spec fn next_state(state: ServerState, event: ServerEvent) -> (ServerState, Effect) {
    match (state, event) {
        (ServerState::Starting, ServerEvent::Bound) => (ServerState::Running, Effect::Accept),
        (ServerState::Starting, ServerEvent::BindFailed) => (ServerState::Stopped, Effect::Fail),
        (ServerState::Running, ServerEvent::Shutdown) => (ServerState::Stopped, Effect::Drain),
        _ => (state, Effect::Ignore),
    }
}

/// Takes one step of a server's life.
pub fn step(state: ServerState, event: ServerEvent) -> (r: (ServerState, Effect))
    ensures
        r == next_state(state, event),
{
    match (state, event) {
        (ServerState::Starting, ServerEvent::Bound) => (ServerState::Running, Effect::Accept),
        (ServerState::Starting, ServerEvent::BindFailed) => (ServerState::Stopped, Effect::Fail),
        (ServerState::Running, ServerEvent::Shutdown) => (ServerState::Stopped, Effect::Drain),
        _ => (state, Effect::Ignore),
    }
}

/// The rank of a state in the order in which a server passes through them.
pub open spec fn rank(state: ServerState) -> nat {
    match state {
        ServerState::Starting => 0,
        ServerState::Running => 1,
        ServerState::Stopped => 2,
    }
}

/// A server never goes back: no event leads to an earlier state, a stopped
/// server stays stopped, and requests are accepted only by a step that
/// leaves the server running.
pub proof fn lemma_server_never_goes_back(state: ServerState, event: ServerEvent)
    ensures
        rank(next_state(state, event).0) >= rank(state),
        state == ServerState::Stopped ==> next_state(state, event) == (
            ServerState::Stopped,
            Effect::Ignore,
        ),
        next_state(state, event).1 == Effect::Accept ==> next_state(state, event).0
            == ServerState::Running,
{
}

} // verus!
