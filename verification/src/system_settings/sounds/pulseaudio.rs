//! The state of the connection to the server and what the server says of
//! itself.
use vstd::prelude::*;

verus! {

/// Where the connection stands.
#[derive(Clone, Copy, Debug, PartialEq, Eq, Structural)]
pub enum State {
    /// The handshake is under way.
    Connecting,
    /// The server accepted the client.
    Connected,
    /// The handshake failed or the connection was lost.
    Error,
}

/// What the client context reports of itself.
#[derive(Clone, Copy, Debug, PartialEq, Eq, Structural)]
pub enum ContextState {
    Unconnected,
    Connecting,
    Authorizing,
    SettingName,
    Ready,
    Failed,
    Terminated,
}

/// The state of the connection once the context has reported `context`:
/// ready connects, failure and termination end in error, and the steps of
/// the handshake change nothing.
pub open spec fn state_after(state: State, context: ContextState) -> State {
    match context {
        ContextState::Ready => State::Connected,
        ContextState::Failed => State::Error,
        ContextState::Terminated => State::Error,
        _ => state,
    }
}

/// The state callback: the state of the connection after the context
/// reported `context`.
pub fn state_cb(state: State, context: ContextState) -> (next: State)
    ensures
        next == state_after(state, context),
{
    match context {
        ContextState::Ready => State::Connected,
        ContextState::Failed => State::Error,
        ContextState::Terminated => State::Error,
        _ => state,
    }
}

/// The names of the devices that the server uses where none is named.
#[derive(Debug, PartialEq, Eq)]
pub struct ServerInfo {
    pub default_source_name: Option<String>,
    pub default_sink_name: Option<String>,
}

impl ServerInfo {
    /// A record with neither name known.
    pub fn new() -> (info: ServerInfo)
        ensures
            info.default_source_name is None,
            info.default_sink_name is None,
    {
        ServerInfo { default_source_name: None, default_sink_name: None }
    }
}

} // verus!
