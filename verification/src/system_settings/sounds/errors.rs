//! The failures that the controllers report.
use vstd::prelude::*;

verus! {

/// Why a connection was not made.
#[derive(Clone, Copy, Debug, PartialEq, Eq, Structural)]
pub enum ConnectError {
    /// The server reported that the handshake failed.
    HandshakeFailed,
    /// The connection dropped before the context was ready.
    Terminated,
}

/// Why a call to a controller gave no result.
#[derive(Clone, Copy, Debug, PartialEq, Eq, Structural)]
pub enum ControlError {
    /// A listing or a lookup ended without the information asked for: the
    /// server reported an error, or the connection was lost.
    NoInfo,
    /// A lookup ran to its end and the server reported no such item.
    NotFound,
    /// The server did not make the change asked for.
    SetFailed,
}

impl ControlError {
    /// The failure in words.
    pub fn message(&self) -> (text: String)
        ensures
            text@ == match *self {
                ControlError::NoInfo => "no information from the server"@,
                ControlError::NotFound => "no such item"@,
                ControlError::SetFailed => "the server refused the change"@,
            },
    {
        match self {
            ControlError::NoInfo => "no information from the server".to_owned(),
            ControlError::NotFound => "no such item".to_owned(),
            ControlError::SetFailed => "the server refused the change".to_owned(),
        }
    }
}

} // verus!
