//! The handle on the connection to the server: the handshake that makes it,
//! and the waiting that every later call does on it.
use vstd::prelude::*;
use super::errors::ConnectError;
use super::operation::{
    connection_lost, is_connection_lost, wait, wait_outcome, IterateResult, OperationError,
    OperationState, Round,
};
use super::pulseaudio::{state_after, state_cb, ContextState, State};

verus! {

/// One round of the handshake: how the advance of the reactor ended, and
/// what the context reported after it.
#[derive(Clone, Copy, Debug, PartialEq, Eq, Structural)]
pub struct Handshake {
    pub iterated: IterateResult,
    pub context: ContextState,
}

/// How a handshake ends that sees `rounds` from index `from` on: with the
/// first round in which the connection is lost or the context is ready,
/// failed or terminated; `None` where those rounds leave it under way.
pub open spec fn connect_outcome(rounds: Seq<Handshake>, from: int) -> Option<
    Result<(), ConnectError>,
>
    decreases rounds.len() - from,
{
    if from < 0 || from >= rounds.len() {
        None
    } else if connection_lost(rounds[from].iterated) {
        Some(Err(ConnectError::Terminated))
    } else {
        match rounds[from].context {
            ContextState::Ready => Some(Ok(())),
            ContextState::Failed => Some(Err(ConnectError::HandshakeFailed)),
            ContextState::Terminated => Some(Err(ConnectError::Terminated)),
            _ => connect_outcome(rounds, from + 1),
        }
    }
}

/// The connection of one controller to the server.
#[derive(Debug)]
pub struct Handler {
    client_name: String,
    state: State,
}

impl Handler {
    /// The name under which the client presents itself.
    pub closed spec fn spec_client_name(&self) -> Seq<char> {
        self.client_name@
    }

    /// Where the connection stands.
    pub closed spec fn spec_state(&self) -> State {
        self.state
    }

    /// A handle whose handshake is still to be made.
    pub fn new(client_name: &str) -> (handler: Handler)
        ensures
            handler.spec_client_name() == client_name@,
            handler.spec_state() == State::Connecting,
    {
        Handler { client_name: client_name.to_owned(), state: State::Connecting }
    }

    /// The name under which the client presents itself.
    pub fn client_name(&self) -> (name: &String)
        ensures
            name@ == self.spec_client_name(),
    {
        &self.client_name
    }

    /// Where the connection stands.
    pub fn state(&self) -> (state: State)
        ensures
            state == self.spec_state(),
    {
        self.state
    }

    /// Whether the server has accepted the client.
    pub fn is_connected(&self) -> (b: bool)
        ensures
            b == (self.spec_state() == State::Connected),
    {
        match self.state {
            State::Connected => true,
            _ => false,
        }
    }

    /// Takes note of what the context reports of itself.
    pub fn context_changed(&mut self, context: ContextState)
        ensures
            final(self).spec_state() == state_after(old(self).spec_state(), context),
            final(self).spec_client_name() == old(self).spec_client_name(),
    {
        self.state = state_cb(self.state, context);
    }

    /// Makes the connection over the rounds that the reactor goes through,
    /// and returns with the first round that decides: a ready context gives
    /// the connected handle, a failed one `HandshakeFailed`, a terminated
    /// one or a lost connection `Terminated`. `None` says that the rounds
    /// given are used up and the handshake is still under way.
    pub fn connect(client_name: &str, rounds: &Vec<Handshake>) -> (r: Option<
        Result<Handler, ConnectError>,
    >)
        ensures
            match r {
                Some(Ok(handler)) => connect_outcome(rounds@, 0) == Some(
                    Ok::<(), ConnectError>(()),
                ) && handler.spec_state() == State::Connected && handler.spec_client_name()
                    == client_name@,
                Some(Err(e)) => connect_outcome(rounds@, 0) == Some(Err::<(), ConnectError>(e)),
                None => connect_outcome(rounds@, 0) is None,
            },
    {
        let mut handler = Handler::new(client_name);
        let mut k: usize = 0;
        while k < rounds.len()
            invariant
                k <= rounds.len(),
                connect_outcome(rounds@, k as int) == connect_outcome(rounds@, 0),
                handler.spec_client_name() == client_name@,
            decreases rounds.len() - k,
        {
            if is_connection_lost(rounds[k].iterated) {
                return Some(Err(ConnectError::Terminated));
            }
            handler.context_changed(rounds[k].context);
            match rounds[k].context {
                ContextState::Ready => {
                    return Some(Ok(handler));
                },
                ContextState::Failed => {
                    return Some(Err(ConnectError::HandshakeFailed));
                },
                ContextState::Terminated => {
                    return Some(Err(ConnectError::Terminated));
                },
                _ => {},
            }
            k = k + 1;
        }
        None
    }

    /// Waits on this connection for an operation that is in state `first`,
    /// over the rounds that the reactor goes through.
    pub fn wait_for_operation(&self, first: OperationState, rounds: &Vec<Round>) -> (r: Option<
        Result<(), OperationError>,
    >)
        ensures
            r == wait_outcome(first, rounds@, 0),
    {
        wait(first, rounds)
    }
}

/// A handshake does not end while the context is on its way: it goes on
/// exactly where no round lost the connection or saw the context ready,
/// failed or terminated.
pub proof fn lemma_connect_goes_on(rounds: Seq<Handshake>, from: int)
    requires
        0 <= from <= rounds.len(),
    ensures
        connect_outcome(rounds, from) is None <==> forall|k: int|
            from <= k < rounds.len() ==> !connection_lost(#[trigger] rounds[k].iterated) && !(
            rounds[k].context is Ready) && !(rounds[k].context is Failed) && !(
            rounds[k].context is Terminated),
    decreases rounds.len() - from,
{
    if from < rounds.len() {
        lemma_connect_goes_on(rounds, from + 1);
    }
}

} // verus!
