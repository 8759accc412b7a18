//! The life of one request to the server, and the waiting that turns its
//! asynchronous completion into a return.
use vstd::prelude::*;

verus! {

/// Where an operation stands.
#[derive(Clone, Copy, Debug, PartialEq, Eq, Structural)]
pub enum OperationState {
    /// The server has not answered yet.
    Running,
    /// The completion callback has run.
    Done,
    /// The operation was given up: the connection is gone.
    Cancelled,
}

/// Why a wait ended without the operation being done.
#[derive(Clone, Copy, Debug, PartialEq, Eq, Structural)]
pub enum OperationError {
    /// The connection was lost while the operation was pending.
    Cancelled,
}

/// How one advance of the reactor ended.
#[derive(Clone, Copy, Debug, PartialEq, Eq, Structural)]
pub enum IterateResult {
    /// It dispatched this many events.
    Success(u32),
    /// The loop was told to quit, with this value.
    Quit(i32),
    /// The loop failed, with this error code.
    Failed(i32),
}

/// One round of waiting: how the advance of the reactor ended, and where
/// the operation stood after it.
#[derive(Clone, Copy, Debug, PartialEq, Eq, Structural)]
pub struct Round {
    pub iterated: IterateResult,
    pub state: OperationState,
}

/// What the waiting caller does next.
#[derive(Clone, Copy, Debug, PartialEq, Eq)]
pub enum WaitStep {
    /// Advance the reactor once more.
    Iterate,
    /// Return to the caller with this result.
    Return(Result<(), OperationError>),
}

/// The step that follows from the operation's state: a running operation
/// is never returned from.
pub open spec fn step_for(state: OperationState) -> WaitStep {
    match state {
        OperationState::Running => WaitStep::Iterate,
        OperationState::Done => WaitStep::Return(Ok(())),
        OperationState::Cancelled => WaitStep::Return(Err(OperationError::Cancelled)),
    }
}

/// The reactor reported that the connection is closed.
pub open spec fn connection_lost(iterated: IterateResult) -> bool {
    !(iterated is Success)
}

/// How a wait ends that starts with the operation in state `state` and
/// then sees `rounds` from index `from` on; `None` where those rounds leave
/// the operation running, so that the wait goes on.
pub open spec fn wait_outcome(state: OperationState, rounds: Seq<Round>, from: int) -> Option<
    Result<(), OperationError>,
>
    decreases rounds.len() - from,
{
    match step_for(state) {
        WaitStep::Return(r) => Some(r),
        WaitStep::Iterate => if from < 0 || from >= rounds.len() {
            None
        } else if connection_lost(rounds[from].iterated) {
            Some(Err(OperationError::Cancelled))
        } else {
            wait_outcome(rounds[from].state, rounds, from + 1)
        },
    }
}

/// What to do when the operation is in state `state`.
pub fn next_step(state: OperationState) -> (step: WaitStep)
    ensures
        step == step_for(state),
{
    match state {
        OperationState::Running => WaitStep::Iterate,
        OperationState::Done => WaitStep::Return(Ok(())),
        OperationState::Cancelled => WaitStep::Return(Err(OperationError::Cancelled)),
    }
}

/// Whether the advance of the reactor showed the connection closed.
pub fn is_connection_lost(iterated: IterateResult) -> (lost: bool)
    ensures
        lost == connection_lost(iterated),
{
    match iterated {
        IterateResult::Success(_) => false,
        IterateResult::Quit(_) => true,
        IterateResult::Failed(_) => true,
    }
}

/// Waits for an operation over the rounds that the reactor goes through:
/// advances while the operation is running, and returns with the first
/// state that is not. `None` says that the rounds given are used up and the
/// operation is still running.
pub fn wait(first: OperationState, rounds: &Vec<Round>) -> (r: Option<Result<(), OperationError>>)
    ensures
        r == wait_outcome(first, rounds@, 0),
{
    let mut state = first;
    let mut k: usize = 0;
    loop
        invariant
            k <= rounds.len(),
            wait_outcome(state, rounds@, k as int) == wait_outcome(first, rounds@, 0),
        decreases rounds.len() - k,
    {
        match next_step(state) {
            WaitStep::Return(r) => {
                return Some(r);
            },
            WaitStep::Iterate => {
                if k >= rounds.len() {
                    return None;
                }
                if is_connection_lost(rounds[k].iterated) {
                    return Some(Err(OperationError::Cancelled));
                }
                state = rounds[k].state;
                k = k + 1;
            },
        }
    }
}

/// A wait does not end while the operation is pending: it goes on exactly
/// where the operation was running at the start and after every round, and
/// no round lost the connection.
pub proof fn lemma_wait_goes_on(state: OperationState, rounds: Seq<Round>, from: int)
    requires
        0 <= from <= rounds.len(),
    ensures
        wait_outcome(state, rounds, from) is None <==> (state is Running && forall|k: int|
            from <= k < rounds.len() ==> !connection_lost(#[trigger] rounds[k].iterated)
                && rounds[k].state is Running),
    decreases rounds.len() - from,
{
    if state is Running && from < rounds.len() {
        if !connection_lost(rounds[from].iterated) {
            lemma_wait_goes_on(rounds[from].state, rounds, from + 1);
        }
    }
}

/// A wait reports success only for an operation that is done.
pub proof fn lemma_wait_success(state: OperationState, rounds: Seq<Round>, from: int)
    requires
        0 <= from <= rounds.len(),
        wait_outcome(state, rounds, from) == Some(Ok::<(), OperationError>(())),
    ensures
        state is Done || exists|k: int| from <= k < rounds.len() && rounds[k].state is Done,
    decreases rounds.len() - from,
{
    if state is Running && from < rounds.len() && !connection_lost(rounds[from].iterated) {
        lemma_wait_success(rounds[from].state, rounds, from + 1);
        if !(rounds[from].state is Done) {
            let k = choose|k: int| from + 1 <= k < rounds.len() && rounds[k].state is Done;
            assert(from <= k < rounds.len() && rounds[k].state is Done);
        }
    }
}

} // verus!
