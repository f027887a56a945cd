//! One pending operation, and the retry protocol that carries it to its end.
//!
//! An operation is polled by the scheduler. On each poll the reactor is asked
//! whether the operation's direction is ready. If it is, the call is attempted
//! once. A result other than "would block" ends the operation. "Would block"
//! means that another waiter was faster: the direction's readiness is cleared,
//! so that the next notification arms it again, and the operation suspends.

use crate::addr::SocketAddr;
use crate::error::would_block;
use crate::error::Error;
use crate::opt::Level;
use crate::opt::Name;
use vstd::prelude::*;

verus! {

/// The two directions of a socket. Each has its own readiness.
#[derive(Clone, Copy, Debug, PartialEq, Eq, Structural)]
pub enum Direction {
    /// Receiving.
    Read,
    /// Sending.
    Write,
}

/// Whether a value is there yet.
#[derive(Debug, PartialEq, Eq)]
pub enum Poll<T> {
    /// It is there.
    Ready(T),
    /// It is not: the asker will be woken when it may be.
    Pending,
}

/// A call on the raw socket, named for the driver that makes it.
#[derive(Clone, Copy, Debug, PartialEq, Eq, Structural)]
pub enum Call {
    /// Bind the socket to the address.
    Bind { addr: SocketAddr },
    /// Ask for the address that the socket is bound to.
    LocalAddr,
    /// Receive one datagram into one buffer.
    RecvFrom,
    /// Receive one datagram into scattered segments, with `control` bytes of
    /// room for ancillary data.
    RecvMsg { control: usize },
    /// Send one buffer as one datagram to the address.
    SendTo { addr: SocketAddr },
    /// Send gathered segments as one datagram to the address, with `control`
    /// bytes of ancillary data.
    SendMsg { addr: SocketAddr, control: usize },
    /// Read the option.
    GetOption { level: Level, name: Name },
    /// Write the option.
    SetOption { level: Level, name: Name },
}

/// Where a pending operation stands.
#[derive(Clone, Copy, Debug, PartialEq, Eq, Structural)]
pub enum State {
    /// Nothing has been done yet. Awaits the first poll.
    NotStarted,
    /// The reactor has been asked about readiness. Awaits its answer.
    Checking,
    /// The direction was not ready and the operation is suspended. Awaits
    /// the poll that follows a notification.
    AwaitingReadiness,
    /// The call is being attempted. Awaits its result.
    Attempting,
    /// The attempt would have blocked and readiness is being cleared. Awaits
    /// the reactor's answer.
    Clearing,
    /// Readiness was cleared and the operation is suspended. Awaits the poll
    /// that follows a notification, and will then try again.
    Retrying,
    /// The operation has handed out its result.
    Complete,
}

/// What the driver reports to a pending operation.
#[derive(Debug, PartialEq, Eq)]
pub enum Event<T> {
    /// The scheduler polls the operation: for the first time, or after a wake.
    Polled,
    /// The reactor's answer to the question whether the direction is ready.
    Readiness(Poll<Result<(), Error>>),
    /// The result of one attempt of the call.
    Attempted(Result<T, Error>),
    /// The reactor's answer to the request to clear readiness.
    Cleared(Result<(), Error>),
}

/// What a pending operation asks of the driver.
#[derive(Debug, PartialEq, Eq)]
pub enum Action<T> {
    /// Ask the reactor whether the direction is ready, and leave the waker
    /// with it if not. Report with [`Event::Readiness`].
    PollReady(Direction),
    /// Make the call once. Report with [`Event::Attempted`].
    Attempt(Call),
    /// Clear the direction's readiness with the reactor. Report with
    /// [`Event::Cleared`].
    ClearReady(Direction),
    /// Return to the scheduler without a result. Report with
    /// [`Event::Polled`] when the scheduler polls again.
    Suspend,
    /// Hand the result to the caller. The operation is over.
    Finish(Result<T, Error>),
    /// Do nothing: the event was not the one awaited, and changed nothing.
    Ignore,
}

/// The retry protocol: where an operation in `state` goes on `event`, and
/// what it asks for. `dir` is the operation's direction and `call` the call
/// that it attempts.
pub open spec fn step<T>(dir: Direction, call: Call, state: State, event: Event<T>) -> (
    State,
    Action<T>,
) {
    match (state, event) {
        (State::NotStarted, Event::Polled) => (State::Checking, Action::PollReady(dir)),
        (State::AwaitingReadiness, Event::Polled) => (State::Checking, Action::PollReady(dir)),
        (State::Retrying, Event::Polled) => (State::Checking, Action::PollReady(dir)),
        (State::Checking, Event::Readiness(Poll::Pending)) => (
            State::AwaitingReadiness,
            Action::Suspend,
        ),
        (State::Checking, Event::Readiness(Poll::Ready(Ok(_)))) => (
            State::Attempting,
            Action::Attempt(call),
        ),
        (State::Checking, Event::Readiness(Poll::Ready(Err(e)))) => (
            State::Complete,
            Action::Finish(Err(e)),
        ),
        (State::Attempting, Event::Attempted(Ok(v))) => (State::Complete, Action::Finish(Ok(v))),
        (State::Attempting, Event::Attempted(Err(e))) => if would_block(e) {
            (State::Clearing, Action::ClearReady(dir))
        } else {
            (State::Complete, Action::Finish(Err(e)))
        },
        (State::Clearing, Event::Cleared(Ok(_))) => (State::Retrying, Action::Suspend),
        (State::Clearing, Event::Cleared(Err(e))) => (State::Complete, Action::Finish(Err(e))),
        _ => (state, Action::Ignore),
    }
}

/// What clearing a direction's readiness comes to: the operation is pending
/// again, unless the reactor failed.
pub open spec fn after_clear<T>(cleared: Result<(), Error>) -> Result<Poll<T>, Error> {
    match cleared {
        Ok(_) => Ok(Poll::Pending),
        Err(e) => Err(e),
    }
}

} // verus!
