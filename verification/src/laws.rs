//! What holds of every run of the retry protocol.
//!
//! A run is the sequence of events that a driver reports to one operation,
//! from the operation's first poll on. The laws below hold whatever the
//! driver reports and in whatever order.

use crate::error::would_block;
use crate::error::Error;
use crate::operation::step;
use crate::operation::Action;
use crate::operation::Call;
use crate::operation::Direction;
use crate::operation::Event;
use crate::operation::Poll;
use crate::operation::State;
use vstd::prelude::*;

verus! {

/// The state of an operation that has not started and then saw `events`, one
/// after the other.
pub open spec fn run<T>(dir: Direction, call: Call, events: Seq<Event<T>>) -> State
    decreases events.len(),
{
    if events.len() == 0 {
        State::NotStarted
    } else {
        step(dir, call, run(dir, call, events.drop_last()), events.last()).0
    }
}

/// What the operation asked for on the last of `events`.
pub open spec fn last_action<T>(dir: Direction, call: Call, events: Seq<Event<T>>) -> Action<T>
    recommends
        events.len() > 0,
{
    step(dir, call, run(dir, call, events.drop_last()), events.last()).1
}

/// How often the operation asked for an attempt of its call.
pub open spec fn attempts<T>(dir: Direction, call: Call, events: Seq<Event<T>>) -> nat
    decreases events.len(),
{
    if events.len() == 0 {
        0
    } else {
        attempts(dir, call, events.drop_last()) + if last_action(dir, call, events) is Attempt {
            1nat
        } else {
            0nat
        }
    }
}

/// How often the operation suspended.
pub open spec fn suspensions<T>(dir: Direction, call: Call, events: Seq<Event<T>>) -> nat
    decreases events.len(),
{
    if events.len() == 0 {
        0
    } else {
        suspensions(dir, call, events.drop_last()) + if last_action(dir, call, events)
            is Suspend {
            1nat
        } else {
            0nat
        }
    }
}

/// How often the operation handed out a result.
pub open spec fn results<T>(dir: Direction, call: Call, events: Seq<Event<T>>) -> nat
    decreases events.len(),
{
    if events.len() == 0 {
        0
    } else {
        results(dir, call, events.drop_last()) + if last_action(dir, call, events) is Finish {
            1nat
        } else {
            0nat
        }
    }
}

/// Whether `event` is the reactor's word that the direction is ready.
pub open spec fn is_notification<T>(event: Event<T>) -> bool {
    event matches Event::Readiness(Poll::Ready(Ok(_)))
}

/// How many of `events` are the reactor's word that the direction is ready.
pub open spec fn notifications<T>(events: Seq<Event<T>>) -> nat
    decreases events.len(),
{
    if events.len() == 0 {
        0
    } else {
        notifications(events.drop_last()) + if is_notification(events.last()) {
            1nat
        } else {
            0nat
        }
    }
}

/// Whether `event`, reported to an operation in `state`, is the result of an
/// attempt that took something from the socket or gave something to it:
/// any result but "would block".
pub open spec fn is_effective<T>(state: State, event: Event<T>) -> bool {
    state == State::Attempting && match event {
        Event::Attempted(Ok(_)) => true,
        Event::Attempted(Err(e)) => !would_block(e),
        _ => false,
    }
}

/// A finished operation stays finished and asks for nothing more.
pub proof fn lemma_complete_is_final<T>(dir: Direction, call: Call, event: Event<T>)
    ensures
        step(dir, call, State::Complete, event) == (State::Complete, Action::<T>::Ignore),
{
}

/// A result is handed out on exactly the step that finishes the operation.
pub proof fn lemma_finish_completes<T>(dir: Direction, call: Call, state: State, event: Event<T>)
    ensures
        step(dir, call, state, event).1 is Finish <==> state != State::Complete && step(
            dir,
            call,
            state,
            event,
        ).0 == State::Complete,
{
}

/// "Would block" never reaches the caller as the result of an attempt: the
/// operation clears readiness instead and goes on.
pub proof fn lemma_would_block_is_absorbed<T>(
    dir: Direction,
    call: Call,
    state: State,
    result: Result<T, Error>,
)
    requires
        result matches Err(e) && would_block(e),
    ensures
        !(step(dir, call, state, Event::Attempted(result)).1 is Finish),
        state == State::Attempting ==> step(dir, call, state, Event::Attempted(result)) == (
            State::Clearing,
            Action::<T>::ClearReady(dir),
        ),
{
}

/// Every failure but "would block", and every success, ends the operation
/// with just that result.
pub proof fn lemma_result_is_verbatim<T>(
    dir: Direction,
    call: Call,
    result: Result<T, Error>,
)
    requires
        !(result matches Err(e) && would_block(e)),
    ensures
        step(dir, call, State::Attempting, Event::Attempted(result)) == (
            State::Complete,
            Action::Finish(result),
        ),
{
}

/// No wake-up is lost: an operation suspends only on the reactor's word that
/// the direction is not ready, or that its readiness was cleared. Either
/// way the reactor holds the waker when the operation goes to sleep.
pub proof fn lemma_suspends_only_when_armed<T>(
    dir: Direction,
    call: Call,
    state: State,
    event: Event<T>,
)
    requires
        step(dir, call, state, event).1 is Suspend,
    ensures
        event matches Event::Readiness(Poll::Pending) || event matches Event::Cleared(Ok(_)),
{
}

/// An operation asks the reactor about its own direction only, and attempts
/// its own call only: a receive and a send on one socket never wait for each
/// other.
pub proof fn lemma_directions_are_independent<T>(
    dir: Direction,
    call: Call,
    state: State,
    event: Event<T>,
)
    ensures
        match step(dir, call, state, event).1 {
            Action::PollReady(d) => d == dir,
            Action::ClearReady(d) => d == dir,
            Action::Attempt(c) => c == call,
            _ => true,
        },
{
}

/// Every operation hands out at most one result, and has handed out one
/// exactly when it is finished.
pub proof fn lemma_one_result<T>(dir: Direction, call: Call, events: Seq<Event<T>>)
    ensures
        results(dir, call, events) == if run(dir, call, events) == State::Complete {
            1nat
        } else {
            0nat
        },
    decreases events.len(),
{
    if events.len() > 0 {
        lemma_one_result(dir, call, events.drop_last());
        lemma_finish_completes(dir, call, run(dir, call, events.drop_last()), events.last());
    }
}

/// No busy spinning: the call is attempted once for each time that the
/// reactor called the direction ready, at most, and between two attempts the
/// operation suspends. So an operation that awaits a poll or the reactor's
/// word has suspended as often as it has attempted its call, at least.
pub proof fn lemma_attempts_are_bounded<T>(dir: Direction, call: Call, events: Seq<Event<T>>)
    ensures
        attempts(dir, call, events) <= notifications(events),
        attempts(dir, call, events) <= suspensions(dir, call, events) + 1,
        run(dir, call, events) == State::NotStarted || run(dir, call, events) == State::Checking
            || run(dir, call, events) == State::AwaitingReadiness || run(dir, call, events)
            == State::Retrying ==> attempts(dir, call, events) <= suspensions(dir, call, events),
    decreases events.len(),
{
    if events.len() > 0 {
        lemma_attempts_are_bounded(dir, call, events.drop_last());
    }
}

/// An operation that is given up before it finished took nothing from the
/// socket and gave it nothing: every attempt that it made would have
/// blocked. What arrives later is there in full for the operation that
/// comes next.
pub proof fn lemma_unfinished_had_no_effect<T>(
    dir: Direction,
    call: Call,
    events: Seq<Event<T>>,
    i: int,
)
    requires
        run(dir, call, events) != State::Complete,
        0 <= i < events.len(),
    ensures
        !is_effective(run(dir, call, events.take(i)), events[i]),
    decreases events.len(),
{
    let before = events.drop_last();
    lemma_complete_is_final(dir, call, events.last());
    if i == events.len() - 1 {
        assert(events.take(i) == before);
    } else {
        assert(events.take(i) == before.take(i));
        lemma_unfinished_had_no_effect(dir, call, before, i);
    }
}

} // verus!
