//! The scheduler as a state machine over plain mathematical values: its
//! states, the events that reach it, the actions it answers with, and the
//! invariant that every step keeps.

use vstd::prelude::*;
use vstd::multiset::Multiset;
use crate::connection::ConnectionError;
use crate::fatal::{connection_failure, status_of};
use crate::outcome::Outcome;
use crate::report::outcome_ids;

verus! {

/// Where a job stands.
#[derive(Debug, Clone, Copy, PartialEq, Eq, Hash, Structural)]
pub enum Phase {
    /// The job is loaded and nothing has started.
    Idle,
    /// Records are being handed out, as far as the limit allows.
    Dispatching,
    /// Every record has been handed out; some tasks are still running.
    Draining,
    /// The end: the report is final.
    Completed,
}

/// What the caller's loop tells the scheduler.
#[derive(Debug, Clone, Copy, PartialEq, Eq, Hash, Structural)]
pub enum Event {
    /// The client of the indexing service is ready.
    Connected,
    /// No client could be had.
    ConnectionFailed(ConnectionError),
    /// The task of the last `Launch` has been started.
    Launched,
    /// A task has ended with this outcome.
    Finished(Outcome),
}

/// What the scheduler asks the caller's loop to do next.
#[derive(Debug, Clone, Copy, PartialEq, Eq, Hash, Structural)]
pub enum Action {
    /// Start a task for the record at `position` of the input, whose
    /// identifier is `id`, then send `Launched`.
    Launch { position: usize, id: u32 },
    /// Wait until a running task ends, then send `Finished` with its
    /// outcome.
    Await,
    /// The job is complete: show the report and leave with status zero.
    Finish,
    /// The job cannot run: show the cause and leave with a status other
    /// than zero.
    Abort(ConnectionError),
    /// The event has no place in this state, or speaks of an identifier
    /// that is not in flight. Nothing has changed.
    Rejected,
}

/// A state of the scheduler.
#[verifier::ext_equal]
pub struct SchedulerView {
    /// The identifiers of the job's records, in input order.
    pub ids: Seq<u32>,
    /// The largest number of tasks that may run at once.
    pub limit: nat,
    pub phase: Phase,
    /// How many records have been handed out: always a prefix of the input.
    pub dispatched: nat,
    /// The identifiers of the tasks that run, one entry for each task.
    pub in_flight: Multiset<u32>,
    /// The outcomes so far, in the order of their arrival.
    pub outcomes: Seq<Outcome>,
    /// Why the job could not run, if it could not.
    pub fatal: Option<ConnectionError>,
}

/// The state of a job that has not started.
pub open spec fn initial(ids: Seq<u32>, limit: nat) -> SchedulerView {
    SchedulerView {
        ids,
        limit,
        phase: Phase::Idle,
        dispatched: 0,
        in_flight: Multiset::empty(),
        outcomes: Seq::empty(),
        fatal: None,
    }
}

/// What holds of every state that a job can be in.
pub open spec fn inv(s: SchedulerView) -> bool {
    &&& s.limit >= 1
    &&& s.ids.len() <= usize::MAX
    &&& s.dispatched <= s.ids.len()
    &&& s.in_flight.len() <= s.limit
    &&& outcome_ids(s.outcomes).to_multiset().add(s.in_flight) == s.ids.take(
        s.dispatched as int,
    ).to_multiset()
    &&& match s.phase {
        Phase::Idle => s.dispatched == 0 && s.fatal is None,
        Phase::Dispatching => s.dispatched < s.ids.len() && s.fatal is None,
        Phase::Draining => s.dispatched == s.ids.len() && s.fatal is None,
        Phase::Completed => if s.fatal is Some {
            s.dispatched == 0
        } else {
            s.dispatched == s.ids.len() && s.in_flight.len() == 0
        },
    }
}

/// The exit status that the state of a job calls for.
pub open spec fn exit_status(s: SchedulerView) -> int {
    status_of(connection_failure(s.fatal))
}

/// What is left to do: two steps for each record not yet handed out (its
/// launch and its end), one for each task that runs.
pub open spec fn work_left(s: SchedulerView) -> int {
    2 * (s.ids.len() - s.dispatched) + s.in_flight.len()
}

/// The state after the next record has been handed out.
pub open spec fn launched(s: SchedulerView) -> SchedulerView {
    SchedulerView {
        dispatched: s.dispatched + 1,
        in_flight: s.in_flight.insert(s.ids[s.dispatched as int]),
        phase: if s.dispatched + 1 == s.ids.len() {
            Phase::Draining
        } else {
            Phase::Dispatching
        },
        ..s
    }
}

/// The decision that follows every accepted event of a running job: hand
/// out the next record if a slot is free, wait if tasks run and nothing can
/// be handed out, finish when nothing is left.
pub open spec fn advance(s: SchedulerView) -> (SchedulerView, Action) {
    if s.phase is Dispatching {
        if s.in_flight.len() < s.limit {
            (
                launched(s),
                Action::Launch { position: s.dispatched as usize, id: s.ids[s.dispatched as int] },
            )
        } else {
            (s, Action::Await)
        }
    } else if s.in_flight.len() > 0 {
        (s, Action::Await)
    } else {
        (SchedulerView { phase: Phase::Completed, ..s }, Action::Finish)
    }
}

/// The state in which dispatch begins.
pub open spec fn started(s: SchedulerView) -> SchedulerView {
    SchedulerView {
        phase: if s.ids.len() == 0 {
            Phase::Draining
        } else {
            Phase::Dispatching
        },
        ..s
    }
}

/// The state after `outcome` has been recorded and its slot released.
pub open spec fn recorded(s: SchedulerView, outcome: Outcome) -> SchedulerView {
    SchedulerView {
        in_flight: s.in_flight.remove(outcome.id()),
        outcomes: s.outcomes.push(outcome),
        ..s
    }
}

/// The state machine: the state that follows `s` on `event`, and the action
/// that the caller is asked for.
pub open spec fn step(s: SchedulerView, event: Event) -> (SchedulerView, Action) {
    match event {
        Event::Connected => if s.phase is Idle {
            advance(started(s))
        } else {
            (s, Action::Rejected)
        },
        Event::ConnectionFailed(cause) => if s.phase is Idle {
            (
                SchedulerView { phase: Phase::Completed, fatal: Some(cause), ..s },
                Action::Abort(cause),
            )
        } else {
            (s, Action::Rejected)
        },
        Event::Launched => if s.phase is Dispatching || s.phase is Draining {
            advance(s)
        } else {
            (s, Action::Rejected)
        },
        Event::Finished(outcome) => if s.in_flight.contains(outcome.id()) {
            advance(recorded(s, outcome))
        } else {
            (s, Action::Rejected)
        },
    }
}

/// The state that a job is in after `events`, starting from `s`.
pub open spec fn run(s: SchedulerView, events: Seq<Event>) -> SchedulerView
    decreases events.len(),
{
    if events.len() == 0 {
        s
    } else {
        step(run(s, events.drop_last()), events.last()).0
    }
}

} // verus!
