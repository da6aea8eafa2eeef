//! What holds of every run of the scheduler, proved of the state machine.

use vstd::prelude::*;
use vstd::multiset::*;
use vstd::seq_lib::*;
use crate::connection::ConnectionError;
use crate::model::{
    advance, exit_status, initial, inv, launched, recorded, run, started, step, work_left, Action,
    Event, SchedulerView,
};
use crate::outcome::Outcome;
use crate::report::{
    failures_of, lemma_counts_add_up, lemma_push_outcome, outcome_ids, successes_of,
};

verus! {

/// The account in numbers: what has been handed out has an outcome or is in
/// flight.
pub proof fn lemma_dispatched_is_accounted_for(s: SchedulerView)
    requires
        inv(s),
    ensures
        s.outcomes.len() + s.in_flight.len() == s.dispatched,
{
    broadcast use group_multiset_axioms, group_to_multiset_ensures;

    let recorded = outcome_ids(s.outcomes).to_multiset();
    let handed_out = s.ids.take(s.dispatched as int).to_multiset();
    assert(recorded.len() == s.outcomes.len());
    assert(recorded.add(s.in_flight).len() == recorded.len() + s.in_flight.len());
    assert(handed_out.len() == s.dispatched);
}

/// Handing out the next record keeps the invariant, but for the phase: the
/// record joins the tasks in flight and the prefix handed out.
proof fn lemma_launched_accounts(s: SchedulerView)
    requires
        inv(s),
        s.dispatched < s.ids.len(),
        s.in_flight.len() < s.limit,
    ensures
        launched(s).in_flight.len() == s.in_flight.len() + 1,
        outcome_ids(launched(s).outcomes).to_multiset().add(launched(s).in_flight)
            == s.ids.take(launched(s).dispatched as int).to_multiset(),
{
    broadcast use group_multiset_axioms, group_to_multiset_ensures;

    let id = s.ids[s.dispatched as int];
    let before = s.ids.take(s.dispatched as int);
    assert(s.ids.take(s.dispatched as int + 1) =~= before.push(id));
    assert(outcome_ids(s.outcomes).to_multiset().add(s.in_flight.insert(id))
        =~= outcome_ids(s.outcomes).to_multiset().add(s.in_flight).insert(id));
}

/// Recording the outcome of a task in flight keeps the account: the
/// identifier moves from the tasks in flight to the outcomes.
proof fn lemma_recorded_accounts(s: SchedulerView, outcome: Outcome)
    requires
        inv(s),
        s.in_flight.contains(outcome.id()),
    ensures
        recorded(s, outcome).in_flight.len() == s.in_flight.len() - 1,
        outcome_ids(recorded(s, outcome).outcomes).to_multiset().add(
            recorded(s, outcome).in_flight,
        ) == s.ids.take(s.dispatched as int).to_multiset(),
{
    broadcast use group_multiset_axioms, group_to_multiset_ensures;

    let id = outcome.id();
    lemma_push_outcome(s.outcomes, outcome);
    assert(s.in_flight.remove(id).insert(id) =~= s.in_flight);
    assert(outcome_ids(s.outcomes).to_multiset().insert(id).add(s.in_flight.remove(id))
        =~= outcome_ids(s.outcomes).to_multiset().add(s.in_flight));
}

/// Recording the outcome of a task in flight leaves a state that the
/// invariant admits. Only a job that has started and not ended has tasks in
/// flight.
pub proof fn lemma_recorded_inv(s: SchedulerView, outcome: Outcome)
    requires
        inv(s),
        s.in_flight.contains(outcome.id()),
    ensures
        inv(recorded(s, outcome)),
        s.phase is Dispatching || s.phase is Draining,
{
    broadcast use group_multiset_axioms;

    lemma_recorded_accounts(s, outcome);
    lemma_dispatched_is_accounted_for(s);
}

/// A job that has not started is in a state that the invariant admits.
pub proof fn lemma_initial_inv(ids: Seq<u32>, limit: nat)
    requires
        limit >= 1,
        ids.len() <= usize::MAX,
    ensures
        inv(initial(ids, limit)),
{
    broadcast use group_multiset_axioms, group_to_multiset_ensures;

    assert(ids.take(0) =~= Seq::<u32>::empty());
    assert(outcome_ids(Seq::<Outcome>::empty()) =~= Seq::<u32>::empty());
    assert(Seq::<u32>::empty().to_multiset().add(Multiset::<u32>::empty())
        =~= Seq::<u32>::empty().to_multiset());
}

/// The decision keeps the invariant. It is taken in states that have
/// started and not ended; there the invariant may fail in one point only,
/// which the decision mends: `Draining` with nothing in flight.
proof fn lemma_advance_inv(s: SchedulerView)
    requires
        s.phase is Dispatching || s.phase is Draining,
        inv(s),
    ensures
        inv(advance(s).0),
        advance(s).0.ids == s.ids,
        advance(s).0.limit == s.limit,
{
    if s.phase is Dispatching && s.in_flight.len() < s.limit {
        lemma_launched_accounts(s);
    }
}

/// Every step keeps the invariant, the records and the limit.
pub proof fn lemma_step_inv(s: SchedulerView, event: Event)
    requires
        inv(s),
    ensures
        inv(step(s, event).0),
        step(s, event).0.ids == s.ids,
        step(s, event).0.limit == s.limit,
{
    broadcast use group_multiset_axioms;

    match event {
        Event::Connected => {
            if s.phase is Idle {
                lemma_advance_inv(started(s));
            }
        },
        Event::ConnectionFailed(_) => {},
        Event::Launched => {
            if s.phase is Dispatching || s.phase is Draining {
                lemma_advance_inv(s);
            }
        },
        Event::Finished(outcome) => {
            if s.in_flight.contains(outcome.id()) {
                lemma_recorded_inv(s, outcome);
                lemma_advance_inv(recorded(s, outcome));
            }
        },
    }
}

/// Every run keeps the invariant, the records and the limit.
pub proof fn lemma_run_inv(s: SchedulerView, events: Seq<Event>)
    requires
        inv(s),
    ensures
        inv(run(s, events)),
        run(s, events).ids == s.ids,
        run(s, events).limit == s.limit,
    decreases events.len(),
{
    if events.len() > 0 {
        lemma_run_inv(s, events.drop_last());
        lemma_step_inv(run(s, events.drop_last()), events.last());
    }
}

/// Backpressure: whatever events arrive and in whatever order, the number of
/// tasks in flight never exceeds the limit of the job.
pub proof fn lemma_in_flight_never_exceeds_limit(ids: Seq<u32>, limit: nat, events: Seq<Event>)
    requires
        limit >= 1,
        ids.len() <= usize::MAX,
    ensures
        run(initial(ids, limit), events).in_flight.len() <= limit,
{
    lemma_initial_inv(ids, limit);
    lemma_run_inv(initial(ids, limit), events);
}

/// No record is lost and none is counted twice: when a job that could run
/// is complete, there are as many outcomes as records, successes and
/// failures add up to that number, and the outcomes speak of the same
/// identifiers as the records, each as often as it occurs in the input.
pub proof fn lemma_complete_job_has_one_outcome_for_each_record(
    ids: Seq<u32>,
    limit: nat,
    events: Seq<Event>,
)
    requires
        limit >= 1,
        ids.len() <= usize::MAX,
        run(initial(ids, limit), events).phase is Completed,
        run(initial(ids, limit), events).fatal is None,
    ensures
        run(initial(ids, limit), events).outcomes.len() == ids.len(),
        successes_of(run(initial(ids, limit), events).outcomes).len() + failures_of(
            run(initial(ids, limit), events).outcomes,
        ).len() == ids.len(),
        outcome_ids(run(initial(ids, limit), events).outcomes).to_multiset() == ids.to_multiset(),
{
    broadcast use group_multiset_axioms, group_to_multiset_ensures;

    let end = run(initial(ids, limit), events);
    lemma_initial_inv(ids, limit);
    lemma_run_inv(initial(ids, limit), events);
    assert(ids.take(ids.len() as int) =~= ids);
    assert(end.in_flight =~= Multiset::<u32>::empty());
    assert(outcome_ids(end.outcomes).to_multiset().add(Multiset::<u32>::empty())
        =~= outcome_ids(end.outcomes).to_multiset());
    lemma_dispatched_is_accounted_for(end);
    lemma_counts_add_up(end.outcomes);
}

/// At no point of a run does an identifier have more outcomes than the
/// input has records with it, and never are there more outcomes than
/// records handed out.
pub proof fn lemma_outcomes_never_exceed_records(
    ids: Seq<u32>,
    limit: nat,
    events: Seq<Event>,
    id: u32,
)
    requires
        limit >= 1,
        ids.len() <= usize::MAX,
    ensures
        run(initial(ids, limit), events).outcomes.len() <= run(
            initial(ids, limit),
            events,
        ).dispatched <= ids.len(),
        outcome_ids(run(initial(ids, limit), events).outcomes).to_multiset().count(id)
            <= ids.to_multiset().count(id),
{
    broadcast use group_multiset_axioms;

    let now = run(initial(ids, limit), events);
    let handed_out = ids.take(now.dispatched as int);
    let waiting = ids.skip(now.dispatched as int);
    lemma_initial_inv(ids, limit);
    lemma_run_inv(initial(ids, limit), events);
    lemma_dispatched_is_accounted_for(now);
    assert(handed_out + waiting =~= ids);
    lemma_multiset_commutative(handed_out, waiting);
}

/// Records that share an identifier do not share an outcome: in a complete
/// job an identifier has as many outcomes as the input has records with it.
pub proof fn lemma_duplicate_ids_keep_their_outcomes(
    ids: Seq<u32>,
    limit: nat,
    events: Seq<Event>,
    id: u32,
)
    requires
        limit >= 1,
        ids.len() <= usize::MAX,
        run(initial(ids, limit), events).phase is Completed,
        run(initial(ids, limit), events).fatal is None,
    ensures
        outcome_ids(run(initial(ids, limit), events).outcomes).to_multiset().count(id)
            == ids.to_multiset().count(id),
{
    lemma_complete_job_has_one_outcome_for_each_record(ids, limit, events);
}

/// A complete job stays as it is: every further event is rejected.
pub proof fn lemma_completed_is_final(s: SchedulerView, event: Event)
    requires
        inv(s),
        s.phase is Completed,
    ensures
        step(s, event) == (s, Action::Rejected),
{
    broadcast use group_multiset_axioms;

    if let Event::Finished(outcome) = event {
        lemma_dispatched_is_accounted_for(s);
        assert(!s.in_flight.contains(outcome.id()));
    }
}

/// A complete job stays as it is, whatever events follow.
pub proof fn lemma_completed_run_is_final(s: SchedulerView, events: Seq<Event>)
    requires
        inv(s),
        s.phase is Completed,
    ensures
        run(s, events) == s,
    decreases events.len(),
{
    if events.len() > 0 {
        lemma_completed_run_is_final(s, events.drop_last());
        lemma_completed_is_final(s, events.last());
    }
}

/// When no client can be had the job ends at once: the caller is told to
/// abort, no record is ever handed out, no outcome is ever recorded, and
/// the exit status is not zero, whatever events follow.
pub proof fn lemma_failed_connection_ends_the_job(
    ids: Seq<u32>,
    limit: nat,
    cause: ConnectionError,
    events: Seq<Event>,
    next: Event,
)
    requires
        limit >= 1,
        ids.len() <= usize::MAX,
    ensures
        step(initial(ids, limit), Event::ConnectionFailed(cause)).1 == Action::Abort(cause),
        ({
            let failed = step(initial(ids, limit), Event::ConnectionFailed(cause)).0;
            let later = run(failed, events);
            &&& later.phase is Completed
            &&& later.fatal == Some(cause)
            &&& later.dispatched == 0
            &&& later.outcomes.len() == 0
            &&& exit_status(later) != 0
            &&& step(later, next).1 == Action::Rejected
        }),
{
    let failed = step(initial(ids, limit), Event::ConnectionFailed(cause)).0;
    lemma_initial_inv(ids, limit);
    lemma_step_inv(initial(ids, limit), Event::ConnectionFailed(cause));
    lemma_completed_run_is_final(failed, events);
    lemma_completed_is_final(failed, next);
}

/// No deadlock: the caller is asked to wait only while a task runs, so
/// there is always an outcome to wait for.
pub proof fn lemma_await_has_a_task_to_wait_for(s: SchedulerView, event: Event)
    requires
        inv(s),
        step(s, event).1 is Await,
    ensures
        step(s, event).0.in_flight.len() > 0,
{
}

/// Progress: every launch and every recorded outcome brings the job nearer
/// to its end, so a job of `n` records is complete after `n` launches and
/// `n` outcomes.
pub proof fn lemma_work_left_decreases(s: SchedulerView, event: Event)
    requires
        inv(s),
        step(s, event).1 is Launch || (event is Finished && !(step(s, event).1 is Rejected)),
    ensures
        0 <= work_left(step(s, event).0) < work_left(s),
{
    broadcast use group_multiset_axioms;

    lemma_step_inv(s, event);
    match event {
        Event::Connected => {
            lemma_launched_accounts(started(s));
        },
        Event::ConnectionFailed(_) => {},
        Event::Launched => {
            lemma_launched_accounts(s);
        },
        Event::Finished(outcome) => {
            lemma_recorded_accounts(s, outcome);
            let after = recorded(s, outcome);
            if after.phase is Dispatching && after.in_flight.len() < after.limit {
                lemma_launched_accounts(after);
            }
        },
    }
}

/// The caller is told to finish exactly when nothing is left to do: every
/// record has been handed out and every task has ended.
pub proof fn lemma_finish_when_nothing_is_left(s: SchedulerView, event: Event)
    requires
        inv(s),
        !(step(s, event).1 is Rejected),
        !(step(s, event).1 is Abort),
    ensures
        step(s, event).1 is Finish <==> work_left(step(s, event).0) == 0,
        step(s, event).1 is Finish <==> step(s, event).0.phase is Completed,
        step(s, event).0.fatal is None,
{
    broadcast use group_multiset_axioms;

    lemma_step_inv(s, event);
    match event {
        Event::Connected => {
            if started(s).phase is Dispatching && started(s).in_flight.len() < s.limit {
                lemma_launched_accounts(started(s));
            }
        },
        Event::ConnectionFailed(_) => {},
        Event::Launched => {
            if s.phase is Dispatching && s.in_flight.len() < s.limit {
                lemma_launched_accounts(s);
            }
        },
        Event::Finished(outcome) => {
            lemma_recorded_inv(s, outcome);
            let after = recorded(s, outcome);
            if after.phase is Dispatching && after.in_flight.len() < after.limit {
                lemma_launched_accounts(after);
            }
        },
    }
}

/// Dispatch follows the input: a launch names the first record that has not
/// been handed out, and hands out that one.
pub proof fn lemma_launch_follows_input_order(s: SchedulerView, event: Event)
    requires
        inv(s),
        step(s, event).1 is Launch,
    ensures
        step(s, event).1 == (Action::Launch {
            position: s.dispatched as usize,
            id: s.ids[s.dispatched as int],
        }),
        s.dispatched as usize == s.dispatched,
        step(s, event).0.dispatched == s.dispatched + 1,
        step(s, event).0.outcomes == if let Event::Finished(outcome) = event {
            s.outcomes.push(outcome)
        } else {
            s.outcomes
        },
{
}

} // verus!
