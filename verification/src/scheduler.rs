//! The scheduler: the one place that hands out records, bounds the tasks in
//! flight and collects their outcomes.
//!
//! The scheduler runs no task itself. The caller's loop asks it what to do,
//! does it, and reports back; see [`IngestionScheduler::step`]. One client
//! of the indexing service is acquired before the first step and shared by
//! all tasks.

use vstd::prelude::*;
use vstd::seq_lib::*;
use crate::connection::ConnectionError;
use crate::fatal::{connection_failure, FatalError};
use crate::job::IngestionJob;
use crate::laws::{lemma_initial_inv, lemma_recorded_inv, lemma_step_inv};
use crate::model;
use crate::model::{initial, inv, Action, Event, Phase, SchedulerView};
use crate::record::ArxivEntry;
use crate::report::IngestionReport;

verus! {

/// The scheduler of one job.
pub struct IngestionScheduler {
    job: IngestionJob,
    phase: Phase,
    /// The number of records handed out.
    dispatched: usize,
    /// The identifiers of the tasks that run.
    in_flight: Vec<u32>,
    report: IngestionReport,
    fatal: Option<ConnectionError>,
}

impl View for IngestionScheduler {
    type V = SchedulerView;

    closed spec fn view(&self) -> SchedulerView {
        SchedulerView {
            ids: self.job.ids(),
            limit: self.job.spec_limit(),
            phase: self.phase,
            dispatched: self.dispatched as nat,
            in_flight: self.in_flight@.to_multiset(),
            outcomes: self.report@,
            fatal: self.fatal,
        }
    }
}

impl IngestionScheduler {
    /// The job that is scheduled.
    pub closed spec fn spec_job(&self) -> IngestionJob {
        self.job
    }

    /// The report that is being built.
    pub closed spec fn spec_report(&self) -> IngestionReport {
        self.report
    }

    /// The scheduler is in a state that a job can be in, and its report is
    /// in order.
    pub open spec fn wf(&self) -> bool {
        &&& inv(self@)
        &&& self@.ids == self.spec_job().ids()
        &&& self@.limit == self.spec_job().spec_limit()
        &&& self@.outcomes == self.spec_report()@
        &&& self.spec_report().wf()
    }

    /// The scheduler of `job`, before anything has started.
    pub fn new(job: IngestionJob) -> (scheduler: Self)
        ensures
            scheduler.wf(),
            scheduler@ == initial(job.ids(), job.spec_limit()),
            scheduler.spec_job() == job,
    {
        proof {
            use_type_invariant(&job);
        }
        let scheduler = IngestionScheduler {
            job,
            phase: Phase::Idle,
            dispatched: 0,
            in_flight: Vec::new(),
            report: IngestionReport::new(),
            fatal: None,
        };
        proof {
            broadcast use group_to_multiset_ensures;

            lemma_initial_inv(job.ids(), job.spec_limit());
            assert(scheduler.in_flight@.to_multiset() =~= vstd::multiset::Multiset::<u32>::empty());
            assert(scheduler@ =~= initial(job.ids(), job.spec_limit()));
        }
        scheduler
    }

    /// Takes one step of the state machine [`model::step`]: takes in what
    /// happened and answers with what to do next.
    ///
    /// The loop of a run: send `Connected` or `ConnectionFailed`; then, for
    /// each answer, `Launch`: start the task and send `Launched`; `Await`:
    /// wait for a task to end and send `Finished` with its outcome;
    /// `Finish` or `Abort`: leave the loop.
    pub fn step(&mut self, event: Event) -> (action: Action)
        requires
            old(self).wf(),
        ensures
            final(self).wf(),
            (final(self)@, action) == model::step(old(self)@, event),
            final(self).spec_job() == old(self).spec_job(),
    {
        broadcast use group_to_multiset_ensures;

        proof {
            lemma_step_inv(self@, event);
        }
        match event {
            Event::Connected => match self.phase {
                Phase::Idle => {
                    self.phase = if self.job.len() == 0 {
                        Phase::Draining
                    } else {
                        Phase::Dispatching
                    };
                    assert(self@ =~= model::started(old(self)@));
                    self.advance()
                },
                _ => Action::Rejected,
            },
            Event::ConnectionFailed(cause) => match self.phase {
                Phase::Idle => {
                    self.phase = Phase::Completed;
                    self.fatal = Some(cause);
                    assert(self@ =~= model::step(old(self)@, event).0);
                    Action::Abort(cause)
                },
                _ => Action::Rejected,
            },
            Event::Launched => match self.phase {
                Phase::Dispatching | Phase::Draining => self.advance(),
                _ => Action::Rejected,
            },
            Event::Finished(outcome) => match self.slot_of(outcome.id()) {
                Some(slot) => {
                    proof {
                        lemma_recorded_inv(self@, outcome);
                    }
                    self.in_flight.remove(slot);
                    self.report.record(outcome);
                    assert(self@ =~= model::recorded(old(self)@, outcome));
                    self.advance()
                },
                None => Action::Rejected,
            },
        }
    }

    /// Takes the decision that follows an accepted event.
    fn advance(&mut self) -> (action: Action)
        requires
            old(self).wf(),
            old(self).phase is Dispatching || old(self).phase is Draining,
        ensures
            (final(self)@, action) == model::advance(old(self)@),
            final(self).job == old(self).job,
            final(self).report == old(self).report,
    {
        broadcast use group_to_multiset_ensures;

        let limit = self.job.limit();
        match self.phase {
            Phase::Dispatching if self.in_flight.len() < limit => {
                let position = self.dispatched;
                let id = self.job.records()[position].id;
                self.in_flight.push(id);
                self.dispatched = position + 1;
                if self.dispatched == self.job.len() {
                    self.phase = Phase::Draining;
                }
                assert(self@ =~= model::launched(old(self)@));
                Action::Launch { position, id }
            },
            Phase::Dispatching => Action::Await,
            _ => {
                if self.in_flight.len() > 0 {
                    Action::Await
                } else {
                    self.phase = Phase::Completed;
                    assert(self@ =~= (SchedulerView { phase: Phase::Completed, ..old(self)@ }));
                    Action::Finish
                }
            },
        }
    }

    /// The place of a task with identifier `id` among the tasks in flight.
    fn slot_of(&self, id: u32) -> (slot: Option<usize>)
        ensures
            match slot {
                Some(i) => i < self.in_flight.len() && self.in_flight[i as int] == id,
                None => !self@.in_flight.contains(id),
            },
    {
        broadcast use group_to_multiset_ensures;

        let mut i: usize = 0;
        while i < self.in_flight.len()
            invariant
                i <= self.in_flight.len(),
                forall|j: int| 0 <= j < i ==> self.in_flight[j] != id,
            decreases self.in_flight.len() - i,
        {
            if self.in_flight[i] == id {
                return Some(i);
            }
            i = i + 1;
        }
        assert(!self.in_flight@.contains(id));
        None
    }

    /// Where the job stands.
    pub fn phase(&self) -> (phase: Phase)
        ensures
            phase == self@.phase,
    {
        self.phase
    }

    /// Whether the job has ended, complete or aborted.
    pub fn is_completed(&self) -> (yes: bool)
        ensures
            yes == (self@.phase is Completed),
    {
        match self.phase {
            Phase::Completed => true,
            _ => false,
        }
    }

    /// The number of records handed out so far.
    pub fn dispatched(&self) -> (n: usize)
        ensures
            n == self@.dispatched,
    {
        self.dispatched
    }

    /// The number of tasks in flight.
    pub fn in_flight(&self) -> (n: usize)
        ensures
            n == self@.in_flight.len(),
    {
        broadcast use group_to_multiset_ensures;

        self.in_flight.len()
    }

    /// The job that is scheduled.
    pub fn job(&self) -> (job: &IngestionJob)
        ensures
            *job == self.spec_job(),
    {
        &self.job
    }

    /// The record at `position` of the input, if there is one: what the
    /// task of a `Launch` submits.
    pub fn record(&self, position: usize) -> (record: Option<&ArxivEntry>)
        ensures
            record == if position < self.spec_job().spec_records().len() {
                Some(&self.spec_job().spec_records()[position as int])
            } else {
                None
            },
    {
        self.job.record(position)
    }

    /// The report as it stands. Once the job is complete it no longer
    /// changes.
    pub fn report(&self) -> (report: &IngestionReport)
        ensures
            *report == self.spec_report(),
    {
        &self.report
    }

    /// Gives up the scheduler for its report.
    pub fn into_report(self) -> (report: IngestionReport)
        ensures
            report == self.spec_report(),
    {
        self.report
    }

    /// Why the job could not run, if it could not.
    pub fn fatal(&self) -> (fatal: Option<FatalError>)
        ensures
            fatal == connection_failure(self@.fatal),
    {
        match self.fatal {
            Some(cause) => Some(FatalError::Connection(cause)),
            None => None,
        }
    }
}

} // verus!
