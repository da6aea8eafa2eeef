//! The report of a run: every outcome in the order of its arrival, with the
//! counts that the summary shows.

use vstd::prelude::*;
use crate::outcome::Outcome;

verus! {

/// The successes among `outcomes`, in their order.
pub open spec fn successes_of(outcomes: Seq<Outcome>) -> Seq<Outcome> {
    outcomes.filter(|o: Outcome| o is Success)
}

/// The failures among `outcomes`, in their order.
pub open spec fn failures_of(outcomes: Seq<Outcome>) -> Seq<Outcome> {
    outcomes.filter(|o: Outcome| o is Failure)
}

/// The identifiers that `outcomes` speak of, in their order.
pub open spec fn outcome_ids(outcomes: Seq<Outcome>) -> Seq<u32> {
    outcomes.map_values(|o: Outcome| o.id())
}

/// One more outcome adds to exactly one of the two sides.
pub proof fn lemma_push_outcome(outcomes: Seq<Outcome>, outcome: Outcome)
    ensures
        successes_of(outcomes.push(outcome)) == if outcome is Success {
            successes_of(outcomes).push(outcome)
        } else {
            successes_of(outcomes)
        },
        failures_of(outcomes.push(outcome)) == if outcome is Failure {
            failures_of(outcomes).push(outcome)
        } else {
            failures_of(outcomes)
        },
        outcome_ids(outcomes.push(outcome)) == outcome_ids(outcomes).push(outcome.id()),
{
    reveal(Seq::filter);
    assert(outcomes.push(outcome).drop_last() =~= outcomes);
    assert(outcome_ids(outcomes.push(outcome)) =~= outcome_ids(outcomes).push(outcome.id()));
}

/// Every outcome is a success or a failure and never both: the two counts
/// add up to the number of outcomes.
pub proof fn lemma_counts_add_up(outcomes: Seq<Outcome>)
    ensures
        successes_of(outcomes).len() + failures_of(outcomes).len() == outcomes.len(),
    decreases outcomes.len(),
{
    if outcomes.len() == 0 {
        reveal(Seq::filter);
    } else {
        let rest = outcomes.drop_last();
        lemma_counts_add_up(rest);
        lemma_push_outcome(rest, outcomes.last());
        assert(rest.push(outcomes.last()) =~= outcomes);
    }
}

/// The aggregate over the outcomes of one job.
pub struct IngestionReport {
    outcomes: Vec<Outcome>,
    success: usize,
    failed: usize,
}

impl View for IngestionReport {
    type V = Seq<Outcome>;

    /// The outcomes recorded so far, oldest first.
    closed spec fn view(&self) -> Seq<Outcome> {
        self.outcomes@
    }
}

impl IngestionReport {
    /// The two counters agree with the outcomes held.
    pub closed spec fn wf(&self) -> bool {
        &&& self.success == successes_of(self.outcomes@).len()
        &&& self.failed == failures_of(self.outcomes@).len()
    }

    /// A report without outcomes.
    pub fn new() -> (report: Self)
        ensures
            report.wf(),
            report@ == Seq::<Outcome>::empty(),
    {
        proof {
            reveal(Seq::filter);
        }
        IngestionReport { outcomes: Vec::new(), success: 0, failed: 0 }
    }

    /// Appends one outcome.
    pub fn record(&mut self, outcome: Outcome)
        requires
            old(self).wf(),
        ensures
            final(self).wf(),
            final(self)@ == old(self)@.push(outcome),
    {
        proof {
            lemma_push_outcome(self.outcomes@, outcome);
            lemma_counts_add_up(self.outcomes@);
        }
        self.outcomes.push(outcome);
        let held: usize = self.outcomes.len();
        assert(self.success + self.failed < held);
        match outcome {
            Outcome::Success { .. } => {
                self.success = self.success + 1;
            },
            Outcome::Failure { .. } => {
                self.failed = self.failed + 1;
            },
        }
    }

    /// The number of outcomes.
    pub fn total(&self) -> (n: usize)
        ensures
            n == self@.len(),
    {
        self.outcomes.len()
    }

    /// The number of records that were submitted.
    pub fn success(&self) -> (n: usize)
        requires
            self.wf(),
        ensures
            n == successes_of(self@).len(),
            n <= self@.len(),
    {
        proof {
            lemma_counts_add_up(self.outcomes@);
        }
        self.success
    }

    /// The number of records whose submission failed.
    pub fn failed(&self) -> (n: usize)
        requires
            self.wf(),
        ensures
            n == failures_of(self@).len(),
            n + successes_of(self@).len() == self@.len(),
    {
        proof {
            lemma_counts_add_up(self.outcomes@);
        }
        self.failed
    }

    /// The outcomes, oldest first.
    pub fn outcomes(&self) -> (all: &Vec<Outcome>)
        ensures
            all@ == self@,
    {
        &self.outcomes
    }

    /// The failures with their causes, oldest first.
    pub fn failures(&self) -> (list: Vec<Outcome>)
        ensures
            list@ == failures_of(self@),
    {
        let mut list: Vec<Outcome> = Vec::new();
        let mut i: usize = 0;
        proof {
            reveal(Seq::filter);
        }
        while i < self.outcomes.len()
            invariant
                i <= self.outcomes.len(),
                list@ == failures_of(self.outcomes@.take(i as int)),
            decreases self.outcomes.len() - i,
        {
            let outcome = self.outcomes[i];
            proof {
                lemma_push_outcome(self.outcomes@.take(i as int), outcome);
                assert(self.outcomes@.take(i as int).push(outcome) =~= self.outcomes@.take(i + 1));
            }
            if !outcome.is_success() {
                list.push(outcome);
            }
            i = i + 1;
        }
        assert(self.outcomes@.take(i as int) =~= self.outcomes@);
        list
    }
}

} // verus!
