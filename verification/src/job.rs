//! The job: everything that one run ingests, fixed before it starts.

use vstd::prelude::*;
use crate::config::{ConfigError, Input};
use crate::record::{ids_of, ArxivEntry};

verus! {

/// One unit of work: the configuration of the run and all its records, in
/// input order. A job is made once and never changes.
pub struct IngestionJob {
    input: Input,
    records: Vec<ArxivEntry>,
}

impl IngestionJob {
    /// The configuration of the run.
    pub closed spec fn spec_input(&self) -> Input {
        self.input
    }

    /// The records, in input order.
    pub closed spec fn spec_records(&self) -> Seq<ArxivEntry> {
        self.records@
    }

    /// The identifiers of the records, in input order.
    pub open spec fn ids(&self) -> Seq<u32> {
        ids_of(self.spec_records())
    }

    /// The largest number of submissions in flight at once.
    pub open spec fn spec_limit(&self) -> nat {
        self.spec_input().threads as nat
    }

    /// A job always allows at least one submission at a time, and its
    /// records can be counted.
    #[verifier::type_invariant]
    pub open spec fn valid(&self) -> bool {
        &&& self.spec_limit() >= 1
        &&& self.ids().len() <= usize::MAX
    }

    /// Makes the job of `records` under `input`. A limit of zero is refused:
    /// such a job could never send anything.
    pub fn new(input: Input, records: Vec<ArxivEntry>) -> (result: Result<Self, ConfigError>)
        ensures
            match result {
                Ok(job) => {
                    &&& input.threads >= 1
                    &&& job.spec_input() == input
                    &&& job.spec_records() == records@
                },
                Err(fault) => input.threads == 0 && fault == ConfigError::ZeroThreads,
            },
    {
        if input.threads == 0 {
            Err(ConfigError::ZeroThreads)
        } else {
            assert(records@.len() == records.len());
            Ok(IngestionJob { input, records })
        }
    }

    /// The configuration of the run.
    pub fn input(&self) -> (input: &Input)
        ensures
            *input == self.spec_input(),
    {
        &self.input
    }

    /// The records, in input order.
    pub fn records(&self) -> (records: &Vec<ArxivEntry>)
        ensures
            records@ == self.spec_records(),
    {
        &self.records
    }

    /// The record at `position` of the input, if there is one.
    pub fn record(&self, position: usize) -> (record: Option<&ArxivEntry>)
        ensures
            record == if position < self.spec_records().len() {
                Some(&self.spec_records()[position as int])
            } else {
                None
            },
    {
        if position < self.records.len() {
            Some(&self.records[position])
        } else {
            None
        }
    }

    /// The number of records.
    pub fn len(&self) -> (n: usize)
        ensures
            n == self.spec_records().len(),
            n == self.ids().len(),
    {
        self.records.len()
    }

    /// The largest number of submissions in flight at once: at least one.
    pub fn limit(&self) -> (limit: usize)
        ensures
            limit == self.spec_limit(),
            limit >= 1,
    {
        proof {
            use_type_invariant(self);
        }
        self.input.threads
    }
}

} // verus!
