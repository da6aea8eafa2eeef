//! The result of submitting one record.

use vstd::prelude::*;

verus! {

/// Why the submission of one record failed.
#[derive(Debug, Clone, Copy, PartialEq, Eq, Hash, Structural)]
pub enum SubmissionError {
    /// The request did not reach the service, or its answer did not come back.
    Network,
    /// The service answered and refused the document.
    Rejected,
    /// The request could not be encoded, or the answer could not be decoded.
    Serialization,
    /// No answer came within the time allowed.
    Timeout,
}

/// What one remote call came back with, as plain values.
#[derive(Debug, Clone, Copy, PartialEq, Eq, Hash, Structural)]
pub enum Response {
    /// The service took the document and returned the reference of the task
    /// that will index it.
    Accepted { task_uid: u32 },
    /// The service answered with an error payload.
    Refused,
    /// The service answered with an error status and no readable payload.
    BadStatus { code: u16 },
    /// The answer of the service could not be decoded.
    Undecodable,
    /// The request could not be built or encoded, and was not sent.
    Unsendable,
    /// The request failed on the way.
    Transport,
    /// No answer came within the time allowed.
    TimedOut,
}

/// The result of the attempt to ingest one record.
#[derive(Debug, Clone, Copy, PartialEq, Eq, Hash, Structural)]
pub enum Outcome {
    Success { id: u32 },
    Failure { id: u32, cause: SubmissionError },
}

impl Outcome {
    /// The identifier of the record that this outcome belongs to.
    pub open spec fn spec_id(&self) -> u32 {
        match *self {
            Outcome::Success { id } => id,
            Outcome::Failure { id, .. } => id,
        }
    }

    /// The identifier of the record that this outcome belongs to.
    #[verifier::when_used_as_spec(spec_id)]
    pub fn id(&self) -> (id: u32)
        ensures
            id == self.spec_id(),
    {
        match *self {
            Outcome::Success { id } => id,
            Outcome::Failure { id, .. } => id,
        }
    }

    /// Whether the record was submitted.
    pub fn is_success(&self) -> (yes: bool)
        ensures
            yes == (*self is Success),
    {
        match *self {
            Outcome::Success { .. } => true,
            Outcome::Failure { .. } => false,
        }
    }

    /// The cause of the failure, if this is one.
    pub fn cause(&self) -> (cause: Option<SubmissionError>)
        ensures
            cause == match *self {
                Outcome::Success { .. } => None,
                Outcome::Failure { cause: c, .. } => Some(c),
            },
    {
        match *self {
            Outcome::Success { .. } => None,
            Outcome::Failure { cause, .. } => Some(cause),
        }
    }
}

/// The failure that a response stands for; `None` for an accepted document.
///
/// A submission counts as done once the service has accepted it: the task
/// reference is not followed up.
pub open spec fn cause_of(response: Response) -> Option<SubmissionError> {
    match response {
        Response::Accepted { .. } => None,
        Response::Refused => Some(SubmissionError::Rejected),
        Response::BadStatus { .. } => Some(SubmissionError::Rejected),
        Response::Undecodable => Some(SubmissionError::Serialization),
        Response::Unsendable => Some(SubmissionError::Serialization),
        Response::Transport => Some(SubmissionError::Network),
        Response::TimedOut => Some(SubmissionError::Timeout),
    }
}

/// The outcome of the record `id` whose remote call came back with `response`.
pub open spec fn outcome_for(id: u32, response: Response) -> Outcome {
    match cause_of(response) {
        None => Outcome::Success { id },
        Some(cause) => Outcome::Failure { id, cause },
    }
}

/// Classifies a response. See [`cause_of`].
pub fn classify(response: Response) -> (cause: Option<SubmissionError>)
    ensures
        cause == cause_of(response),
{
    match response {
        Response::Accepted { .. } => None,
        Response::Refused => Some(SubmissionError::Rejected),
        Response::BadStatus { .. } => Some(SubmissionError::Rejected),
        Response::Undecodable => Some(SubmissionError::Serialization),
        Response::Unsendable => Some(SubmissionError::Serialization),
        Response::Transport => Some(SubmissionError::Network),
        Response::TimedOut => Some(SubmissionError::Timeout),
    }
}

/// Turns what the remote call of record `id` came back with into the outcome
/// of that record. Every response has an outcome: a failure of the call is
/// data, never an error of the task.
pub fn outcome_of(id: u32, response: Response) -> (outcome: Outcome)
    ensures
        outcome == outcome_for(id, response),
        outcome.id() == id,
        outcome is Success <==> response is Accepted,
        response is TimedOut ==> outcome == (Outcome::Failure {
            id,
            cause: SubmissionError::Timeout,
        }),
{
    match classify(response) {
        None => Outcome::Success { id },
        Some(cause) => Outcome::Failure { id, cause },
    }
}

} // verus!
