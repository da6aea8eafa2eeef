//! The errors that end a run before any record is sent, and the exit
//! status of the process.

use vstd::prelude::*;
use crate::config::ConfigError;
use crate::connection::ConnectionError;

verus! {

/// An error that ends the run before dispatch. A failure of a single record
/// is never one of these: it is an outcome in the report.
#[derive(Debug, Clone, Copy, PartialEq, Eq, Hash, Structural)]
pub enum FatalError {
    /// The settings cannot be used.
    Config(ConfigError),
    /// The input is not a list of records.
    Parse,
    /// No client of the indexing service could be had.
    Connection(ConnectionError),
}

/// The exit status of a run: zero unless it ended on a fatal error.
pub open spec fn status_of(fatal: Option<FatalError>) -> int {
    if fatal is Some {
        1
    } else {
        0
    }
}

/// The fatal error that a failed connection is.
pub open spec fn connection_failure(cause: Option<ConnectionError>) -> Option<FatalError> {
    match cause {
        Some(cause) => Some(FatalError::Connection(cause)),
        None => None,
    }
}

/// The exit status of a run that ended on `fatal`, or ran to completion if
/// `fatal` is `None`. Failed records do not change the status.
pub fn exit_code(fatal: Option<FatalError>) -> (code: i32)
    ensures
        code == status_of(fatal),
        code == 0 <==> fatal is None,
{
    match fatal {
        Some(_) => 1,
        None => 0,
    }
}

} // verus!
