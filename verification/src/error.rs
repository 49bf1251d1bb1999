//! The errors of the adapter.

use crate::remote::RemoteFailure;
use vstd::prelude::*;

verus! {

/// Why an operation of the adapter did not give its result.
#[derive(Debug, Clone, PartialEq, Eq)]
pub enum GitHubServiceError {
    /// The request did not succeed, and the operation has no reading of the
    /// failure as an answer. Status and message are those of the failure.
    RemoteApi { status_code: Option<u16>, message: String },
    /// The listing came back without an item to take the content hash from.
    NotFound,
    /// The credentials given at construction cannot form a usable client.
    Configuration,
}

impl RemoteFailure {
    /// The error that hands this failure on to the caller as it is.
    pub open spec fn surfaced(self) -> GitHubServiceError {
        GitHubServiceError::RemoteApi { status_code: self.status_code, message: self.message }
    }
}

impl From<RemoteFailure> for GitHubServiceError {
    /// Hands a failure on as it is: same status, same message.
    fn from(failure: RemoteFailure) -> (err: GitHubServiceError) {
        GitHubServiceError::RemoteApi {
            status_code: failure.status_code,
            message: failure.message,
        }
    }
}

impl vstd::std_specs::convert::FromSpecImpl<RemoteFailure> for GitHubServiceError {
    open spec fn obeys_from_spec() -> bool {
        true
    }

    open spec fn from_spec(failure: RemoteFailure) -> GitHubServiceError {
        failure.surfaced()
    }
}

} // verus!
