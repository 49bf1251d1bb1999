//! File-level operations on one repository of a Git hosting service, as the
//! decisions of an adapter that does no input or output of its own.
//!
//! Each operation has two halves. The first builds a request: what is to be
//! asked of the service, for the repository that the adapter is bound to.
//! Whoever holds the network client sends it and hands back what came of it:
//! the listing or the acknowledgement, or a [`RemoteFailure`]. The second half
//! turns that reply into the operation's result. Two replies are read as
//! answers rather than faults: a 404 to an existence check, and a 422 to a
//! create.

pub mod credentials;
pub mod error;
pub mod laws;
pub mod remote;
pub mod service;

pub use error::GitHubServiceError;
pub use remote::{CommitRequest, ContentItem, ContentRequest, RemoteFailure};
pub use service::GitHubService;
