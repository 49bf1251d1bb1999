//! What travels between the adapter and the hosting service: the requests the
//! adapter asks to have sent, and what may come back.
//!
//! Requests are built from borrowed text, so contracts speak of them by their
//! views. What comes back is handed through as it is, so contracts speak of
//! those values themselves.

use vstd::prelude::*;

verus! {

/// The status with which the service says that nothing lies at a path.
pub const STATUS_NOT_FOUND: u16 = 404;

/// The status with which the service refuses a request that it understood but
/// cannot carry out, as when the file to create is already there.
pub const STATUS_UNPROCESSABLE: u16 = 422;

/// One entry of a listing: a file or a directory as the service reports it.
#[derive(Debug, Clone, PartialEq, Eq)]
pub struct ContentItem {
    /// Where the entry lies in the repository.
    pub path: String,
    /// The content hash of the entry: the token that an update or a delete
    /// must present.
    pub sha: String,
    /// The payload, where the service sent one, in the encoding in which it
    /// came.
    pub content: Option<String>,
}

/// A request that did not succeed.
#[derive(Debug, Clone, PartialEq, Eq)]
pub struct RemoteFailure {
    /// The status of the service's answer, or `None` where no answer was had:
    /// the request could not be sent, timed out, was cancelled, or what came
    /// back could not be read.
    pub status_code: Option<u16>,
    /// What the service, or the transport, said of the failure.
    pub message: String,
}

impl RemoteFailure {
    /// Whether the service answered, and with exactly this status.
    pub open spec fn has_status(&self, status: u16) -> bool {
        self.status_code == Some(status)
    }

    /// Tells whether the service answered with exactly this status.
    pub fn is_status(&self, status: u16) -> (yes: bool)
        ensures
            yes == self.has_status(status),
    {
        match self.status_code {
            Some(code) => code == status,
            None => false,
        }
    }
}

/// The request to list what lies at a path of a repository. The listing
/// serves the existence check and the reading of a content hash as well.
#[derive(Debug, Clone, PartialEq, Eq)]
pub struct ContentRequest {
    /// The account that owns the repository.
    pub repo_owner: String,
    /// The name of the repository.
    pub repo_name: String,
    /// The path to list.
    pub path: String,
}

/// A [`ContentRequest`] as a mathematical value.
pub struct ContentRequestView {
    pub repo_owner: Seq<char>,
    pub repo_name: Seq<char>,
    pub path: Seq<char>,
}

impl View for ContentRequest {
    type V = ContentRequestView;

    open spec fn view(&self) -> ContentRequestView {
        ContentRequestView {
            repo_owner: self.repo_owner@,
            repo_name: self.repo_name@,
            path: self.path@,
        }
    }
}

impl ContentRequestView {
    /// Whether the request is meant for this repository and is about this
    /// path.
    pub open spec fn is_for(
        self,
        repo_owner: Seq<char>,
        repo_name: Seq<char>,
        path: Seq<char>,
    ) -> bool {
        self.repo_owner == repo_owner && self.repo_name == repo_name && self.path == path
    }
}

/// A request that changes one file of a repository, in a commit of its own.
#[derive(Debug, Clone, PartialEq, Eq)]
pub enum CommitRequest {
    /// Create a file at `path` with `content`.
    CreateFile {
        repo_owner: String,
        repo_name: String,
        path: String,
        message: String,
        content: String,
    },
    /// Replace the content of the file at `path`, provided that its content
    /// hash is still `sha`.
    UpdateFile {
        repo_owner: String,
        repo_name: String,
        path: String,
        message: String,
        content: String,
        sha: String,
    },
    /// Delete the file at `path`, provided that its content hash is still
    /// `sha`.
    DeleteFile {
        repo_owner: String,
        repo_name: String,
        path: String,
        message: String,
        sha: String,
    },
}

/// A [`CommitRequest`] as a mathematical value.
pub enum CommitRequestView {
    CreateFile {
        repo_owner: Seq<char>,
        repo_name: Seq<char>,
        path: Seq<char>,
        message: Seq<char>,
        content: Seq<char>,
    },
    UpdateFile {
        repo_owner: Seq<char>,
        repo_name: Seq<char>,
        path: Seq<char>,
        message: Seq<char>,
        content: Seq<char>,
        sha: Seq<char>,
    },
    DeleteFile {
        repo_owner: Seq<char>,
        repo_name: Seq<char>,
        path: Seq<char>,
        message: Seq<char>,
        sha: Seq<char>,
    },
}

impl View for CommitRequest {
    type V = CommitRequestView;

    open spec fn view(&self) -> CommitRequestView {
        match self {
            CommitRequest::CreateFile { repo_owner, repo_name, path, message, content } => {
                CommitRequestView::CreateFile {
                    repo_owner: repo_owner@,
                    repo_name: repo_name@,
                    path: path@,
                    message: message@,
                    content: content@,
                }
            },
            CommitRequest::UpdateFile { repo_owner, repo_name, path, message, content, sha } => {
                CommitRequestView::UpdateFile {
                    repo_owner: repo_owner@,
                    repo_name: repo_name@,
                    path: path@,
                    message: message@,
                    content: content@,
                    sha: sha@,
                }
            },
            CommitRequest::DeleteFile { repo_owner, repo_name, path, message, sha } => {
                CommitRequestView::DeleteFile {
                    repo_owner: repo_owner@,
                    repo_name: repo_name@,
                    path: path@,
                    message: message@,
                    sha: sha@,
                }
            },
        }
    }
}

impl CommitRequestView {
    /// The account that owns the repository the request is meant for.
    pub open spec fn repo_owner(self) -> Seq<char> {
        match self {
            CommitRequestView::CreateFile { repo_owner, .. } => repo_owner,
            CommitRequestView::UpdateFile { repo_owner, .. } => repo_owner,
            CommitRequestView::DeleteFile { repo_owner, .. } => repo_owner,
        }
    }

    /// The name of the repository the request is meant for.
    pub open spec fn repo_name(self) -> Seq<char> {
        match self {
            CommitRequestView::CreateFile { repo_name, .. } => repo_name,
            CommitRequestView::UpdateFile { repo_name, .. } => repo_name,
            CommitRequestView::DeleteFile { repo_name, .. } => repo_name,
        }
    }

    /// The path of the file that the request changes.
    pub open spec fn path(self) -> Seq<char> {
        match self {
            CommitRequestView::CreateFile { path, .. } => path,
            CommitRequestView::UpdateFile { path, .. } => path,
            CommitRequestView::DeleteFile { path, .. } => path,
        }
    }

    /// Whether the request is meant for this repository and is about this
    /// path.
    pub open spec fn is_for(
        self,
        repo_owner: Seq<char>,
        repo_name: Seq<char>,
        path: Seq<char>,
    ) -> bool {
        self.repo_owner() == repo_owner && self.repo_name() == repo_name && self.path() == path
    }

    /// The content hash on which the request is conditioned, where it is
    /// conditioned on one: the service carries out an update or a delete only
    /// if the file's hash is still this one.
    pub open spec fn expected_hash(self) -> Option<Seq<char>> {
        match self {
            CommitRequestView::CreateFile { .. } => None,
            CommitRequestView::UpdateFile { sha, .. } => Some(sha),
            CommitRequestView::DeleteFile { sha, .. } => Some(sha),
        }
    }
}

} // verus!
