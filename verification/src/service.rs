//! The adapter: a fixed repository binding, the requests it asks for, and its
//! reading of each reply.
//!
//! What an operation returns is a function of the reply alone. The functions
//! `*_outcome` say which, and the methods that read a reply are held to them.

use crate::credentials::{is_usable_token, token_usable};
use crate::error::GitHubServiceError;
use crate::remote::{
    CommitRequest, CommitRequestView, ContentItem, ContentRequest, ContentRequestView,
    RemoteFailure, STATUS_NOT_FOUND, STATUS_UNPROCESSABLE,
};
use vstd::prelude::*;

verus! {

/// The adapter, bound for its lifetime to one repository of one account.
///
/// It holds the credentials and the binding, and nothing that changes: every
/// method takes it by shared reference.
pub struct GitHubService {
    token: String,
    repo_owner: String,
    repo_name: String,
}

/// A [`GitHubService`] as a mathematical value.
pub struct GitHubServiceView {
    pub token: Seq<char>,
    pub repo_owner: Seq<char>,
    pub repo_name: Seq<char>,
}

impl View for GitHubService {
    type V = GitHubServiceView;

    closed spec fn view(&self) -> GitHubServiceView {
        GitHubServiceView {
            token: self.token@,
            repo_owner: self.repo_owner@,
            repo_name: self.repo_name@,
        }
    }
}

impl GitHubServiceView {
    /// The request to list what lies at `path` in the bound repository.
    pub open spec fn content_request(self, path: Seq<char>) -> ContentRequestView {
        ContentRequestView { repo_owner: self.repo_owner, repo_name: self.repo_name, path }
    }

    /// The request to create a file in the bound repository.
    pub open spec fn create_file_request(
        self,
        path: Seq<char>,
        message: Seq<char>,
        content: Seq<char>,
    ) -> CommitRequestView {
        CommitRequestView::CreateFile {
            repo_owner: self.repo_owner,
            repo_name: self.repo_name,
            path,
            message,
            content,
        }
    }

    /// The request to replace a file's content in the bound repository, on
    /// condition that its content hash is still `sha`.
    pub open spec fn update_file_request(
        self,
        path: Seq<char>,
        message: Seq<char>,
        content: Seq<char>,
        sha: Seq<char>,
    ) -> CommitRequestView {
        CommitRequestView::UpdateFile {
            repo_owner: self.repo_owner,
            repo_name: self.repo_name,
            path,
            message,
            content,
            sha,
        }
    }

    /// The request to delete a file of the bound repository, on condition
    /// that its content hash is still `sha`.
    pub open spec fn delete_file_request(
        self,
        path: Seq<char>,
        message: Seq<char>,
        sha: Seq<char>,
    ) -> CommitRequestView {
        CommitRequestView::DeleteFile {
            repo_owner: self.repo_owner,
            repo_name: self.repo_name,
            path,
            message,
            sha,
        }
    }
}

/// What a listing gives back for each reply to the content request: the
/// items as they came, or the failure handed on.
pub open spec fn listing_outcome(reply: Result<Vec<ContentItem>, RemoteFailure>) -> Result<
    Vec<ContentItem>,
    GitHubServiceError,
> {
    match reply {
        Ok(items) => Ok(items),
        Err(failure) => Err(failure.surfaced()),
    }
}

/// What the existence check answers for each reply to the content request.
/// A listing means that the path exists. A 404 means that it does not, and
/// is an answer like the other. Every other failure is handed on.
pub open spec fn exists_outcome(reply: Result<Vec<ContentItem>, RemoteFailure>) -> Result<
    bool,
    GitHubServiceError,
> {
    match reply {
        Ok(_) => Ok(true),
        Err(failure) => if failure.has_status(STATUS_NOT_FOUND) {
            Ok(false)
        } else {
            Err(failure.surfaced())
        },
    }
}

/// What a create gives back for each reply to its request. A 422 counts as
/// success: the file is there, whoever put it there. Every other failure is
/// handed on.
pub open spec fn create_outcome(reply: Result<(), RemoteFailure>) -> Result<
    (),
    GitHubServiceError,
> {
    match reply {
        Ok(_) => Ok(()),
        Err(failure) => if failure.has_status(STATUS_UNPROCESSABLE) {
            Ok(())
        } else {
            Err(failure.surfaced())
        },
    }
}

/// What an update or a delete gives back for each reply to its request:
/// success where the service carried it out, and every failure handed on,
/// that of a stale content hash among them.
pub open spec fn conditional_write_outcome(reply: Result<(), RemoteFailure>) -> Result<
    (),
    GitHubServiceError,
> {
    match reply {
        Ok(_) => Ok(()),
        Err(failure) => Err(failure.surfaced()),
    }
}

/// The content hash that a listing gives for its path: that of its first
/// item, where it has one.
pub open spec fn listed_hash(items: Seq<ContentItem>) -> Option<String> {
    if items.len() > 0 {
        Some(items[0].sha)
    } else {
        None
    }
}

/// What the reading of a content hash gives back for each reply to the
/// content request: the listed hash, not found where the listing is empty,
/// or the failure handed on.
pub open spec fn hash_outcome(reply: Result<Vec<ContentItem>, RemoteFailure>) -> Result<
    String,
    GitHubServiceError,
> {
    match reply {
        Ok(items) => match listed_hash(items@) {
            Some(sha) => Ok(sha),
            None => Err(GitHubServiceError::NotFound),
        },
        Err(failure) => Err(failure.surfaced()),
    }
}

impl GitHubService {
    /// No adapter exists but with credentials that can form a client.
    #[verifier::type_invariant]
    spec fn credentials_usable(&self) -> bool {
        token_usable(self.token@)
    }

    /// Binds an adapter to the repository `repo_name` of `repo_owner`, with
    /// `token` as its credentials.
    ///
    /// The token must be able to form a client: see [`GitHubService::try_new`]
    /// for the constructor that tests it.
    pub fn new(token: String, repo_owner: String, repo_name: String) -> (service: Self)
        requires
            token_usable(token@),
        ensures
            service@ == (GitHubServiceView {
                token: token@,
                repo_owner: repo_owner@,
                repo_name: repo_name@,
            }),
    {
        GitHubService { token, repo_owner, repo_name }
    }

    /// Binds an adapter as [`GitHubService::new`] does, or reports a
    /// configuration error where the token cannot form a client.
    pub fn try_new(token: String, repo_owner: String, repo_name: String) -> (res: Result<
        Self,
        GitHubServiceError,
    >)
        ensures
            match res {
                Ok(service) => token_usable(token@) && service@ == (GitHubServiceView {
                    token: token@,
                    repo_owner: repo_owner@,
                    repo_name: repo_name@,
                }),
                Err(e) => !token_usable(token@) && e == GitHubServiceError::Configuration,
            },
    {
        if is_usable_token(token.as_str()) {
            Ok(GitHubService::new(token, repo_owner, repo_name))
        } else {
            Err(GitHubServiceError::Configuration)
        }
    }

    /// The credentials the adapter was made with.
    pub fn token(&self) -> (token: &str)
        ensures
            token@ == self@.token,
            token_usable(token@),
    {
        proof {
            use_type_invariant(self);
        }
        self.token.as_str()
    }

    /// The account that owns the repository the adapter is bound to.
    pub fn repo_owner(&self) -> (owner: &str)
        ensures
            owner@ == self@.repo_owner,
    {
        self.repo_owner.as_str()
    }

    /// The name of the repository the adapter is bound to.
    pub fn repo_name(&self) -> (name: &str)
        ensures
            name@ == self@.repo_name,
    {
        self.repo_name.as_str()
    }

    /// Builds the request that lists what lies at `path`. It serves the
    /// listing, the existence check and the reading of a content hash alike.
    pub fn content_request(&self, path: &str) -> (request: ContentRequest)
        ensures
            request@ == self@.content_request(path@),
    {
        ContentRequest {
            repo_owner: self.repo_owner.clone(),
            repo_name: self.repo_name.clone(),
            path: path.to_owned(),
        }
    }

    /// Builds the request that creates a file at `path`.
    pub fn create_file_request(&self, path: &str, message: &str, content: &str) -> (request:
        CommitRequest)
        ensures
            request@ == self@.create_file_request(path@, message@, content@),
    {
        CommitRequest::CreateFile {
            repo_owner: self.repo_owner.clone(),
            repo_name: self.repo_name.clone(),
            path: path.to_owned(),
            message: message.to_owned(),
            content: content.to_owned(),
        }
    }

    /// Builds the request that replaces the content of the file at `path`,
    /// if its content hash is still `sha`.
    pub fn update_file_request(&self, path: &str, message: &str, content: &str, sha: &str) -> (
        request: CommitRequest)
        ensures
            request@ == self@.update_file_request(path@, message@, content@, sha@),
    {
        CommitRequest::UpdateFile {
            repo_owner: self.repo_owner.clone(),
            repo_name: self.repo_name.clone(),
            path: path.to_owned(),
            message: message.to_owned(),
            content: content.to_owned(),
            sha: sha.to_owned(),
        }
    }

    /// Builds the request that deletes the file at `path`, if its content
    /// hash is still `sha`.
    pub fn delete_file_request(&self, path: &str, message: &str, sha: &str) -> (request:
        CommitRequest)
        ensures
            request@ == self@.delete_file_request(path@, message@, sha@),
    {
        CommitRequest::DeleteFile {
            repo_owner: self.repo_owner.clone(),
            repo_name: self.repo_name.clone(),
            path: path.to_owned(),
            message: message.to_owned(),
            sha: sha.to_owned(),
        }
    }

    /// The listing of a path, from the reply to the
    /// [content request](GitHubService::content_request) for it: the items as
    /// the service sent them, or the failure as a remote API error.
    pub fn get_content_items(&self, reply: Result<Vec<ContentItem>, RemoteFailure>) -> (res:
        Result<Vec<ContentItem>, GitHubServiceError>)
        ensures
            res == listing_outcome(reply),
    {
        match reply {
            Ok(items) => Ok(items),
            Err(failure) => Err(GitHubServiceError::from(failure)),
        }
    }

    /// Whether anything lies at a path, from the reply to the
    /// [content request](GitHubService::content_request) for it.
    ///
    /// A listing says that it does. A 404 says that it does not, which is an
    /// answer and no error. Any other failure is a remote API error.
    pub fn note_exists(&self, reply: Result<Vec<ContentItem>, RemoteFailure>) -> (res: Result<
        bool,
        GitHubServiceError,
    >)
        ensures
            res == exists_outcome(reply),
    {
        match reply {
            Ok(_) => Ok(true),
            Err(failure) => {
                if failure.is_status(STATUS_NOT_FOUND) {
                    Ok(false)
                } else {
                    Err(GitHubServiceError::from(failure))
                }
            },
        }
    }

    /// How a create ended, from the reply to the
    /// [create request](GitHubService::create_file_request).
    ///
    /// A 422 is success too: the file is there, which is what was wanted,
    /// whoever created it and whatever it holds. Any other failure is a
    /// remote API error.
    pub fn create_file(&self, reply: Result<(), RemoteFailure>) -> (res: Result<
        (),
        GitHubServiceError,
    >)
        ensures
            res == create_outcome(reply),
    {
        match reply {
            Ok(_) => Ok(()),
            Err(failure) => {
                if failure.is_status(STATUS_UNPROCESSABLE) {
                    Ok(())
                } else {
                    Err(GitHubServiceError::from(failure))
                }
            },
        }
    }

    /// How an update ended, from the reply to the
    /// [update request](GitHubService::update_file_request).
    ///
    /// Every failure is a remote API error, that of a content hash gone stale
    /// too. Nothing is tried again, and no newer hash is fetched.
    pub fn update_file(&self, reply: Result<(), RemoteFailure>) -> (res: Result<
        (),
        GitHubServiceError,
    >)
        ensures
            res == conditional_write_outcome(reply),
    {
        match reply {
            Ok(_) => Ok(()),
            Err(failure) => Err(GitHubServiceError::from(failure)),
        }
    }

    /// How a delete ended, from the reply to the
    /// [delete request](GitHubService::delete_file_request).
    ///
    /// Every failure is a remote API error, that of a content hash gone stale
    /// too.
    pub fn delete_file(&self, reply: Result<(), RemoteFailure>) -> (res: Result<
        (),
        GitHubServiceError,
    >)
        ensures
            res == conditional_write_outcome(reply),
    {
        match reply {
            Ok(_) => Ok(()),
            Err(failure) => Err(GitHubServiceError::from(failure)),
        }
    }

    /// The content hash of what lies at a path, from the reply to the
    /// [content request](GitHubService::content_request) for it: the hash of
    /// the first item listed.
    ///
    /// A listing without items is not found. A failure is a remote API error,
    /// the 404 like any other.
    pub fn get_sha(&self, reply: Result<Vec<ContentItem>, RemoteFailure>) -> (res: Result<
        String,
        GitHubServiceError,
    >)
        ensures
            res == hash_outcome(reply),
    {
        let items = self.get_content_items(reply)?;
        if items.len() == 0 {
            Err(GitHubServiceError::NotFound)
        } else {
            Ok(items[0].sha.clone())
        }
    }
}

} // verus!
