//! What holds of the adapter's operations, for every reply and every
//! binding. Each law is stated over the outcome functions by which the
//! operations' own contracts say what they return.

use crate::error::GitHubServiceError;
use crate::remote::{ContentItem, RemoteFailure, STATUS_NOT_FOUND, STATUS_UNPROCESSABLE};
use crate::service::{
    conditional_write_outcome, create_outcome, exists_outcome, hash_outcome, listing_outcome,
    GitHubServiceView,
};
use vstd::prelude::*;

verus! {

/// A path at which the service finds nothing does not exist, and saying so is
/// an answer, not an error: whatever the message, a 404 reads as `false`.
pub proof fn absent_path_does_not_exist(failure: RemoteFailure)
    requires
        failure.has_status(STATUS_NOT_FOUND),
    ensures
        exists_outcome(Err(failure)) == Ok::<bool, GitHubServiceError>(false),
{
}

/// A path for which the service sends a listing exists, whatever the listing
/// holds.
pub proof fn listed_path_exists(items: Vec<ContentItem>)
    ensures
        exists_outcome(Ok(items)) == Ok::<bool, GitHubServiceError>(true),
{
}

/// The existence check reads no failure as an answer but the 404: it says
/// `false` for that reply alone.
pub proof fn only_not_found_reads_as_absent(reply: Result<Vec<ContentItem>, RemoteFailure>)
    ensures
        exists_outcome(reply) == Ok::<bool, GitHubServiceError>(false) <==> (reply matches Err(
            failure,
        ) && failure.status_code == Some(STATUS_NOT_FOUND)),
{
}

/// The existence check hands every failure but the 404 on to the caller,
/// with its status and its message.
pub proof fn other_lookup_failures_are_handed_on(failure: RemoteFailure)
    requires
        !failure.has_status(STATUS_NOT_FOUND),
    ensures
        exists_outcome(Err(failure)) == Err::<bool, GitHubServiceError>(
            GitHubServiceError::RemoteApi {
                status_code: failure.status_code,
                message: failure.message,
            },
        ),
{
}

/// A create that the service carried out is a success.
pub proof fn carried_out_create_succeeds()
    ensures
        create_outcome(Ok(())) == Ok::<(), GitHubServiceError>(()),
{
}

/// A create that the service refuses with a 422 is a success as well: the
/// file is there, as it would be after a create that another caller won.
pub proof fn duplicate_create_succeeds(failure: RemoteFailure)
    requires
        failure.has_status(STATUS_UNPROCESSABLE),
    ensures
        create_outcome(Err(failure)) == Ok::<(), GitHubServiceError>(()),
{
}

/// A create reads no failure as success but the 422.
pub proof fn only_unprocessable_reads_as_created(reply: Result<(), RemoteFailure>)
    ensures
        create_outcome(reply) is Ok <==> (reply is Ok || (reply matches Err(failure)
            && failure.status_code == Some(STATUS_UNPROCESSABLE))),
{
}

/// A create fails on every failure but the 422, and the error then carries
/// the status and the message of the failure.
pub proof fn other_create_failures_are_handed_on(failure: RemoteFailure)
    requires
        !failure.has_status(STATUS_UNPROCESSABLE),
    ensures
        create_outcome(Err(failure)) == Err::<(), GitHubServiceError>(
            GitHubServiceError::RemoteApi {
                status_code: failure.status_code,
                message: failure.message,
            },
        ),
{
}

/// An update or a delete succeeds exactly where the service carried it out:
/// no failure is read as success.
pub proof fn conditional_write_succeeds_only_when_carried_out(reply: Result<(), RemoteFailure>)
    ensures
        conditional_write_outcome(reply) is Ok <==> reply is Ok,
{
}

/// Where the service refused an update or a delete, for a stale content hash
/// or for anything else, the error carries the status and the message of the
/// refusal.
pub proof fn refused_write_is_handed_on(failure: RemoteFailure)
    ensures
        conditional_write_outcome(Err(failure)) == Err::<(), GitHubServiceError>(
            GitHubServiceError::RemoteApi {
                status_code: failure.status_code,
                message: failure.message,
            },
        ),
{
}

/// A request that had no answer, because it could not be sent, timed out or
/// was cancelled, is a failure to every operation, and the error says what
/// the transport said.
pub proof fn unanswered_request_is_a_failure(failure: RemoteFailure)
    requires
        failure.status_code is None,
    ensures
        listing_outcome(Err(failure)) == Err::<Vec<ContentItem>, GitHubServiceError>(
            failure.surfaced(),
        ),
        exists_outcome(Err(failure)) == Err::<bool, GitHubServiceError>(failure.surfaced()),
        hash_outcome(Err(failure)) == Err::<String, GitHubServiceError>(failure.surfaced()),
        create_outcome(Err(failure)) == Err::<(), GitHubServiceError>(failure.surfaced()),
        conditional_write_outcome(Err(failure)) == Err::<(), GitHubServiceError>(
            failure.surfaced(),
        ),
        failure.surfaced() == (GitHubServiceError::RemoteApi {
            status_code: None,
            message: failure.message,
        }),
{
}

/// The content hash read from a listing is the one that the service sent
/// with the first item, and a request built with it is conditioned on that
/// very hash: the update and the delete present what the listing gave.
pub proof fn listed_hash_conditions_the_write(
    service: GitHubServiceView,
    items: Vec<ContentItem>,
    path: Seq<char>,
    message: Seq<char>,
    content: Seq<char>,
)
    requires
        items@.len() > 0,
    ensures
        hash_outcome(Ok(items)) matches Ok(sha) && sha == items@[0].sha && {
            &&& service.update_file_request(path, message, content, sha@).expected_hash()
                == Some(items@[0].sha@)
            &&& service.delete_file_request(path, message, sha@).expected_hash() == Some(
                items@[0].sha@,
            )
        },
{
}

/// Reading a content hash from a listing without items is not found.
pub proof fn empty_listing_has_no_hash(items: Vec<ContentItem>)
    requires
        items@.len() == 0,
    ensures
        hash_outcome(Ok(items)) == Err::<String, GitHubServiceError>(GitHubServiceError::NotFound),
{
}

/// Not found comes of an empty listing and of nothing else: a failure of the
/// content request, the 404 among them, is handed on as it is.
pub proof fn not_found_only_of_an_empty_listing(reply: Result<Vec<ContentItem>, RemoteFailure>)
    ensures
        hash_outcome(reply) == Err::<String, GitHubServiceError>(GitHubServiceError::NotFound)
            <==> (reply matches Ok(items) && items@.len() == 0),
{
}

/// The three readings of a content reply agree. Where the listing is had, the
/// path exists; where a hash is had, the listing is had; and what the
/// existence check hands on as an error, the other two hand on unchanged.
pub proof fn readings_of_a_listing_agree(reply: Result<Vec<ContentItem>, RemoteFailure>)
    ensures
        listing_outcome(reply) is Ok ==> exists_outcome(reply) == Ok::<bool, GitHubServiceError>(
            true,
        ),
        hash_outcome(reply) is Ok ==> listing_outcome(reply) is Ok,
        exists_outcome(reply) matches Err(e) ==> {
            &&& listing_outcome(reply) == Err::<Vec<ContentItem>, GitHubServiceError>(e)
            &&& hash_outcome(reply) == Err::<String, GitHubServiceError>(e)
        },
{
}

/// Every request that an adapter builds is meant for the repository it is
/// bound to, and is about the path it was given.
pub proof fn requests_keep_the_binding(
    service: GitHubServiceView,
    path: Seq<char>,
    message: Seq<char>,
    content: Seq<char>,
    sha: Seq<char>,
)
    ensures
        service.content_request(path).is_for(service.repo_owner, service.repo_name, path),
        service.create_file_request(path, message, content).is_for(
            service.repo_owner,
            service.repo_name,
            path,
        ),
        service.update_file_request(path, message, content, sha).is_for(
            service.repo_owner,
            service.repo_name,
            path,
        ),
        service.delete_file_request(path, message, sha).is_for(
            service.repo_owner,
            service.repo_name,
            path,
        ),
{
}

} // verus!
