use github_service::{ContentItem, GitHubService, GitHubServiceError, RemoteFailure};

fn service() -> GitHubService {
    GitHubService::new("token".to_string(), "octocat".to_string(), "notes".to_string())
}

fn failure(status: u16, message: &str) -> RemoteFailure {
    RemoteFailure { status_code: Some(status), message: message.to_string() }
}

fn unanswered(message: &str) -> RemoteFailure {
    RemoteFailure { status_code: None, message: message.to_string() }
}

fn item(path: &str, sha: &str) -> ContentItem {
    ContentItem { path: path.to_string(), sha: sha.to_string(), content: None }
}

fn remote_api(status: Option<u16>, message: &str) -> GitHubServiceError {
    GitHubServiceError::RemoteApi { status_code: status, message: message.to_string() }
}

#[test]
fn listing_is_handed_back_as_it_came() {
    let items = vec![
        item("notes/a.md", "aaa"),
        ContentItem {
            path: "notes/b.md".to_string(),
            sha: "bbb".to_string(),
            content: Some("aGVsbG8=".to_string()),
        },
    ];
    assert_eq!(service().get_content_items(Ok(items.clone())), Ok(items));
}

#[test]
fn empty_listing_is_a_listing() {
    assert_eq!(service().get_content_items(Ok(vec![])), Ok(vec![]));
}

#[test]
fn listing_failure_carries_status_and_message() {
    assert_eq!(
        service().get_content_items(Err(failure(403, "rate limit exceeded"))),
        Err(remote_api(Some(403), "rate limit exceeded"))
    );
}

#[test]
fn listing_does_not_read_not_found_as_an_answer() {
    assert_eq!(
        service().get_content_items(Err(failure(404, "Not Found"))),
        Err(remote_api(Some(404), "Not Found"))
    );
}

#[test]
fn note_exists_is_false_on_not_found() {
    assert_eq!(service().note_exists(Err(failure(404, "Not Found"))), Ok(false));
}

#[test]
fn note_exists_is_false_on_not_found_whatever_the_message() {
    assert_eq!(service().note_exists(Err(failure(404, ""))), Ok(false));
}

#[test]
fn note_exists_is_true_on_a_listing() {
    assert_eq!(service().note_exists(Ok(vec![item("notes/a.md", "aaa")])), Ok(true));
}

#[test]
fn note_exists_is_true_on_an_empty_listing() {
    assert_eq!(service().note_exists(Ok(vec![])), Ok(true));
}

#[test]
fn note_exists_hands_other_failures_on() {
    assert_eq!(
        service().note_exists(Err(failure(500, "server error"))),
        Err(remote_api(Some(500), "server error"))
    );
    assert_eq!(
        service().note_exists(Err(failure(401, "Bad credentials"))),
        Err(remote_api(Some(401), "Bad credentials"))
    );
    assert_eq!(
        service().note_exists(Err(failure(422, "unprocessable"))),
        Err(remote_api(Some(422), "unprocessable"))
    );
}

#[test]
fn note_exists_reads_only_the_exact_status() {
    assert_eq!(service().note_exists(Err(failure(403, "x"))), Err(remote_api(Some(403), "x")));
    assert_eq!(service().note_exists(Err(failure(405, "x"))), Err(remote_api(Some(405), "x")));
    assert_eq!(service().note_exists(Err(failure(410, "x"))), Err(remote_api(Some(410), "x")));
}

#[test]
fn note_exists_hands_on_a_request_without_answer() {
    assert_eq!(
        service().note_exists(Err(unanswered("connection reset"))),
        Err(remote_api(None, "connection reset"))
    );
}

#[test]
fn create_file_succeeds_when_carried_out() {
    assert_eq!(service().create_file(Ok(())), Ok(()));
}

#[test]
fn create_file_succeeds_on_a_duplicate() {
    let refused = failure(422, "Invalid request. \"sha\" wasn't supplied.");
    assert_eq!(service().create_file(Err(refused)), Ok(()));
}

#[test]
fn create_file_fails_on_a_server_error() {
    let res = service().create_file(Err(failure(500, "Internal Server Error")));
    assert_eq!(res, Err(remote_api(Some(500), "Internal Server Error")));
    match res {
        Err(GitHubServiceError::RemoteApi { status_code, .. }) => {
            assert_eq!(status_code, Some(500))
        }
        other => panic!("the failure should be handed on, not {:?}", other),
    }
}

#[test]
fn create_file_reads_only_the_exact_status() {
    assert_eq!(service().create_file(Err(failure(404, "x"))), Err(remote_api(Some(404), "x")));
    assert_eq!(service().create_file(Err(failure(409, "x"))), Err(remote_api(Some(409), "x")));
    assert_eq!(service().create_file(Err(failure(421, "x"))), Err(remote_api(Some(421), "x")));
    assert_eq!(service().create_file(Err(failure(423, "x"))), Err(remote_api(Some(423), "x")));
}

#[test]
fn create_file_hands_on_a_request_without_answer() {
    assert_eq!(
        service().create_file(Err(unanswered("timed out"))),
        Err(remote_api(None, "timed out"))
    );
}

#[test]
fn update_file_succeeds_when_carried_out() {
    assert_eq!(service().update_file(Ok(())), Ok(()));
}

#[test]
fn update_file_fails_on_a_stale_hash() {
    assert_eq!(
        service().update_file(Err(failure(409, "notes/a.md does not match abc123"))),
        Err(remote_api(Some(409), "notes/a.md does not match abc123"))
    );
}

#[test]
fn update_file_has_no_status_that_counts_as_success() {
    assert_eq!(service().update_file(Err(failure(422, "x"))), Err(remote_api(Some(422), "x")));
    assert_eq!(service().update_file(Err(failure(404, "x"))), Err(remote_api(Some(404), "x")));
    assert_eq!(service().update_file(Err(unanswered("x"))), Err(remote_api(None, "x")));
}

#[test]
fn delete_file_succeeds_when_carried_out() {
    assert_eq!(service().delete_file(Ok(())), Ok(()));
}

#[test]
fn delete_file_fails_on_a_stale_hash() {
    assert_eq!(
        service().delete_file(Err(failure(409, "notes/a.md does not match abc123"))),
        Err(remote_api(Some(409), "notes/a.md does not match abc123"))
    );
}

#[test]
fn delete_file_has_no_status_that_counts_as_success() {
    assert_eq!(service().delete_file(Err(failure(422, "x"))), Err(remote_api(Some(422), "x")));
    assert_eq!(service().delete_file(Err(failure(404, "x"))), Err(remote_api(Some(404), "x")));
    assert_eq!(service().delete_file(Err(unanswered("x"))), Err(remote_api(None, "x")));
}

#[test]
fn get_sha_gives_the_hash_of_the_item() {
    assert_eq!(service().get_sha(Ok(vec![item("notes/a.md", "abc123")])), Ok("abc123".to_string()));
}

#[test]
fn get_sha_gives_the_hash_of_the_first_item() {
    let items = vec![item("dir/one", "111"), item("dir/two", "222"), item("dir/three", "333")];
    assert_eq!(service().get_sha(Ok(items)), Ok("111".to_string()));
}

#[test]
fn get_sha_is_not_found_on_an_empty_listing() {
    assert_eq!(service().get_sha(Ok(vec![])), Err(GitHubServiceError::NotFound));
}

#[test]
fn get_sha_hands_failures_on() {
    assert_eq!(
        service().get_sha(Err(failure(404, "Not Found"))),
        Err(remote_api(Some(404), "Not Found"))
    );
    assert_eq!(
        service().get_sha(Err(failure(500, "server error"))),
        Err(remote_api(Some(500), "server error"))
    );
    assert_eq!(service().get_sha(Err(unanswered("dns"))), Err(remote_api(None, "dns")));
}

#[test]
fn from_keeps_status_and_message() {
    assert_eq!(
        GitHubServiceError::from(failure(502, "Bad Gateway")),
        remote_api(Some(502), "Bad Gateway")
    );
    assert_eq!(
        GitHubServiceError::from(unanswered("broken pipe")),
        remote_api(None, "broken pipe")
    );
}

#[test]
fn is_status_needs_an_answer_with_that_status() {
    assert!(failure(404, "x").is_status(404));
    assert!(!failure(404, "x").is_status(422));
    assert!(!failure(0, "x").is_status(404));
    assert!(!unanswered("x").is_status(404));
    assert!(!unanswered("x").is_status(0));
}

#[test]
fn the_three_readings_of_one_reply_agree() {
    let listed = vec![item("notes/a.md", "abc")];
    assert_eq!(service().note_exists(Ok(listed.clone())), Ok(true));
    assert_eq!(service().get_content_items(Ok(listed.clone())), Ok(listed.clone()));
    assert_eq!(service().get_sha(Ok(listed)), Ok("abc".to_string()));

    let refused = failure(503, "unavailable");
    let expected = remote_api(Some(503), "unavailable");
    assert_eq!(service().note_exists(Err(refused.clone())), Err(expected.clone()));
    assert_eq!(service().get_content_items(Err(refused.clone())), Err(expected.clone()));
    assert_eq!(service().get_sha(Err(refused)), Err(expected));
}
