use phase1_cli::objects::{
    ContributionFileSignature, ContributionLocator, ContributionSignatureLocator,
    ContributionState, LockedLocators, Task,
};
use phase1_cli::rest::{
    classify_response, contribute_chunk, coordinator_result, get_chunk, get_tasks_left, heartbeat,
    join_queue, lock_chunk, post_contribution_chunk, update_coordinator, ChunkRequest,
    CoordinatorError, FailureKind, PostChunkRequest, ResponseError, UploadStep, ERROR_STATUS,
};

fn refusal(reason: &str) -> CoordinatorError {
    CoordinatorError { reason: reason.to_string() }
}

fn locators() -> LockedLocators {
    LockedLocators::new(
        ContributionLocator::new(5, 0, 1, true),
        ContributionLocator::new(5, 0, 2, false),
    )
}

fn chunk_request() -> ChunkRequest {
    ChunkRequest { pubkey: "key".to_string(), locked_locators: locators() }
}

fn upload() -> PostChunkRequest {
    PostChunkRequest::new(
        ContributionLocator::new(5, 0, 2, false),
        vec![1, 2, 3],
        ContributionSignatureLocator::new(5, 0, 2, false),
        ContributionFileSignature::new(
            "sig".to_string(),
            ContributionState::new(vec![1], vec![2], None),
        ),
    )
}

#[test]
fn error_messages_name_the_kind_and_the_subject() {
    assert_eq!(
        ResponseError::CoordinatorError(refusal("chunk is locked")).message(),
        "Coordinator failed: chunk is locked"
    );
    assert_eq!(
        ResponseError::UnknownContributor("abc".to_string()).message(),
        "Could not find contributor with public key abc"
    );
    assert_eq!(
        ResponseError::UnknownTask(Task::new(0, 2)).message(),
        "Could not find the provided Task chunk 0, contribution 2 in coordinator state"
    );
    assert_eq!(
        ResponseError::UnknownTask(Task::new(18446744073709551615, 10)).message(),
        "Could not find the provided Task chunk 18446744073709551615, contribution 10 in coordinator state"
    );
}

#[test]
fn error_response_has_status_500_and_the_message_as_body() {
    let response = ResponseError::UnknownContributor("abc".to_string()).respond_to();
    assert_eq!(response.status, 500);
    assert_eq!(ERROR_STATUS, 500);
    assert_eq!(response.content_type, "application/json");
    assert_eq!(response.body, "Could not find contributor with public key abc");
}

#[test]
fn error_kinds() {
    assert_eq!(
        ResponseError::CoordinatorError(refusal("x")).kind(),
        FailureKind::CoordinatorRejected
    );
    assert_eq!(
        ResponseError::UnknownContributor("k".to_string()).kind(),
        FailureKind::UnknownContributor
    );
    assert_eq!(ResponseError::UnknownTask(Task::new(1, 1)).kind(), FailureKind::UnknownTask);
}

#[test]
fn client_recovers_the_kind_from_the_response() {
    let errors = vec![
        ResponseError::CoordinatorError(refusal("round not active")),
        ResponseError::CoordinatorError(refusal("")),
        ResponseError::CoordinatorError(refusal("Could not find contributor with public key x")),
        ResponseError::UnknownContributor("abc".to_string()),
        ResponseError::UnknownContributor(String::new()),
        ResponseError::UnknownTask(Task::new(3, 4)),
    ];
    for error in errors {
        let kind = error.kind();
        let response = error.respond_to();
        assert_eq!(classify_response(response.status, &response.body), kind);
    }
}

#[test]
fn classification_of_responses() {
    assert_eq!(classify_response(500, "anything else"), FailureKind::CoordinatorRejected);
    assert_eq!(classify_response(500, ""), FailureKind::CoordinatorRejected);
    assert_eq!(
        classify_response(500, "Could not find contributor with public key "),
        FailureKind::UnknownContributor
    );
    assert_eq!(
        classify_response(500, "Could not find the provided Task "),
        FailureKind::UnknownTask
    );
    assert_eq!(
        classify_response(500, "Could not find the provided task x"),
        FailureKind::CoordinatorRejected
    );
    assert_eq!(
        classify_response(404, "Could not find contributor with public key abc"),
        FailureKind::TransportFailure
    );
    assert_eq!(classify_response(502, "Coordinator failed: x"), FailureKind::TransportFailure);
}

#[test]
fn refusals_become_coordinator_errors() {
    assert_eq!(join_queue(Ok(())), Ok(()));
    assert_eq!(
        join_queue(Err(refusal("already queued"))),
        Err(ResponseError::CoordinatorError(refusal("already queued")))
    );
    assert_eq!(update_coordinator(Ok(())), Ok(()));
    assert_eq!(
        update_coordinator(Err(refusal("u"))),
        Err(ResponseError::CoordinatorError(refusal("u")))
    );
    assert_eq!(heartbeat(Ok(())), Ok(()));
    assert_eq!(
        heartbeat(Err(refusal("dropped"))),
        Err(ResponseError::CoordinatorError(refusal("dropped")))
    );
    assert_eq!(coordinator_result(Ok::<u8, CoordinatorError>(7)), Ok(7));
    assert_eq!(
        coordinator_result::<u8>(Err(refusal("r"))),
        Err(ResponseError::CoordinatorError(refusal("r")))
    );
}

#[test]
fn lock_chunk_hands_the_locators_out() {
    assert_eq!(lock_chunk(Ok((0, locators()))), Ok(locators()));
    assert_eq!(
        lock_chunk(Err(refusal("no chunk to lock"))),
        Err(ResponseError::CoordinatorError(refusal("no chunk to lock")))
    );
}

#[test]
fn contribute_chunk_hands_the_updated_locator_out() {
    let updated = ContributionLocator::new(5, 0, 3, false);
    assert_eq!(contribute_chunk(Ok(updated)), Ok(updated));
    assert_eq!(
        contribute_chunk(Err(refusal("nothing uploaded"))),
        Err(ResponseError::CoordinatorError(refusal("nothing uploaded")))
    );
}

#[test]
fn get_chunk_answers_with_the_pending_task_of_the_locators() {
    let pending = vec![Task::new(1, 1), Task::new(0, 2), Task::new(2, 1)];
    assert_eq!(get_chunk(chunk_request(), Some(&pending)), Ok(Task::new(0, 2)));
    assert_eq!(locators().task(), Task::new(0, 2));
}

#[test]
fn get_chunk_rejects_a_task_that_is_not_pending() {
    let pending = vec![Task::new(1, 1), Task::new(0, 3), Task::new(2, 2)];
    assert_eq!(
        get_chunk(chunk_request(), Some(&pending)),
        Err(ResponseError::UnknownTask(Task::new(0, 2)))
    );
    assert_eq!(
        get_chunk(chunk_request(), Some(&Vec::new())),
        Err(ResponseError::UnknownTask(Task::new(0, 2)))
    );
}

#[test]
fn get_chunk_rejects_an_unknown_contributor() {
    assert_eq!(
        get_chunk(chunk_request(), None),
        Err(ResponseError::UnknownContributor("key".to_string()))
    );
}

#[test]
fn get_tasks_left_lists_the_pending_tasks_in_order() {
    let pending = vec![Task::new(1, 1), Task::new(0, 2)];
    assert_eq!(get_tasks_left("key".to_string(), Some(&pending)), Ok(pending.clone()));
    assert_eq!(get_tasks_left("key".to_string(), Some(&Vec::new())), Ok(Vec::new()));
    assert_eq!(
        get_tasks_left("key".to_string(), None),
        Err(ResponseError::UnknownContributor("key".to_string()))
    );
}

#[test]
fn upload_writes_the_contribution_then_the_signature() {
    let step = post_contribution_chunk(upload());
    assert_eq!(step, UploadStep::WriteContribution(upload()));
    let step = step.written(Ok(()));
    assert_eq!(
        step,
        UploadStep::WriteSignature(
            ContributionSignatureLocator::new(5, 0, 2, false),
            ContributionFileSignature::new(
                "sig".to_string(),
                ContributionState::new(vec![1], vec![2], None),
            ),
        )
    );
    let step = step.written(Ok(()));
    assert_eq!(step, UploadStep::Answered(Ok(())));
    assert_eq!(step.written(Err(refusal("late"))), UploadStep::Answered(Ok(())));
}

#[test]
fn upload_ends_with_the_first_refusal() {
    let step = post_contribution_chunk(upload()).written(Err(refusal("not locked")));
    assert_eq!(
        step,
        UploadStep::Answered(Err(ResponseError::CoordinatorError(refusal("not locked"))))
    );
    let step = post_contribution_chunk(upload()).written(Ok(())).written(Err(refusal("bad")));
    assert_eq!(step, UploadStep::Answered(Err(ResponseError::CoordinatorError(refusal("bad")))));
}

#[test]
fn locators_name_where_the_signature_goes() {
    assert_eq!(
        locators().next_contribution_file_signature(),
        ContributionSignatureLocator::new(5, 0, 2, false)
    );
    assert_eq!(locators().next_contribution(), ContributionLocator::new(5, 0, 2, false));
    assert_eq!(locators().current_contribution(), ContributionLocator::new(5, 0, 1, true));
    let next = locators().next_contribution();
    assert_eq!(next.round_height(), 5);
    assert_eq!(next.chunk_id(), 0);
    assert_eq!(next.contribution_id(), 2);
    assert!(!next.is_verified());
    let task = Task::new(4, 9);
    assert_eq!(task.chunk_id(), 4);
    assert_eq!(task.contribution_id(), 9);
    assert!(task.is_in(&vec![Task::new(4, 8), Task::new(4, 9)]));
    assert!(!task.is_in(&vec![Task::new(4, 8), Task::new(9, 4)]));
}
