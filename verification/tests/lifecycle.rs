use phase1_cli::contributor::Contributor;
use phase1_cli::hashing::calculate_hash;
use phase1_cli::heartbeat::{Beat, Heartbeat};
use phase1_cli::info::{ContributionInfo, ContributorStatus};
use phase1_cli::lifecycle::{Action, Event, LifecycleState, Notice, Phase};
use phase1_cli::objects::{
    ContributionFileSignature, ContributionLocator, ContributionState, LockedLocators, Task,
};
use phase1_cli::rest::{ChunkRequest, ContributeChunkRequest, FailureKind, PostChunkRequest};
use phase1_cli::text::pretty_hash;

const PUBKEY: &str = "aGVsbG8gd29ybGQ=";

fn locators() -> LockedLocators {
    LockedLocators::new(
        ContributionLocator::new(5, 0, 1, true),
        ContributionLocator::new(5, 0, 2, false),
    )
}

fn contributor(now: i64) -> Contributor {
    Contributor::new(ContributionInfo::default(), PUBKEY.to_string(), now)
}

/// A contributor that has joined and has been told that it is its turn.
fn at_lock(start: i64) -> Contributor {
    let mut c = contributor(start);
    assert_eq!(c.step(Event::Started, start), Action::JoinQueue);
    assert_eq!(c.step(Event::QueueJoined, start + 1), Action::GetStatus);
    assert_eq!(c.step(Event::Status(ContributorStatus::Round), start + 2), Action::LockChunk);
    c
}

/// A contributor whose upload is out, with the request it sent.
fn at_upload() -> (Contributor, PostChunkRequest) {
    let mut c = at_lock(100);
    c.step(Event::Locked(locators()), 110);
    c.step(Event::TaskFetched(Task::new(0, 2)), 120);
    c.step(Event::ChallengeDownloaded(vec![7u8; 32]), 130);
    c.step(Event::ChallengePersisted, 140);
    c.step(Event::Computed { contribution: vec![9u8; 32], expected_len: 32 }, 150);
    let action = c.step(
        Event::Signed { hash_signature: "sh".to_string(), state_signature: "ss".to_string() },
        160,
    );
    match action {
        Action::Upload(request) => (c, request),
        other => panic!("expected an upload, got {:?}", other),
    }
}

#[test]
fn end_to_end_scenario() {
    let mut c = contributor(1000);
    assert_eq!(c.phase(), Phase::NotQueued);
    assert_eq!(c.state(), LifecycleState::NotQueued);

    assert_eq!(c.step(Event::Started, 1000), Action::JoinQueue);
    assert_eq!(c.step(Event::QueueJoined, 1010), Action::GetStatus);
    assert_eq!(c.state(), LifecycleState::Queued);

    assert_eq!(
        c.step(Event::Status(ContributorStatus::Queue(3, 3)), 1020),
        Action::Wait(Notice::Queue { position: 3, size: 3, wait_minutes: 15 })
    );
    assert_eq!(
        c.step(Event::Status(ContributorStatus::Queue(2, 3)), 1030),
        Action::Wait(Notice::Queue { position: 2, size: 3, wait_minutes: 10 })
    );
    assert_eq!(
        c.step(Event::Status(ContributorStatus::Queue(1, 3)), 1040),
        Action::Wait(Notice::Queue { position: 1, size: 3, wait_minutes: 5 })
    );
    assert_eq!(c.state(), LifecycleState::Queued);

    assert_eq!(c.step(Event::Status(ContributorStatus::Round), 1050), Action::LockChunk);
    assert_eq!(c.state(), LifecycleState::Active);

    let request = ChunkRequest { pubkey: PUBKEY.to_string(), locked_locators: locators() };
    assert_eq!(
        c.step(Event::Locked(locators()), 1060),
        Action::GetTask(ChunkRequest { pubkey: PUBKEY.to_string(), locked_locators: locators() })
    );
    assert_eq!(c.info().ceremony_round, 5);
    assert_eq!(c.step(Event::TaskFetched(Task::new(0, 2)), 1070), Action::DownloadChallenge(request));

    let challenge = vec![7u8; 1024];
    assert_eq!(
        c.step(Event::ChallengeDownloaded(challenge.clone()), 1080),
        Action::PersistChallenge {
            file_name: "namada_challenge_round_5.params".to_string(),
            challenge: challenge.clone(),
        }
    );

    let h1 = b"h1".to_vec();
    let h2 = b"h2".to_vec();
    assert_eq!(
        c.step_given(
            Event::ChallengePersisted,
            1090,
            h1.clone(),
            Some("namada_contribution_round_5_public_key_k.params".to_string()),
        ),
        Action::Compute {
            response_file: "namada_contribution_round_5_public_key_k.params".to_string(),
            challenge: challenge.clone(),
            challenge_hash: h1.clone(),
            round_height: 5,
            contribution_id: 2,
        }
    );

    let contribution = vec![9u8; 1024];
    assert_eq!(
        c.step_given(
            Event::Computed { contribution: contribution.clone(), expected_len: 1024 },
            2000,
            h2.clone(),
            None,
        ),
        Action::Sign {
            contribution_hash: "\n\n\t6832 \n".to_string(),
            state_message: "{\"challengeHash\":\"6831\",\"responseHash\":\"6832\",\"nextChallengeHash\":null}"
                .to_string(),
        }
    );

    let upload = PostChunkRequest::new(
        ContributionLocator::new(5, 0, 2, false),
        contribution.clone(),
        locators().next_contribution_file_signature(),
        ContributionFileSignature::new(
            "signature over the state".to_string(),
            ContributionState::new(h1.clone(), h2.clone(), None),
        ),
    );
    assert_eq!(
        c.step(
            Event::Signed {
                hash_signature: "signature over the hash".to_string(),
                state_signature: "signature over the state".to_string(),
            },
            2010,
        ),
        Action::Upload(upload)
    );

    assert_eq!(
        c.step(Event::Uploaded, 2020),
        Action::Notify(ContributeChunkRequest { pubkey: PUBKEY.to_string(), chunk_id: 0 })
    );

    let summary = match c.step(Event::Notified(ContributionLocator::new(5, 0, 3, false)), 2050) {
        Action::SignSummary(info) => info,
        other => panic!("expected the summary for signing, got {:?}", other),
    };
    assert_eq!(summary.contributor_info_signature, "");
    assert_eq!(summary.public_key, PUBKEY);
    assert_eq!(summary.ceremony_round, 5);
    assert_eq!(summary.contribution_hash, "\n\n\t6832 \n");
    assert_eq!(summary.contribution_hash_signature, "signature over the hash");
    assert_eq!(summary.timestamps.start_contribution, Some(1000));
    assert_eq!(summary.timestamps.joined_queue, Some(1010));
    assert_eq!(summary.timestamps.challenge_locked, Some(1060));
    assert_eq!(summary.timestamps.challenge_downloaded, Some(1080));
    assert_eq!(summary.timestamps.start_computation, Some(1090));
    assert_eq!(summary.timestamps.end_computation, Some(2000));
    assert_eq!(summary.timestamps.end_contribution, Some(2050));

    let mut signed = summary.clone();
    signed.contributor_info_signature = "signature over the summary".to_string();
    assert_eq!(
        c.step(Event::SummarySigned("signature over the summary".to_string()), 2060),
        Action::PostSummary {
            file_name: "namada_contributor_info_round_5.json".to_string(),
            info: signed,
        }
    );
    assert!(!c.heartbeat_cancelled());

    assert_eq!(c.step(Event::SummaryPosted, 2070), Action::CancelHeartbeat);
    assert!(c.heartbeat_cancelled());
    assert_eq!(c.step(Event::HeartbeatCancelled, 2080), Action::Wait(Notice::Contributed));
    assert_eq!(c.state(), LifecycleState::AwaitingNextPoll);

    assert_eq!(c.step(Event::Status(ContributorStatus::Finished), 2090), Action::Finish);
    assert_eq!(c.phase(), Phase::Done);
    assert_eq!(c.state(), LifecycleState::Done);
    assert!(c.heartbeat_cancelled());
    assert_eq!(c.step(Event::Status(ContributorStatus::Round), 3000), Action::Finish);
    assert_eq!(c.phase(), Phase::Done);
}

#[test]
fn step_hashes_the_challenge_and_the_contribution() {
    let mut c = at_lock(0);
    c.step(Event::Locked(locators()), 1);
    c.step(Event::TaskFetched(Task::new(0, 2)), 2);
    let challenge = b"abc".to_vec();
    c.step(Event::ChallengeDownloaded(challenge.clone()), 3);
    let h1 = calculate_hash(&challenge);
    assert_eq!(
        c.step(Event::ChallengePersisted, 4),
        Action::Compute {
            response_file: "namada_contribution_round_5_public_key_StV1DL6CwTryKyV.params"
                .to_string(),
            challenge: challenge.clone(),
            challenge_hash: h1.clone(),
            round_height: 5,
            contribution_id: 2,
        }
    );
    let contribution = b"abcd".to_vec();
    let h2 = calculate_hash(&contribution);
    assert_ne!(h1, h2);
    let state = ContributionState::new(h1.clone(), h2.clone(), None);
    assert_eq!(
        c.step(Event::Computed { contribution: contribution.clone(), expected_len: 4 }, 5),
        Action::Sign {
            contribution_hash: pretty_hash(&h2),
            state_message: state.signature_message(),
        }
    );
    assert_eq!(c.contribution_state(), state);
}

#[test]
fn public_key_that_is_not_base64_fails_the_computation() {
    let mut c = Contributor::new(ContributionInfo::default(), "not base64!".to_string(), 0);
    c.step(Event::Started, 0);
    c.step(Event::QueueJoined, 0);
    c.step(Event::Status(ContributorStatus::Round), 0);
    c.step(Event::Locked(locators()), 0);
    c.step(Event::TaskFetched(Task::new(0, 2)), 0);
    c.step(Event::ChallengeDownloaded(vec![1, 2, 3]), 0);
    assert_eq!(
        c.step(Event::ChallengePersisted, 0),
        Action::Abort(FailureKind::ComputationFailure)
    );
    assert_eq!(c.phase(), Phase::Aborted(FailureKind::ComputationFailure));
}

#[test]
fn contribution_of_unexpected_size_is_a_computation_failure() {
    let mut c = at_lock(0);
    c.step(Event::Locked(locators()), 1);
    c.step(Event::TaskFetched(Task::new(0, 2)), 2);
    c.step(Event::ChallengeDownloaded(vec![7u8; 16]), 3);
    c.step(Event::ChallengePersisted, 4);
    assert_eq!(
        c.step(Event::Computed { contribution: vec![9u8; 15], expected_len: 16 }, 5),
        Action::Abort(FailureKind::ComputationFailure)
    );
    assert_eq!(c.state(), LifecycleState::Aborted);
}

#[test]
fn task_other_than_the_locked_one_is_unknown() {
    let mut c = at_lock(0);
    c.step(Event::Locked(locators()), 1);
    assert_eq!(
        c.step(Event::TaskFetched(Task::new(0, 3)), 2),
        Action::Abort(FailureKind::UnknownTask)
    );
    assert_eq!(c.phase(), Phase::Aborted(FailureKind::UnknownTask));

    let mut c = at_lock(0);
    c.step(Event::Locked(locators()), 1);
    assert_eq!(
        c.step(Event::TaskFetched(Task::new(1, 2)), 2),
        Action::Abort(FailureKind::UnknownTask)
    );
}

#[test]
fn failure_aborts_with_its_kind_and_stays_aborted() {
    let kinds = [
        FailureKind::CoordinatorRejected,
        FailureKind::UnknownContributor,
        FailureKind::UnknownTask,
        FailureKind::TransportFailure,
        FailureKind::ComputationFailure,
    ];
    for kind in kinds {
        let mut c = at_lock(0);
        assert_eq!(c.step(Event::Failed(kind), 1), Action::Abort(kind));
        assert_eq!(c.phase(), Phase::Aborted(kind));
        assert_eq!(c.step(Event::Locked(locators()), 2), Action::Abort(kind));
        assert_eq!(c.step(Event::Failed(FailureKind::TransportFailure), 3), Action::Abort(kind));
        assert_eq!(c.phase(), Phase::Aborted(kind));
        assert!(!c.heartbeat_cancelled());
    }
}

#[test]
fn event_out_of_turn_is_a_transport_failure() {
    let mut c = contributor(0);
    assert_eq!(
        c.step(Event::QueueJoined, 1),
        Action::Abort(FailureKind::TransportFailure)
    );

    let mut c = at_lock(0);
    assert_eq!(c.step(Event::Uploaded, 1), Action::Abort(FailureKind::TransportFailure));

    let mut c = at_lock(0);
    c.step(Event::Locked(locators()), 1);
    assert_eq!(
        c.step(Event::ChallengeDownloaded(vec![1]), 2),
        Action::Abort(FailureKind::TransportFailure)
    );
}

#[test]
fn other_status_is_reported_and_polled_again() {
    let mut c = contributor(0);
    c.step(Event::Started, 0);
    c.step(Event::QueueJoined, 1);
    assert_eq!(
        c.step(Event::Status(ContributorStatus::Other), 2),
        Action::Wait(Notice::Anomaly)
    );
    assert_eq!(c.phase(), Phase::Queued);
    assert_eq!(
        c.step(Event::Status(ContributorStatus::Other), 3),
        Action::Wait(Notice::Anomaly)
    );
    assert_eq!(c.phase(), Phase::Queued);
    assert_eq!(c.step(Event::Status(ContributorStatus::Finished), 4), Action::Finish);
}

#[test]
fn estimated_wait_does_not_overflow() {
    let mut c = contributor(0);
    c.step(Event::Started, 0);
    c.step(Event::QueueJoined, 1);
    assert_eq!(
        c.step(Event::Status(ContributorStatus::Queue(u64::MAX, u64::MAX)), 2),
        Action::Wait(Notice::Queue {
            position: u64::MAX,
            size: u64::MAX,
            wait_minutes: 92233720368547758075,
        })
    );
}

#[test]
fn instants_stay_in_order_when_the_clock_steps_back() {
    let mut c = contributor(1000);
    c.step(Event::Started, 900);
    c.step(Event::QueueJoined, 900);
    c.step(Event::Status(ContributorStatus::Round), 800);
    c.step(Event::Locked(locators()), 700);
    c.step(Event::TaskFetched(Task::new(0, 2)), 600);
    c.step(Event::ChallengeDownloaded(vec![7u8; 8]), 1500);
    c.step(Event::ChallengePersisted, 1400);
    c.step(Event::Computed { contribution: vec![9u8; 8], expected_len: 8 }, 1600);
    c.step(
        Event::Signed { hash_signature: "a".to_string(), state_signature: "b".to_string() },
        0,
    );
    c.step(Event::Uploaded, 0);
    c.step(Event::Notified(ContributionLocator::new(5, 0, 3, false)), i64::MIN);
    let stamps = c.info().timestamps;
    assert_eq!(stamps.start_contribution, Some(1000));
    assert_eq!(stamps.joined_queue, Some(1000));
    assert_eq!(stamps.challenge_locked, Some(1000));
    assert_eq!(stamps.challenge_downloaded, Some(1500));
    assert_eq!(stamps.start_computation, Some(1500));
    assert_eq!(stamps.end_computation, Some(1600));
    assert_eq!(stamps.end_contribution, Some(1600));
}

#[test]
fn upload_can_be_sent_again_unchanged() {
    let (c, sent) = at_upload();
    assert_eq!(c.phase(), Phase::Uploading);
    let again = c.pending_upload().expect("an upload is out");
    assert_eq!(again, sent);
    let once_more = c.pending_upload().expect("an upload is out");
    assert_eq!(once_more, sent);
    assert_eq!(c.phase(), Phase::Uploading);
    assert_eq!(sent.contribution, vec![9u8; 32]);
    assert_eq!(sent.contribution_locator, ContributionLocator::new(5, 0, 2, false));
    assert_eq!(sent.contribution_file_signature.state, c.contribution_state());
    assert_eq!(
        sent.contribution_file_signature.state,
        ContributionState::new(
            calculate_hash(&vec![7u8; 32]),
            calculate_hash(&vec![9u8; 32]),
            None
        )
    );
}

#[test]
fn no_upload_is_pending_outside_the_upload_phase() {
    let c = at_lock(0);
    assert_eq!(c.pending_upload(), None);
    let (mut c, _) = at_upload();
    c.step(Event::Uploaded, 200);
    assert_eq!(c.pending_upload(), None);
}

#[test]
fn heartbeat_is_cancelled_once_over_two_contributions() {
    let (mut c, _) = at_upload();
    c.step(Event::Uploaded, 200);
    c.step(Event::Notified(ContributionLocator::new(5, 0, 3, false)), 210);
    c.step(Event::SummarySigned("s".to_string()), 220);
    assert!(!c.heartbeat_cancelled());
    assert_eq!(c.step(Event::SummaryPosted, 230), Action::CancelHeartbeat);
    assert!(c.heartbeat_cancelled());
    assert_eq!(c.step(Event::HeartbeatCancelled, 240), Action::Wait(Notice::Contributed));

    // A second turn: the whole cycle again, and no second cancellation.
    assert_eq!(c.step(Event::Status(ContributorStatus::Round), 250), Action::LockChunk);
    assert_eq!(c.info().timestamps.challenge_locked, None);
    assert_eq!(c.info().timestamps.joined_queue, Some(101));
    c.step(Event::Locked(locators()), 260);
    c.step(Event::TaskFetched(Task::new(0, 2)), 270);
    c.step(Event::ChallengeDownloaded(vec![7u8; 32]), 280);
    c.step(Event::ChallengePersisted, 290);
    c.step(Event::Computed { contribution: vec![9u8; 32], expected_len: 32 }, 300);
    c.step(
        Event::Signed { hash_signature: "sh".to_string(), state_signature: "ss".to_string() },
        310,
    );
    c.step(Event::Uploaded, 320);
    c.step(Event::Notified(ContributionLocator::new(5, 0, 3, false)), 330);
    c.step(Event::SummarySigned("s".to_string()), 340);
    assert_eq!(c.step(Event::SummaryPosted, 350), Action::Wait(Notice::Contributed));
    assert!(c.heartbeat_cancelled());
    assert_eq!(c.phase(), Phase::AwaitingNextPoll);
    assert_eq!(
        c.step(Event::Status(ContributorStatus::Queue(2, 4)), 360),
        Action::Wait(Notice::Queue { position: 2, size: 4, wait_minutes: 10 })
    );
    assert_eq!(c.phase(), Phase::Queued);
}

#[test]
fn step_now_stamps_by_the_wall_clock() {
    let mut c = contributor(0);
    assert_eq!(c.step_now(Event::Started), Action::JoinQueue);
    assert_eq!(c.step_now(Event::QueueJoined), Action::GetStatus);
    let joined = c.info().timestamps.joined_queue.expect("joining is stamped");
    // Later than the first of January 2020.
    assert!(joined > 1_577_836_800_000);
    assert_eq!(c.info().timestamps.start_contribution, Some(0));
}

#[test]
fn second_cancellation_of_the_heartbeat_is_a_no_op() {
    let mut task = Heartbeat::new();
    assert!(task.is_running());
    assert_eq!(task.beat(Ok(())), Beat::Again);
    assert!(task.cancel());
    assert_eq!(task, Heartbeat::Cancelled);
    assert!(!task.cancel());
    assert_eq!(task, Heartbeat::Cancelled);
    assert_eq!(task.beat(Ok(())), Beat::Stop);
    assert_eq!(task.beat(Err(FailureKind::TransportFailure)), Beat::Stop);
    assert_eq!(task, Heartbeat::Cancelled);
}

#[test]
fn failed_heartbeat_ends_the_task() {
    let mut task = Heartbeat::new();
    assert_eq!(task.beat(Err(FailureKind::UnknownContributor)), Beat::Stop);
    assert_eq!(task, Heartbeat::Failed(FailureKind::UnknownContributor));
    assert!(!task.is_running());
    assert!(!task.cancel());
    assert_eq!(task, Heartbeat::Failed(FailureKind::UnknownContributor));
    assert_eq!(task.beat(Ok(())), Beat::Stop);
}
