//! The contribution lifecycle: what a contributor does next, given where
//! it stands and what the coordinator or one of its collaborators answered.
//!
//! The machine makes the decisions; the driver around it performs each
//! [`Action`] and hands back the [`Event`] that came of it. One request is
//! outstanding at a time.

use crate::hashing::blake2b_512;
use crate::info::{
    ContributionInfo, ContributionInfoView, ContributionTimeStamps, ContributorStatus, Stamp,
};
use crate::naming::{challenge_file_text, contribution_file_of, summary_file_text};
use crate::objects::{
    signature_message_text, ContributionFileSignatureView, ContributionLocator,
    ContributionStateView, LockedLocators, Task,
};
use crate::rest::{
    chunk_answer, ChunkRequest, ChunkRequestView, ContributeChunkRequest,
    ContributeChunkRequestView, FailureKind, PostChunkRequest, PostChunkRequestView,
    ResponseErrorView,
};
use crate::text::pretty_hash_text;
use vstd::prelude::*;

verus! {

/// The minutes one place in the queue is taken to last.
pub const MINUTES_PER_SLOT: u64 = 5;

/// Where a contributor stands, by the answer it is waiting for.
#[derive(Clone, Copy, Debug, PartialEq, Eq, Structural)]
pub enum Phase {
    /// Nothing has been asked of the coordinator yet.
    NotQueued,
    /// The request to join the queue is out.
    Joining,
    /// In the queue; a status poll is out.
    Queued,
    /// The request for a lock is out.
    Locking,
    /// The request for the task of the locked work is out.
    FetchingTask,
    /// The request for the challenge is out.
    Downloading,
    /// The local copy of the challenge is being written.
    Persisting,
    /// The computation is running.
    Computing,
    /// The contribution is being signed.
    Signing,
    /// The upload is out.
    Uploading,
    /// The notice that the chunk is done is out.
    Notifying,
    /// The summary is being signed.
    SigningSummary,
    /// The summary is on its way to the coordinator.
    PostingSummary,
    /// The heartbeat task is being stopped.
    StoppingHeartbeat,
    /// A contribution is done; a status poll is out.
    AwaitingNextPoll,
    /// The coordinator has said that nothing is left to do.
    Done,
    /// The attempt has failed.
    Aborted(FailureKind),
}

/// The states of the lifecycle as the protocol names them.
#[derive(Clone, Copy, Debug, PartialEq, Eq, Structural)]
pub enum LifecycleState {
    NotQueued,
    Queued,
    Active,
    AwaitingNextPoll,
    Done,
    Aborted,
}

impl Phase {
    /// The state of the lifecycle that the phase belongs to.
    pub open spec fn spec_state(&self) -> LifecycleState {
        match self {
            Phase::NotQueued | Phase::Joining => LifecycleState::NotQueued,
            Phase::Queued => LifecycleState::Queued,
            Phase::Locking
            | Phase::FetchingTask
            | Phase::Downloading
            | Phase::Persisting
            | Phase::Computing
            | Phase::Signing
            | Phase::Uploading
            | Phase::Notifying
            | Phase::SigningSummary
            | Phase::PostingSummary => LifecycleState::Active,
            Phase::StoppingHeartbeat | Phase::AwaitingNextPoll => LifecycleState::AwaitingNextPoll,
            Phase::Done => LifecycleState::Done,
            Phase::Aborted(_) => LifecycleState::Aborted,
        }
    }

    /// The state of the lifecycle that the phase belongs to.
    #[verifier::when_used_as_spec(spec_state)]
    pub fn state(&self) -> (state: LifecycleState)
        ensures
            state == self.spec_state(),
    {
        match self {
            Phase::NotQueued | Phase::Joining => LifecycleState::NotQueued,
            Phase::Queued => LifecycleState::Queued,
            Phase::Locking
            | Phase::FetchingTask
            | Phase::Downloading
            | Phase::Persisting
            | Phase::Computing
            | Phase::Signing
            | Phase::Uploading
            | Phase::Notifying
            | Phase::SigningSummary
            | Phase::PostingSummary => LifecycleState::Active,
            Phase::StoppingHeartbeat | Phase::AwaitingNextPoll => LifecycleState::AwaitingNextPoll,
            Phase::Done => LifecycleState::Done,
            Phase::Aborted(_) => LifecycleState::Aborted,
        }
    }

    /// Whether nothing follows the phase.
    pub open spec fn terminal(&self) -> bool {
        *self == Phase::Done || *self is Aborted
    }
}

/// What the driver tells the contributor before it waits for the next poll.
#[derive(Clone, Copy, Debug, PartialEq, Eq, Structural)]
pub enum Notice {
    /// The place in the queue, the queue's size, and the estimated wait in
    /// minutes. The estimate is advisory.
    Queue { position: u64, size: u64, wait_minutes: u128 },
    /// The coordinator reported a status that is neither queue, round nor
    /// finished.
    Anomaly,
    /// A contribution was completed.
    Contributed,
}

/// What came of the last action.
#[derive(Debug, PartialEq, Eq)]
pub enum Event {
    /// The driver is ready to begin.
    Started,
    /// The coordinator took the contributor into the queue.
    QueueJoined,
    /// The coordinator reported the contributor's status.
    Status(ContributorStatus),
    /// The coordinator granted a lock.
    Locked(LockedLocators),
    /// The coordinator named the task of the locked work.
    TaskFetched(Task),
    /// The challenge arrived.
    ChallengeDownloaded(Vec<u8>),
    /// The local copy of the challenge was dealt with.
    ChallengePersisted,
    /// The computation returned `contribution`; `expected_len` is the size
    /// a contribution to this round must have.
    Computed { contribution: Vec<u8>, expected_len: u64 },
    /// The signatures over the contribution's digest text and over the
    /// canonical message of the contribution state.
    Signed { hash_signature: String, state_signature: String },
    /// The coordinator stored the upload.
    Uploaded,
    /// The coordinator released the lock and named the updated locator.
    Notified(ContributionLocator),
    /// The signature over the summary.
    SummarySigned(String),
    /// The coordinator took the summary.
    SummaryPosted,
    /// The heartbeat task is stopped.
    HeartbeatCancelled,
    /// The last action failed.
    Failed(FailureKind),
}

/// The mathematical content of an [`Event`].
pub enum EventView {
    Started,
    QueueJoined,
    Status(ContributorStatus),
    Locked(LockedLocators),
    TaskFetched(Task),
    ChallengeDownloaded(Seq<u8>),
    ChallengePersisted,
    Computed { contribution: Seq<u8>, expected_len: u64 },
    Signed { hash_signature: Seq<char>, state_signature: Seq<char> },
    Uploaded,
    Notified(ContributionLocator),
    SummarySigned(Seq<char>),
    SummaryPosted,
    HeartbeatCancelled,
    Failed(FailureKind),
}

impl View for Event {
    type V = EventView;

    open spec fn view(&self) -> EventView {
        match self {
            Event::Started => EventView::Started,
            Event::QueueJoined => EventView::QueueJoined,
            Event::Status(status) => EventView::Status(*status),
            Event::Locked(locators) => EventView::Locked(*locators),
            Event::TaskFetched(task) => EventView::TaskFetched(*task),
            Event::ChallengeDownloaded(challenge) => EventView::ChallengeDownloaded(challenge@),
            Event::ChallengePersisted => EventView::ChallengePersisted,
            Event::Computed { contribution, expected_len } => EventView::Computed {
                contribution: contribution@,
                expected_len: *expected_len,
            },
            Event::Signed { hash_signature, state_signature } => EventView::Signed {
                hash_signature: hash_signature@,
                state_signature: state_signature@,
            },
            Event::Uploaded => EventView::Uploaded,
            Event::Notified(locator) => EventView::Notified(*locator),
            Event::SummarySigned(signature) => EventView::SummarySigned(signature@),
            Event::SummaryPosted => EventView::SummaryPosted,
            Event::HeartbeatCancelled => EventView::HeartbeatCancelled,
            Event::Failed(kind) => EventView::Failed(*kind),
        }
    }
}

/// What the driver is to do next.
#[derive(Debug, PartialEq, Eq)]
pub enum Action {
    /// Ask the coordinator for a place in the queue.
    JoinQueue,
    /// Ask the coordinator for the contributor's status.
    GetStatus,
    /// Tell the contributor, wait for the polling interval, then ask the
    /// coordinator for the contributor's status.
    Wait(Notice),
    /// Ask for the lock on the next chunk.
    LockChunk,
    /// Ask for the task of the locked work.
    GetTask(ChunkRequest),
    /// Ask for the challenge of the locked work.
    DownloadChallenge(ChunkRequest),
    /// Keep a copy of the challenge under `file_name`, as far as that can
    /// be done.
    PersistChallenge { file_name: String, challenge: Vec<u8> },
    /// Compute the contribution to `challenge` on a worker of its own, with
    /// `response_file` to write it to, the challenge's digest first.
    Compute {
        response_file: String,
        challenge: Vec<u8>,
        challenge_hash: Vec<u8>,
        round_height: u64,
        contribution_id: u64,
    },
    /// Sign the contribution's digest text for the summary, and the
    /// canonical message of the contribution state with the signing key.
    Sign { contribution_hash: String, state_message: String },
    /// Upload the contribution and its signature.
    Upload(PostChunkRequest),
    /// Tell the coordinator that the chunk is done.
    Notify(ContributeChunkRequest),
    /// Sign the summary, whose own signature field is empty.
    SignSummary(ContributionInfo),
    /// Keep a copy of the summary under `file_name` and send it to the
    /// coordinator.
    PostSummary { file_name: String, info: ContributionInfo },
    /// Stop the heartbeat task.
    CancelHeartbeat,
    /// Nothing is left to do.
    Finish,
    /// Give the attempt up.
    Abort(FailureKind),
}

/// The mathematical content of an [`Action`].
pub enum ActionView {
    JoinQueue,
    GetStatus,
    Wait(Notice),
    LockChunk,
    GetTask(ChunkRequestView),
    DownloadChallenge(ChunkRequestView),
    PersistChallenge { file_name: Seq<char>, challenge: Seq<u8> },
    Compute {
        response_file: Seq<char>,
        challenge: Seq<u8>,
        challenge_hash: Seq<u8>,
        round_height: u64,
        contribution_id: u64,
    },
    Sign { contribution_hash: Seq<char>, state_message: Seq<char> },
    Upload(PostChunkRequestView),
    Notify(ContributeChunkRequestView),
    SignSummary(ContributionInfoView),
    PostSummary { file_name: Seq<char>, info: ContributionInfoView },
    CancelHeartbeat,
    Finish,
    Abort(FailureKind),
}

impl View for Action {
    type V = ActionView;

    open spec fn view(&self) -> ActionView {
        match self {
            Action::JoinQueue => ActionView::JoinQueue,
            Action::GetStatus => ActionView::GetStatus,
            Action::Wait(notice) => ActionView::Wait(*notice),
            Action::LockChunk => ActionView::LockChunk,
            Action::GetTask(request) => ActionView::GetTask(request@),
            Action::DownloadChallenge(request) => ActionView::DownloadChallenge(request@),
            Action::PersistChallenge { file_name, challenge } => ActionView::PersistChallenge {
                file_name: file_name@,
                challenge: challenge@,
            },
            Action::Compute {
                response_file,
                challenge,
                challenge_hash,
                round_height,
                contribution_id,
            } => ActionView::Compute {
                response_file: response_file@,
                challenge: challenge@,
                challenge_hash: challenge_hash@,
                round_height: *round_height,
                contribution_id: *contribution_id,
            },
            Action::Sign { contribution_hash, state_message } => ActionView::Sign {
                contribution_hash: contribution_hash@,
                state_message: state_message@,
            },
            Action::Upload(request) => ActionView::Upload(request@),
            Action::Notify(request) => ActionView::Notify(request@),
            Action::SignSummary(info) => ActionView::SignSummary(info@),
            Action::PostSummary { file_name, info } => ActionView::PostSummary {
                file_name: file_name@,
                info: info@,
            },
            Action::CancelHeartbeat => ActionView::CancelHeartbeat,
            Action::Finish => ActionView::Finish,
            Action::Abort(kind) => ActionView::Abort(*kind),
        }
    }
}

/// The mathematical content of a [`Contributor`]: the state of the machine.
pub struct ContributorView {
    /// Where the contributor stands.
    pub phase: Phase,
    /// Whether the heartbeat task has been told to stop.
    pub heartbeat_cancelled: bool,
    /// The summary as it stood when the queue was joined: every attempt
    /// starts from it.
    pub base: ContributionInfoView,
    /// The summary of the attempt under way.
    pub info: ContributionInfoView,
    /// The work that is locked.
    pub locators: LockedLocators,
    /// The challenge of the locked work.
    pub challenge: Seq<u8>,
    /// The digest of the challenge.
    pub challenge_hash: Seq<u8>,
    /// The contribution that was computed.
    pub contribution: Seq<u8>,
    /// The digest of the contribution.
    pub contribution_hash: Seq<u8>,
    /// The signature over the canonical message of the contribution state.
    pub state_signature: Seq<char>,
}

impl ContributorView {
    /// The state of a contributor that starts at clock reading `now`: the
    /// answers it gave and its public key, nothing recorded but the start.
    pub open spec fn initial(answers: ContributionInfoView, public_key: Seq<char>, now: i64) -> ContributorView {
        let info = ContributionInfoView {
            public_key,
            timestamps: ContributionTimeStamps::unset().stamped(Stamp::StartContribution, now),
            ..answers
        };
        ContributorView {
            phase: Phase::NotQueued,
            heartbeat_cancelled: false,
            base: info,
            info,
            locators: LockedLocators {
                current_contribution: ContributionLocator {
                    round_height: 0,
                    chunk_id: 0,
                    contribution_id: 0,
                    is_verified: false,
                },
                next_contribution: ContributionLocator {
                    round_height: 0,
                    chunk_id: 0,
                    contribution_id: 0,
                    is_verified: false,
                },
            },
            challenge: Seq::empty(),
            challenge_hash: Seq::empty(),
            contribution: Seq::empty(),
            contribution_hash: Seq::empty(),
            state_signature: Seq::empty(),
        }
    }

    /// The same state in another phase.
    pub open spec fn at(self, phase: Phase) -> ContributorView {
        ContributorView { phase, ..self }
    }

    /// The summary of the attempt with `which` stamped at `now`.
    pub open spec fn stamped(self, which: Stamp, now: i64) -> ContributorView {
        ContributorView {
            info: ContributionInfoView {
                timestamps: self.info.timestamps.stamped(which, now),
                ..self.info
            },
            ..self
        }
    }

    /// The attempt is given up for `kind`.
    pub open spec fn aborted(self, kind: FailureKind) -> (ContributorView, ActionView) {
        (self.at(Phase::Aborted(kind)), ActionView::Abort(kind))
    }

    /// The request that names the locked work.
    pub open spec fn chunk_request(self) -> ChunkRequestView {
        ChunkRequestView { pubkey: self.info.public_key, locked_locators: self.locators }
    }

    /// The link between the challenge and the contribution. Its successor
    /// is not known to the contributor.
    pub open spec fn contribution_state(self) -> ContributionStateView {
        ContributionStateView {
            challenge_hash: self.challenge_hash,
            response_hash: self.contribution_hash,
            next_challenge_hash: None,
        }
    }

    /// The upload of the contribution: the bytes that were computed and the
    /// signed state, each bound to the locators of the lock.
    pub open spec fn upload(self) -> PostChunkRequestView {
        PostChunkRequestView {
            contribution_locator: self.locators.next_contribution,
            contribution: self.contribution,
            contribution_file_signature_locator: self.locators.spec_next_signature(),
            contribution_file_signature: ContributionFileSignatureView {
                signature: self.state_signature,
                state: self.contribution_state(),
            },
        }
    }

    /// The queue was joined at `now`: the instant is recorded, and the
    /// first poll goes out at once.
    pub open spec fn joined(self, now: i64) -> (ContributorView, ActionView) {
        let info = ContributionInfoView {
            timestamps: self.base.timestamps.stamped(Stamp::JoinedQueue, now),
            ..self.base
        };
        (ContributorView { phase: Phase::Queued, base: info, info, ..self }, ActionView::GetStatus)
    }

    /// The coordinator reported `status`. In the queue the contributor is
    /// told where it stands and polls again; on its turn a new attempt
    /// starts from the summary as it stood on joining, with the request for
    /// a lock; when nothing is left the lifecycle ends. Any other status is
    /// reported and polled again.
    pub open spec fn polled(self, status: ContributorStatus) -> (ContributorView, ActionView) {
        match status {
            ContributorStatus::Queue(position, size) => (
                self.at(Phase::Queued),
                ActionView::Wait(
                    Notice::Queue {
                        position,
                        size,
                        wait_minutes: (position * MINUTES_PER_SLOT) as u128,
                    },
                ),
            ),
            ContributorStatus::Round => (
                ContributorView { phase: Phase::Locking, info: self.base, ..self },
                ActionView::LockChunk,
            ),
            ContributorStatus::Finished => (self.at(Phase::Done), ActionView::Finish),
            ContributorStatus::Other => (self, ActionView::Wait(Notice::Anomaly)),
        }
    }

    /// The lock was granted at `now`: the instant and the round are
    /// recorded, and the task of the locked work is asked for.
    pub open spec fn locked(self, locators: LockedLocators, now: i64) -> (
        ContributorView,
        ActionView,
    ) {
        let next = ContributorView {
            phase: Phase::FetchingTask,
            locators,
            info: ContributionInfoView {
                ceremony_round: locators.next_contribution.round_height,
                ..self.info
            },
            ..self
        }.stamped(Stamp::ChallengeLocked, now);
        (next, ActionView::GetTask(next.chunk_request()))
    }

    /// The coordinator named `task`. It must be the task that the locators
    /// stand for: then the challenge is asked for, else the attempt ends
    /// with [`FailureKind::UnknownTask`].
    pub open spec fn task_fetched(self, task: Task) -> (ContributorView, ActionView) {
        if task == self.locators.spec_task() {
            (self.at(Phase::Downloading), ActionView::DownloadChallenge(self.chunk_request()))
        } else {
            self.aborted(FailureKind::UnknownTask)
        }
    }

    /// The challenge arrived at `now`: the instant is recorded and a copy
    /// of the challenge is to be kept.
    pub open spec fn downloaded(self, challenge: Seq<u8>, now: i64) -> (
        ContributorView,
        ActionView,
    ) {
        (
            ContributorView { phase: Phase::Persisting, challenge, ..self }.stamped(
                Stamp::ChallengeDownloaded,
                now,
            ),
            ActionView::PersistChallenge {
                file_name: challenge_file_text(self.info.ceremony_round),
                challenge,
            },
        )
    }

    /// The computation starts at `now`, given the digest of the challenge
    /// and the name of the file to write the contribution to. Without a
    /// file name, which is when the public key is not base64, the attempt
    /// ends with [`FailureKind::ComputationFailure`].
    pub open spec fn computation_begun(
        self,
        challenge_hash: Seq<u8>,
        response_file: Option<Seq<char>>,
        now: i64,
    ) -> (ContributorView, ActionView) {
        match response_file {
            Some(file) => (
                ContributorView { phase: Phase::Computing, challenge_hash, ..self }.stamped(
                    Stamp::StartComputation,
                    now,
                ),
                ActionView::Compute {
                    response_file: file,
                    challenge: self.challenge,
                    challenge_hash,
                    round_height: self.info.ceremony_round,
                    contribution_id: self.locators.next_contribution.contribution_id,
                },
            ),
            None => self.aborted(FailureKind::ComputationFailure),
        }
    }

    /// The computation ended at `now` with `contribution`, whose digest is
    /// `contribution_hash`. A contribution of another size than expected
    /// ends the attempt with [`FailureKind::ComputationFailure`]. Else the
    /// instant and the laid-out digest are recorded, and the digest text
    /// and the canonical message of the contribution state go out for
    /// signing.
    pub open spec fn computation_ended(
        self,
        contribution: Seq<u8>,
        expected_len: u64,
        contribution_hash: Seq<u8>,
        now: i64,
    ) -> (ContributorView, ActionView) {
        if contribution.len() != expected_len {
            self.aborted(FailureKind::ComputationFailure)
        } else {
            let next = ContributorView {
                phase: Phase::Signing,
                contribution,
                contribution_hash,
                info: ContributionInfoView {
                    contribution_hash: pretty_hash_text(contribution_hash),
                    ..self.info
                },
                ..self
            }.stamped(Stamp::EndComputation, now);
            (
                next,
                ActionView::Sign {
                    contribution_hash: pretty_hash_text(contribution_hash),
                    state_message: signature_message_text(next.contribution_state()),
                },
            )
        }
    }

    /// The signatures arrived: the one over the digest text goes into the
    /// summary, the one over the state goes out with the upload.
    pub open spec fn signed(self, hash_signature: Seq<char>, state_signature: Seq<char>) -> (
        ContributorView,
        ActionView,
    ) {
        let next = ContributorView {
            phase: Phase::Uploading,
            state_signature,
            info: ContributionInfoView { contribution_hash_signature: hash_signature, ..self.info },
            ..self
        };
        (next, ActionView::Upload(next.upload()))
    }

    /// The upload is stored: the coordinator is told that the chunk of the
    /// task is done.
    pub open spec fn uploaded(self) -> (ContributorView, ActionView) {
        (
            self.at(Phase::Notifying),
            ActionView::Notify(
                ContributeChunkRequestView {
                    pubkey: self.info.public_key,
                    chunk_id: self.locators.spec_task().chunk_id,
                },
            ),
        )
    }

    /// The lock was released at `now`: the instant is recorded, and the
    /// summary goes out for signing with its own signature field empty.
    pub open spec fn notified(self, now: i64) -> (ContributorView, ActionView) {
        let next = self.at(Phase::SigningSummary).stamped(Stamp::EndContribution, now);
        (next, ActionView::SignSummary(next.info.unsigned()))
    }

    /// The signature over the summary arrived: the summary is complete and
    /// goes to the coordinator.
    pub open spec fn summary_signed(self, signature: Seq<char>) -> (ContributorView, ActionView) {
        let next = ContributorView {
            phase: Phase::PostingSummary,
            info: ContributionInfoView { contributor_info_signature: signature, ..self.info },
            ..self
        };
        (
            next,
            ActionView::PostSummary {
                file_name: summary_file_text(next.info.ceremony_round),
                info: next.info,
            },
        )
    }

    /// The coordinator took the summary, which ends the contribution. The
    /// heartbeat task is stopped now, unless that was done before; then the
    /// contributor waits for the next poll.
    pub open spec fn summary_posted(self) -> (ContributorView, ActionView) {
        if self.heartbeat_cancelled {
            (self.at(Phase::AwaitingNextPoll), ActionView::Wait(Notice::Contributed))
        } else {
            (
                ContributorView {
                    phase: Phase::StoppingHeartbeat,
                    heartbeat_cancelled: true,
                    ..self
                },
                ActionView::CancelHeartbeat,
            )
        }
    }

    /// The next state and the action to take, given what came of the last
    /// action, the clock reading `now`, and what the digest and the name of
    /// the contribution file are where the event calls for them. A failure
    /// ends the attempt with its kind; so does an event that does not answer
    /// the request that is out, as a failure of the transport. Nothing
    /// follows the end of the lifecycle or of an attempt.
    pub open spec fn step_given(
        self,
        event: EventView,
        now: i64,
        digest: Seq<u8>,
        response_file: Option<Seq<char>>,
    ) -> (ContributorView, ActionView) {
        match self.phase {
            Phase::Done => (self, ActionView::Finish),
            Phase::Aborted(kind) => (self, ActionView::Abort(kind)),
            _ => match event {
                EventView::Failed(kind) => self.aborted(kind),
                _ => match (self.phase, event) {
                    (Phase::NotQueued, EventView::Started) => (
                        self.at(Phase::Joining),
                        ActionView::JoinQueue,
                    ),
                    (Phase::Joining, EventView::QueueJoined) => self.joined(now),
                    (Phase::Queued, EventView::Status(status)) => self.polled(status),
                    (Phase::AwaitingNextPoll, EventView::Status(status)) => self.polled(status),
                    (Phase::Locking, EventView::Locked(locators)) => self.locked(locators, now),
                    (Phase::FetchingTask, EventView::TaskFetched(task)) => self.task_fetched(task),
                    (Phase::Downloading, EventView::ChallengeDownloaded(challenge)) => {
                        self.downloaded(challenge, now)
                    },
                    (Phase::Persisting, EventView::ChallengePersisted) => self.computation_begun(
                        digest,
                        response_file,
                        now,
                    ),
                    (Phase::Computing, EventView::Computed { contribution, expected_len }) => {
                        self.computation_ended(contribution, expected_len, digest, now)
                    },
                    (Phase::Signing, EventView::Signed { hash_signature, state_signature }) => {
                        self.signed(hash_signature, state_signature)
                    },
                    (Phase::Uploading, EventView::Uploaded) => self.uploaded(),
                    (Phase::Notifying, EventView::Notified(_)) => self.notified(now),
                    (Phase::SigningSummary, EventView::SummarySigned(signature)) => {
                        self.summary_signed(signature)
                    },
                    (Phase::PostingSummary, EventView::SummaryPosted) => self.summary_posted(),
                    (Phase::StoppingHeartbeat, EventView::HeartbeatCancelled) => (
                        self.at(Phase::AwaitingNextPoll),
                        ActionView::Wait(Notice::Contributed),
                    ),
                    _ => self.aborted(FailureKind::TransportFailure),
                },
            },
        }
    }

    /// The digest that `event` calls for: of the challenge when its copy
    /// is dealt with, of the contribution when the computation has ended.
    pub open spec fn digest_for(self, event: EventView) -> Seq<u8> {
        match event {
            EventView::ChallengePersisted => blake2b_512(self.challenge),
            EventView::Computed { contribution, expected_len } => blake2b_512(contribution),
            _ => Seq::empty(),
        }
    }

    /// The name of the contribution file, where `event` calls for it.
    pub open spec fn response_file_for(self, event: EventView) -> Option<Seq<char>> {
        match event {
            EventView::ChallengePersisted => contribution_file_of(
                self.info.public_key,
                self.info.ceremony_round,
            ),
            _ => None,
        }
    }

    /// The next state and the action to take, given what came of the last
    /// action and the clock reading `now`: see
    /// [`ContributorView::step_given`].
    pub open spec fn step(self, event: EventView, now: i64) -> (ContributorView, ActionView) {
        self.step_given(event, now, self.digest_for(event), self.response_file_for(event))
    }

    /// The upload that is out, which may be sent again as it is.
    pub open spec fn pending_upload(self) -> Option<PostChunkRequestView> {
        if self.phase == Phase::Uploading {
            Some(self.upload())
        } else {
            None
        }
    }

    /// The instant that the summary of the attempt must hold in `phase`, at
    /// the least; every earlier one is then recorded too.
    pub open spec fn recorded(phase: Phase) -> Option<Stamp> {
        match phase {
            Phase::NotQueued | Phase::Joining => Some(Stamp::StartContribution),
            Phase::Queued | Phase::Locking => Some(Stamp::JoinedQueue),
            Phase::FetchingTask | Phase::Downloading => Some(Stamp::ChallengeLocked),
            Phase::Persisting => Some(Stamp::ChallengeDownloaded),
            Phase::Computing => Some(Stamp::StartComputation),
            Phase::Signing | Phase::Uploading | Phase::Notifying => Some(Stamp::EndComputation),
            Phase::SigningSummary
            | Phase::PostingSummary
            | Phase::StoppingHeartbeat
            | Phase::AwaitingNextPoll => Some(Stamp::EndContribution),
            Phase::Done | Phase::Aborted(_) => None,
        }
    }

    /// The invariant of the machine. Both summaries keep their instants in
    /// order; the summary kept from joining holds the start, and the
    /// instant of joining once the queue is joined; the summary of the
    /// attempt holds every instant up to the phase it is in.
    pub open spec fn wf(self) -> bool {
        &&& self.base.timestamps.wf()
        &&& self.info.timestamps.wf()
        &&& !self.phase.terminal() ==> self.base.timestamps.start_contribution is Some
        &&& !self.phase.terminal() && self.phase != Phase::NotQueued && self.phase != Phase::Joining
            ==> self.base.timestamps.joined_queue is Some
        &&& Self::recorded(self.phase) matches Some(which) ==> self.info.timestamps.at(which)
            is Some
    }

    /// Whether a step may lead from `from` to `to`. The queue is joined
    /// before it is polled; the steps of an attempt follow one another, none
    /// left out and none out of turn; every phase but the last may end in
    /// failure; nothing leads out of the end.
    pub open spec fn follows(from: Phase, to: Phase) -> bool {
        match from {
            Phase::Done => to == Phase::Done,
            Phase::Aborted(kind) => to == Phase::Aborted(kind),
            _ => to is Aborted || match from {
                Phase::NotQueued => to == Phase::Joining,
                Phase::Joining => to == Phase::Queued,
                Phase::Queued => to == Phase::Queued || to == Phase::Locking || to == Phase::Done,
                Phase::Locking => to == Phase::FetchingTask,
                Phase::FetchingTask => to == Phase::Downloading,
                Phase::Downloading => to == Phase::Persisting,
                Phase::Persisting => to == Phase::Computing,
                Phase::Computing => to == Phase::Signing,
                Phase::Signing => to == Phase::Uploading,
                Phase::Uploading => to == Phase::Notifying,
                Phase::Notifying => to == Phase::SigningSummary,
                Phase::SigningSummary => to == Phase::PostingSummary,
                Phase::PostingSummary => to == Phase::StoppingHeartbeat || to
                    == Phase::AwaitingNextPoll,
                Phase::StoppingHeartbeat => to == Phase::AwaitingNextPoll,
                Phase::AwaitingNextPoll => to == Phase::AwaitingNextPoll || to == Phase::Queued
                    || to == Phase::Locking || to == Phase::Done,
                _ => false,
            },
        }
    }

    /// The state after a run of events, each with the clock reading at
    /// which it is taken, and the actions that the run calls for, in order.
    pub open spec fn run(self, inputs: Seq<(EventView, i64)>) -> (ContributorView, Seq<ActionView>)
        decreases inputs.len(),
    {
        if inputs.len() == 0 {
            (self, Seq::empty())
        } else {
            let (state, actions) = self.run(inputs.drop_last());
            let (next, action) = state.step(inputs.last().0, inputs.last().1);
            (next, actions.push(action))
        }
    }
}

/// How often `actions` tell the driver to stop the heartbeat task.
pub open spec fn cancellations(actions: Seq<ActionView>) -> nat
    decreases actions.len(),
{
    if actions.len() == 0 {
        0
    } else {
        cancellations(actions.drop_last()) + if actions.last() is CancelHeartbeat {
            1nat
        } else {
            0nat
        }
    }
}

/// A contributor starts in a state that meets the invariant.
pub proof fn lemma_initial_wf(answers: ContributionInfoView, public_key: Seq<char>, now: i64)
    ensures
        ContributorView::initial(answers, public_key, now).wf(),
        ContributorView::initial(answers, public_key, now).phase == Phase::NotQueued,
        !ContributorView::initial(answers, public_key, now).heartbeat_cancelled,
{
}

/// Every step keeps the invariant, whatever the event, the clock reading,
/// the digest and the file name are.
pub proof fn lemma_step_keeps_wf(
    state: ContributorView,
    event: EventView,
    now: i64,
    digest: Seq<u8>,
    response_file: Option<Seq<char>>,
)
    requires
        state.wf(),
    ensures
        state.step_given(event, now, digest, response_file).0.wf(),
{
}

/// Every step moves along the lifecycle: see [`ContributorView::follows`].
pub proof fn lemma_step_follows(
    state: ContributorView,
    event: EventView,
    now: i64,
    digest: Seq<u8>,
    response_file: Option<Seq<char>>,
)
    ensures
        ContributorView::follows(
            state.phase,
            state.step_given(event, now, digest, response_file).0.phase,
        ),
{
}

/// The instants of a contribution are in order. In every state that a
/// contributor can be in, a later instant of the attempt is set only if the
/// earlier ones are, and none is before an earlier one. Where a step hands
/// the summary out, for signing or for the coordinator, or ends the
/// contribution, every instant is set and they do not decrease from joining
/// the queue over locking and downloading the challenge and the start and
/// end of the computation to the end of the contribution.
pub proof fn lemma_instants_in_order(
    state: ContributorView,
    event: EventView,
    now: i64,
    digest: Seq<u8>,
    response_file: Option<Seq<char>>,
)
    requires
        state.wf(),
    ensures
        ({
            let (next, action) = state.step_given(event, now, digest, response_file);
            let stamps = next.info.timestamps;
            &&& stamps.wf()
            &&& (action matches ActionView::SignSummary(info) ==> info.timestamps == stamps)
            &&& (action matches ActionView::PostSummary { info, .. } ==> info.timestamps == stamps)
            &&& (action is SignSummary || action is PostSummary || action is CancelHeartbeat
                || action == ActionView::Wait(Notice::Contributed)) ==> all_in_order(stamps)
        }),
{
    lemma_step_keeps_wf(state, event, now, digest, response_file);
}

/// A lock is asked for only on the coordinator's word that it is the
/// contributor's turn, and never while an attempt is under way: so no two
/// requests for a lock are out at once.
pub proof fn lemma_one_lock_at_a_time(
    state: ContributorView,
    event: EventView,
    now: i64,
    digest: Seq<u8>,
    response_file: Option<Seq<char>>,
)
    ensures
        ({
            let (next, action) = state.step_given(event, now, digest, response_file);
            action is LockChunk ==> {
                &&& state.phase == Phase::Queued || state.phase == Phase::AwaitingNextPoll
                &&& event == EventView::Status(ContributorStatus::Round)
                &&& next.phase == Phase::Locking
            }
        }),
{
}

/// Whether the instants of `stamps` are all set and do not decrease in
/// protocol order.
pub open spec fn all_in_order(stamps: ContributionTimeStamps) -> bool {
    &&& stamps.start_contribution is Some
    &&& stamps.joined_queue is Some
    &&& stamps.challenge_locked is Some
    &&& stamps.challenge_downloaded is Some
    &&& stamps.start_computation is Some
    &&& stamps.end_computation is Some
    &&& stamps.end_contribution is Some
    &&& stamps.start_contribution->0 <= stamps.joined_queue->0
    &&& stamps.joined_queue->0 <= stamps.challenge_locked->0
    &&& stamps.challenge_locked->0 <= stamps.challenge_downloaded->0
    &&& stamps.challenge_downloaded->0 <= stamps.start_computation->0
    &&& stamps.start_computation->0 <= stamps.end_computation->0
    &&& stamps.end_computation->0 <= stamps.end_contribution->0
}

/// Whether `action` hands a summary out whose instants are not all set and
/// in order.
pub open spec fn reports_disorder(action: ActionView) -> bool {
    match action {
        ActionView::SignSummary(info) => !all_in_order(info.timestamps),
        ActionView::PostSummary { info, .. } => !all_in_order(info.timestamps),
        _ => false,
    }
}

/// From its start, whatever events come and whatever the clock reads, a
/// contributor stays in states that meet the invariant, and no summary that
/// it hands out, for signing or for the coordinator, has an instant missing
/// or out of order.
pub proof fn lemma_every_summary_in_order(
    answers: ContributionInfoView,
    public_key: Seq<char>,
    start: i64,
    inputs: Seq<(EventView, i64)>,
)
    ensures
        ({
            let (end, actions) = ContributorView::initial(answers, public_key, start).run(inputs);
            &&& end.wf()
            &&& actions.len() == inputs.len()
            &&& forall|i: int| 0 <= i < actions.len() ==> !reports_disorder(#[trigger] actions[i])
        }),
    decreases inputs.len(),
{
    let first = ContributorView::initial(answers, public_key, start);
    if inputs.len() > 0 {
        lemma_every_summary_in_order(answers, public_key, start, inputs.drop_last());
        let (mid, before) = first.run(inputs.drop_last());
        let event = inputs.last().0;
        let now = inputs.last().1;
        lemma_instants_in_order(
            mid,
            event,
            now,
            mid.digest_for(event),
            mid.response_file_for(event),
        );
        lemma_step_keeps_wf(mid, event, now, mid.digest_for(event), mid.response_file_for(event));
        let (end, actions) = first.run(inputs);
        assert(actions.drop_last() =~= before);
        assert forall|i: int| 0 <= i < actions.len() implies !reports_disorder(
            #[trigger] actions[i],
        ) by {
            if i < actions.len() - 1 {
                assert(actions[i] == before[i]);
            }
        }
    }
}

/// The task of locked work is one and the same for the coordinator and the
/// contributor. The coordinator answers with a task only if that task is
/// the one the locators stand for and is among the contributor's pending
/// tasks at that instant; the contributor goes on to download only if the
/// task it is given is the one the locators stand for, and gives the attempt
/// up as [`FailureKind::UnknownTask`] otherwise. So a task that the
/// coordinator answers with is accepted, and is pending.
pub proof fn lemma_task_consistency(state: ContributorView, task: Task, pending: Option<Seq<Task>>)
    ensures
        chunk_answer(state.chunk_request(), pending) is Ok <==> pending is Some
            && pending->0.contains(state.locators.spec_task()),
        chunk_answer(state.chunk_request(), pending) is Ok ==> chunk_answer(
            state.chunk_request(),
            pending,
        )->Ok_0 == state.locators.spec_task(),
        state.task_fetched(task).0.phase == Phase::Downloading <==> task
            == state.locators.spec_task(),
        task != state.locators.spec_task() ==> state.task_fetched(task) == state.aborted(
            FailureKind::UnknownTask,
        ),
        chunk_answer(state.chunk_request(), pending) == Ok::<Task, ResponseErrorView>(task)
            ==> pending->0.contains(task) && state.task_fetched(task).0.phase
            == Phase::Downloading,
{
}

/// The heartbeat task is told to stop only when the coordinator has taken
/// the summary, which is the last step of a contribution, and only if it
/// was not told before; once the summary is taken, the task has been told.
pub proof fn lemma_cancellation_follows_summary(
    state: ContributorView,
    event: EventView,
    now: i64,
    digest: Seq<u8>,
    response_file: Option<Seq<char>>,
)
    ensures
        ({
            let (next, action) = state.step_given(event, now, digest, response_file);
            &&& action is CancelHeartbeat ==> state.phase == Phase::PostingSummary && event
                == EventView::SummaryPosted && !state.heartbeat_cancelled
            &&& state.phase == Phase::PostingSummary && event == EventView::SummaryPosted
                ==> next.heartbeat_cancelled
            &&& next.heartbeat_cancelled == (state.heartbeat_cancelled || action
                is CancelHeartbeat)
        }),
{
}

/// Over any run of events the heartbeat task is told to stop exactly as
/// often as its state changes to cancelled: once if the run ends with the
/// task cancelled and began with it running, never otherwise.
pub proof fn lemma_cancelled_exactly_once(state: ContributorView, inputs: Seq<(EventView, i64)>)
    ensures
        ({
            let (end, actions) = state.run(inputs);
            &&& actions.len() == inputs.len()
            &&& state.heartbeat_cancelled ==> end.heartbeat_cancelled && cancellations(actions)
                == 0
            &&& !state.heartbeat_cancelled ==> cancellations(actions) == if end.heartbeat_cancelled {
                1nat
            } else {
                0nat
            }
        }),
    decreases inputs.len(),
{
    if inputs.len() > 0 {
        lemma_cancelled_exactly_once(state, inputs.drop_last());
        let (mid, before) = state.run(inputs.drop_last());
        let event = inputs.last().0;
        let now = inputs.last().1;
        lemma_cancellation_follows_summary(
            mid,
            event,
            now,
            mid.digest_for(event),
            mid.response_file_for(event),
        );
        let (end, actions) = state.run(inputs);
        assert(actions.drop_last() =~= before);
    }
}

/// An upload can be sent again without change. The request that goes out
/// when the signatures arrive is the one that the contributor holds while
/// the upload is out; it carries the contribution as it was computed, bound
/// to the locators of the lock, and the state made of the digests of the
/// challenge and of the contribution, with no successor. None of this
/// depends on how often the request is sent.
pub proof fn lemma_upload_is_repeatable(
    state: ContributorView,
    hash_signature: Seq<char>,
    state_signature: Seq<char>,
)
    ensures
        ({
            let (next, action) = state.signed(hash_signature, state_signature);
            &&& action == ActionView::Upload(next.upload())
            &&& next.pending_upload() == Some(next.upload())
            &&& next.upload().contribution == state.contribution
            &&& next.upload().contribution_locator == state.locators.next_contribution
            &&& next.upload().contribution_file_signature.state == ContributionStateView {
                challenge_hash: state.challenge_hash,
                response_hash: state.contribution_hash,
                next_challenge_hash: None,
            }
        }),
{
}

} // verus!
