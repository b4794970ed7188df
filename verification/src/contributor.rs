//! The contributor that runs the lifecycle: the executable machine, which
//! does what [`ContributorView::step`] says.

use crate::clock::utc_now_millis;
use crate::hashing::calculate_hash;
use crate::info::{ContributionInfo, ContributionTimeStamps, ContributorStatus, Stamp};
use crate::lifecycle::{
    Action, ActionView, ContributorView, Event, EventView, LifecycleState, Notice, Phase,
    MINUTES_PER_SLOT,
};
use crate::naming::{challenge_file_name, contribution_file_name, summary_file_name};
use crate::objects::{
    copy_bytes, ContributionFileSignature, ContributionLocator, ContributionState, LockedLocators,
    Task,
};
use crate::rest::{ChunkRequest, ContributeChunkRequest, FailureKind, PostChunkRequest};
use crate::text::pretty_hash;
use vstd::prelude::*;
use vstd::string::*;

verus! {

/// A contributor on its way through the ceremony.
#[derive(Debug)]
pub struct Contributor {
    phase: Phase,
    heartbeat_cancelled: bool,
    base: ContributionInfo,
    info: ContributionInfo,
    locators: LockedLocators,
    challenge: Vec<u8>,
    challenge_hash: Vec<u8>,
    contribution: Vec<u8>,
    contribution_hash: Vec<u8>,
    state_signature: String,
}

impl View for Contributor {
    type V = ContributorView;

    closed spec fn view(&self) -> ContributorView {
        ContributorView {
            phase: self.phase,
            heartbeat_cancelled: self.heartbeat_cancelled,
            base: self.base@,
            info: self.info@,
            locators: self.locators,
            challenge: self.challenge@,
            challenge_hash: self.challenge_hash@,
            contribution: self.contribution@,
            contribution_hash: self.contribution_hash@,
            state_signature: self.state_signature@,
        }
    }
}

/// The text of an optional file name.
pub open spec fn file_text(name: Option<String>) -> Option<Seq<char>> {
    match name {
        Some(s) => Some(s@),
        None => None,
    }
}

impl Contributor {
    /// A contributor that starts at clock reading `now`, with the answers
    /// it gave and its public key. Whatever instants `answers` holds are
    /// dropped: the record starts here.
    pub fn new(answers: ContributionInfo, public_key: String, now: i64) -> (contributor: Contributor)
        ensures
            contributor@ == ContributorView::initial(answers@, public_key@, now),
            contributor@.wf(),
    {
        let mut info = answers;
        info.public_key = public_key;
        info.timestamps = ContributionTimeStamps::new();
        info.timestamps.stamp(Stamp::StartContribution, now);
        let base = info.clone();
        let origin = ContributionLocator::new(0, 0, 0, false);
        Contributor {
            phase: Phase::NotQueued,
            heartbeat_cancelled: false,
            base,
            info,
            locators: LockedLocators::new(origin, origin),
            challenge: Vec::new(),
            challenge_hash: Vec::new(),
            contribution: Vec::new(),
            contribution_hash: Vec::new(),
            state_signature: String::new(),
        }
    }

    /// Where the contributor stands.
    pub fn phase(&self) -> (phase: Phase)
        ensures
            phase == self@.phase,
    {
        self.phase
    }

    /// The state of the lifecycle the contributor is in.
    pub fn state(&self) -> (state: LifecycleState)
        ensures
            state == self@.phase.spec_state(),
    {
        self.phase.state()
    }

    /// Whether the heartbeat task has been told to stop.
    pub fn heartbeat_cancelled(&self) -> (cancelled: bool)
        ensures
            cancelled == self@.heartbeat_cancelled,
    {
        self.heartbeat_cancelled
    }

    /// The summary of the attempt under way.
    pub fn info(&self) -> (info: &ContributionInfo)
        ensures
            info@ == self@.info,
    {
        &self.info
    }

    /// The work that is locked.
    pub fn locators(&self) -> (locators: LockedLocators)
        ensures
            locators == self@.locators,
    {
        self.locators
    }

    /// The link between the challenge and the contribution.
    pub fn contribution_state(&self) -> (state: ContributionState)
        ensures
            state@ == self@.contribution_state(),
    {
        ContributionState::new(
            copy_bytes(&self.challenge_hash),
            copy_bytes(&self.contribution_hash),
            None,
        )
    }

    fn chunk_request(&self) -> (request: ChunkRequest)
        ensures
            request@ == self@.chunk_request(),
    {
        ChunkRequest { pubkey: self.info.public_key.clone(), locked_locators: self.locators }
    }

    fn upload(&self) -> (request: PostChunkRequest)
        ensures
            request@ == self@.upload(),
    {
        PostChunkRequest::new(
            self.locators.next_contribution(),
            copy_bytes(&self.contribution),
            self.locators.next_contribution_file_signature(),
            ContributionFileSignature::new(self.state_signature.clone(), self.contribution_state()),
        )
    }

    /// The upload that is out, if one is: the request as it was sent, for
    /// sending again. The contributor stays as it is.
    pub fn pending_upload(&self) -> (request: Option<PostChunkRequest>)
        ensures
            match request {
                Some(r) => self@.pending_upload() == Some(r@),
                None => self@.pending_upload() is None,
            },
    {
        match self.phase {
            Phase::Uploading => Some(self.upload()),
            _ => None,
        }
    }

    fn abort(&mut self, kind: FailureKind) -> (action: Action)
        ensures
            (final(self)@, action@) == old(self)@.aborted(kind),
    {
        self.phase = Phase::Aborted(kind);
        Action::Abort(kind)
    }

    fn joined(&mut self, now: i64) -> (action: Action)
        ensures
            (final(self)@, action@) == old(self)@.joined(now),
    {
        self.base.timestamps.stamp(Stamp::JoinedQueue, now);
        self.info = self.base.clone();
        self.phase = Phase::Queued;
        Action::GetStatus
    }

    fn polled(&mut self, status: ContributorStatus) -> (action: Action)
        ensures
            (final(self)@, action@) == old(self)@.polled(status),
    {
        match status {
            ContributorStatus::Queue(position, size) => {
                self.phase = Phase::Queued;
                let slot: u128 = MINUTES_PER_SLOT as u128;
                let wait_minutes: u128 = (position as u128) * slot;
                Action::Wait(Notice::Queue { position, size, wait_minutes })
            },
            ContributorStatus::Round => {
                self.info = self.base.clone();
                self.phase = Phase::Locking;
                Action::LockChunk
            },
            ContributorStatus::Finished => {
                self.phase = Phase::Done;
                Action::Finish
            },
            ContributorStatus::Other => Action::Wait(Notice::Anomaly),
        }
    }

    fn locked(&mut self, locators: LockedLocators, now: i64) -> (action: Action)
        ensures
            (final(self)@, action@) == old(self)@.locked(locators, now),
    {
        self.phase = Phase::FetchingTask;
        self.locators = locators;
        self.info.ceremony_round = locators.next_contribution().round_height();
        self.info.timestamps.stamp(Stamp::ChallengeLocked, now);
        Action::GetTask(self.chunk_request())
    }

    fn task_fetched(&mut self, task: Task) -> (action: Action)
        ensures
            (final(self)@, action@) == old(self)@.task_fetched(task),
    {
        if task == self.locators.task() {
            self.phase = Phase::Downloading;
            Action::DownloadChallenge(self.chunk_request())
        } else {
            self.abort(FailureKind::UnknownTask)
        }
    }

    fn downloaded(&mut self, challenge: Vec<u8>, now: i64) -> (action: Action)
        ensures
            (final(self)@, action@) == old(self)@.downloaded(challenge@, now),
    {
        let copy = copy_bytes(&challenge);
        self.phase = Phase::Persisting;
        self.challenge = challenge;
        self.info.timestamps.stamp(Stamp::ChallengeDownloaded, now);
        Action::PersistChallenge {
            file_name: challenge_file_name(self.info.ceremony_round),
            challenge: copy,
        }
    }

    fn computation_begun(
        &mut self,
        challenge_hash: Vec<u8>,
        response_file: Option<String>,
        now: i64,
    ) -> (action: Action)
        ensures
            (final(self)@, action@) == old(self)@.computation_begun(
                challenge_hash@,
                file_text(response_file),
                now,
            ),
    {
        match response_file {
            Some(file) => {
                let copy = copy_bytes(&challenge_hash);
                self.phase = Phase::Computing;
                self.challenge_hash = challenge_hash;
                self.info.timestamps.stamp(Stamp::StartComputation, now);
                Action::Compute {
                    response_file: file,
                    challenge: copy_bytes(&self.challenge),
                    challenge_hash: copy,
                    round_height: self.info.ceremony_round,
                    contribution_id: self.locators.next_contribution().contribution_id(),
                }
            },
            None => self.abort(FailureKind::ComputationFailure),
        }
    }

    fn computation_ended(
        &mut self,
        contribution: Vec<u8>,
        expected_len: u64,
        contribution_hash: Vec<u8>,
        now: i64,
    ) -> (action: Action)
        ensures
            (final(self)@, action@) == old(self)@.computation_ended(
                contribution@,
                expected_len,
                contribution_hash@,
                now,
            ),
    {
        if contribution.len() as u128 != expected_len as u128 {
            self.abort(FailureKind::ComputationFailure)
        } else {
            let text = pretty_hash(contribution_hash.as_slice());
            self.phase = Phase::Signing;
            self.contribution = contribution;
            self.contribution_hash = contribution_hash;
            self.info.contribution_hash = text.clone();
            self.info.timestamps.stamp(Stamp::EndComputation, now);
            let state_message = self.contribution_state().signature_message();
            Action::Sign { contribution_hash: text, state_message }
        }
    }

    fn signed(&mut self, hash_signature: String, state_signature: String) -> (action: Action)
        ensures
            (final(self)@, action@) == old(self)@.signed(hash_signature@, state_signature@),
    {
        self.phase = Phase::Uploading;
        self.state_signature = state_signature;
        self.info.contribution_hash_signature = hash_signature;
        Action::Upload(self.upload())
    }

    fn uploaded(&mut self) -> (action: Action)
        ensures
            (final(self)@, action@) == old(self)@.uploaded(),
    {
        self.phase = Phase::Notifying;
        Action::Notify(
            ContributeChunkRequest {
                pubkey: self.info.public_key.clone(),
                chunk_id: self.locators.task().chunk_id(),
            },
        )
    }

    fn notified(&mut self, now: i64) -> (action: Action)
        ensures
            (final(self)@, action@) == old(self)@.notified(now),
    {
        self.phase = Phase::SigningSummary;
        self.info.timestamps.stamp(Stamp::EndContribution, now);
        Action::SignSummary(self.info.unsigned())
    }

    fn summary_signed(&mut self, signature: String) -> (action: Action)
        ensures
            (final(self)@, action@) == old(self)@.summary_signed(signature@),
    {
        self.phase = Phase::PostingSummary;
        self.info.contributor_info_signature = signature;
        Action::PostSummary {
            file_name: summary_file_name(self.info.ceremony_round),
            info: self.info.clone(),
        }
    }

    fn summary_posted(&mut self) -> (action: Action)
        ensures
            (final(self)@, action@) == old(self)@.summary_posted(),
    {
        if self.heartbeat_cancelled {
            self.phase = Phase::AwaitingNextPoll;
            Action::Wait(Notice::Contributed)
        } else {
            self.phase = Phase::StoppingHeartbeat;
            self.heartbeat_cancelled = true;
            Action::CancelHeartbeat
        }
    }

    /// Takes what came of the last action and says what to do next, with
    /// the clock reading, the digest and the name of the contribution file
    /// given: see [`ContributorView::step_given`]. The digest and the file
    /// name count only for the events that call for them.
    pub fn step_given(
        &mut self,
        event: Event,
        now: i64,
        digest: Vec<u8>,
        response_file: Option<String>,
    ) -> (action: Action)
        ensures
            (final(self)@, action@) == old(self)@.step_given(
                event@,
                now,
                digest@,
                file_text(response_file),
            ),
    {
        match self.phase {
            Phase::Done => {
                return Action::Finish;
            },
            Phase::Aborted(kind) => {
                return Action::Abort(kind);
            },
            _ => {},
        }
        if let Event::Failed(kind) = event {
            return self.abort(kind);
        }
        match (self.phase, event) {
            (Phase::NotQueued, Event::Started) => {
                self.phase = Phase::Joining;
                Action::JoinQueue
            },
            (Phase::Joining, Event::QueueJoined) => self.joined(now),
            (Phase::Queued, Event::Status(status)) => self.polled(status),
            (Phase::AwaitingNextPoll, Event::Status(status)) => self.polled(status),
            (Phase::Locking, Event::Locked(locators)) => self.locked(locators, now),
            (Phase::FetchingTask, Event::TaskFetched(task)) => self.task_fetched(task),
            (Phase::Downloading, Event::ChallengeDownloaded(challenge)) => self.downloaded(
                challenge,
                now,
            ),
            (Phase::Persisting, Event::ChallengePersisted) => self.computation_begun(
                digest,
                response_file,
                now,
            ),
            (Phase::Computing, Event::Computed { contribution, expected_len }) => {
                self.computation_ended(contribution, expected_len, digest, now)
            },
            (Phase::Signing, Event::Signed { hash_signature, state_signature }) => self.signed(
                hash_signature,
                state_signature,
            ),
            (Phase::Uploading, Event::Uploaded) => self.uploaded(),
            (Phase::Notifying, Event::Notified(_)) => self.notified(now),
            (Phase::SigningSummary, Event::SummarySigned(signature)) => self.summary_signed(
                signature,
            ),
            (Phase::PostingSummary, Event::SummaryPosted) => self.summary_posted(),
            (Phase::StoppingHeartbeat, Event::HeartbeatCancelled) => {
                self.phase = Phase::AwaitingNextPoll;
                Action::Wait(Notice::Contributed)
            },
            _ => self.abort(FailureKind::TransportFailure),
        }
    }

    /// Takes what came of the last action and says what to do next, with
    /// the clock reading given: see [`ContributorView::step`].
    pub fn step(&mut self, event: Event, now: i64) -> (action: Action)
        ensures
            (final(self)@, action@) == old(self)@.step(event@, now),
    {
        let digest = match &event {
            Event::ChallengePersisted => calculate_hash(self.challenge.as_slice()),
            Event::Computed { contribution, expected_len } => calculate_hash(
                contribution.as_slice(),
            ),
            _ => Vec::new(),
        };
        let response_file = match &event {
            Event::ChallengePersisted => contribution_file_name(
                self.info.public_key.as_str(),
                self.info.ceremony_round,
            ),
            _ => None,
        };
        self.step_given(event, now, digest, response_file)
    }

    /// Takes what came of the last action and says what to do next, by the
    /// wall clock: for every reading `now` that the clock may give, the
    /// outcome is that of [`Contributor::step`] at `now`.
    pub fn step_now(&mut self, event: Event) -> (action: Action)
        ensures
            exists|now: i64| (final(self)@, action@) == old(self)@.step(event@, now),
    {
        let now = utc_now_millis();
        self.step(event, now)
    }
}

} // verus!
