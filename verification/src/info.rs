//! What a contributor reports about one contribution: the summary record
//! and the instants at which the phases of the protocol were completed.

use vstd::prelude::*;
use vstd::string::*;

verus! {

/// The phases whose completion is recorded, in protocol order.
#[derive(Clone, Copy, Debug, PartialEq, Eq, Structural)]
pub enum Stamp {
    StartContribution,
    JoinedQueue,
    ChallengeLocked,
    ChallengeDownloaded,
    StartComputation,
    EndComputation,
    EndContribution,
}

/// The instants, in milliseconds since the Unix epoch, at which the phases
/// of one contribution were completed. A field is `None` until its phase is
/// reached.
#[derive(Clone, Copy, Debug, PartialEq, Eq, Structural)]
pub struct ContributionTimeStamps {
    pub start_contribution: Option<i64>,
    pub joined_queue: Option<i64>,
    pub challenge_locked: Option<i64>,
    pub challenge_downloaded: Option<i64>,
    pub start_computation: Option<i64>,
    pub end_computation: Option<i64>,
    pub end_contribution: Option<i64>,
}

/// `later` may follow `earlier` in a record: where the later instant is
/// set, the earlier one is set too and is not after it.
pub open spec fn in_order(earlier: Option<i64>, later: Option<i64>) -> bool {
    later is Some ==> earlier is Some && earlier->0 <= later->0
}

impl ContributionTimeStamps {
    /// The instant recorded for `which`.
    pub open spec fn at(self, which: Stamp) -> Option<i64> {
        match which {
            Stamp::StartContribution => self.start_contribution,
            Stamp::JoinedQueue => self.joined_queue,
            Stamp::ChallengeLocked => self.challenge_locked,
            Stamp::ChallengeDownloaded => self.challenge_downloaded,
            Stamp::StartComputation => self.start_computation,
            Stamp::EndComputation => self.end_computation,
            Stamp::EndContribution => self.end_contribution,
        }
    }

    /// The instant of the phase that precedes `which`; the first phase has
    /// none.
    pub open spec fn preceding(self, which: Stamp) -> Option<i64> {
        match which {
            Stamp::StartContribution => None,
            Stamp::JoinedQueue => self.start_contribution,
            Stamp::ChallengeLocked => self.joined_queue,
            Stamp::ChallengeDownloaded => self.challenge_locked,
            Stamp::StartComputation => self.challenge_downloaded,
            Stamp::EndComputation => self.start_computation,
            Stamp::EndContribution => self.end_computation,
        }
    }

    /// The record with `which` set to `instant`.
    pub open spec fn with(self, which: Stamp, instant: i64) -> ContributionTimeStamps {
        match which {
            Stamp::StartContribution => ContributionTimeStamps {
                start_contribution: Some(instant),
                ..self
            },
            Stamp::JoinedQueue => ContributionTimeStamps { joined_queue: Some(instant), ..self },
            Stamp::ChallengeLocked => ContributionTimeStamps {
                challenge_locked: Some(instant),
                ..self
            },
            Stamp::ChallengeDownloaded => ContributionTimeStamps {
                challenge_downloaded: Some(instant),
                ..self
            },
            Stamp::StartComputation => ContributionTimeStamps {
                start_computation: Some(instant),
                ..self
            },
            Stamp::EndComputation => ContributionTimeStamps {
                end_computation: Some(instant),
                ..self
            },
            Stamp::EndContribution => ContributionTimeStamps {
                end_contribution: Some(instant),
                ..self
            },
        }
    }

    /// The invariant of a record: whenever a later instant is set, every
    /// earlier one is set and none is after it.
    pub open spec fn wf(self) -> bool {
        &&& in_order(self.start_contribution, self.joined_queue)
        &&& in_order(self.joined_queue, self.challenge_locked)
        &&& in_order(self.challenge_locked, self.challenge_downloaded)
        &&& in_order(self.challenge_downloaded, self.start_computation)
        &&& in_order(self.start_computation, self.end_computation)
        &&& in_order(self.end_computation, self.end_contribution)
    }

    /// The record of a completed contribution: every instant is set.
    pub open spec fn complete(self) -> bool {
        self.end_contribution is Some
    }

    /// The record after the phase `which` is completed at clock reading
    /// `now`. An instant is set once: a phase that is already recorded, or
    /// whose predecessor is not, leaves the record as it is. The instant
    /// recorded is the clock reading, or the predecessor's instant where the
    /// clock reads earlier than that.
    pub open spec fn stamped(self, which: Stamp, now: i64) -> ContributionTimeStamps {
        if self.at(which) is Some {
            self
        } else if which == Stamp::StartContribution {
            self.with(which, now)
        } else if self.preceding(which) is None {
            self
        } else if now < self.preceding(which)->0 {
            self.with(which, self.preceding(which)->0)
        } else {
            self.with(which, now)
        }
    }

    /// The record with no instant set.
    pub open spec fn unset() -> ContributionTimeStamps {
        ContributionTimeStamps {
            start_contribution: None,
            joined_queue: None,
            challenge_locked: None,
            challenge_downloaded: None,
            start_computation: None,
            end_computation: None,
            end_contribution: None,
        }
    }

    /// A record with no instant set.
    pub fn new() -> (stamps: ContributionTimeStamps)
        ensures
            stamps == ContributionTimeStamps::unset(),
            stamps.wf(),
    {
        ContributionTimeStamps {
            start_contribution: None,
            joined_queue: None,
            challenge_locked: None,
            challenge_downloaded: None,
            start_computation: None,
            end_computation: None,
            end_contribution: None,
        }
    }

    /// The instant recorded for `which`.
    pub fn get(&self, which: Stamp) -> (instant: Option<i64>)
        ensures
            instant == self.at(which),
    {
        match which {
            Stamp::StartContribution => self.start_contribution,
            Stamp::JoinedQueue => self.joined_queue,
            Stamp::ChallengeLocked => self.challenge_locked,
            Stamp::ChallengeDownloaded => self.challenge_downloaded,
            Stamp::StartComputation => self.start_computation,
            Stamp::EndComputation => self.end_computation,
            Stamp::EndContribution => self.end_contribution,
        }
    }

    fn before(&self, which: Stamp) -> (instant: Option<i64>)
        ensures
            instant == self.preceding(which),
    {
        match which {
            Stamp::StartContribution => None,
            Stamp::JoinedQueue => self.start_contribution,
            Stamp::ChallengeLocked => self.joined_queue,
            Stamp::ChallengeDownloaded => self.challenge_locked,
            Stamp::StartComputation => self.challenge_downloaded,
            Stamp::EndComputation => self.start_computation,
            Stamp::EndContribution => self.end_computation,
        }
    }

    fn set(&mut self, which: Stamp, instant: i64)
        ensures
            *final(self) == old(self).with(which, instant),
    {
        match which {
            Stamp::StartContribution => {
                self.start_contribution = Some(instant);
            },
            Stamp::JoinedQueue => {
                self.joined_queue = Some(instant);
            },
            Stamp::ChallengeLocked => {
                self.challenge_locked = Some(instant);
            },
            Stamp::ChallengeDownloaded => {
                self.challenge_downloaded = Some(instant);
            },
            Stamp::StartComputation => {
                self.start_computation = Some(instant);
            },
            Stamp::EndComputation => {
                self.end_computation = Some(instant);
            },
            Stamp::EndContribution => {
                self.end_contribution = Some(instant);
            },
        }
    }

    /// Records that the phase `which` was completed at clock reading `now`:
    /// see [`ContributionTimeStamps::stamped`]. The invariant is kept
    /// whatever the clock reads.
    pub fn stamp(&mut self, which: Stamp, now: i64)
        ensures
            *final(self) == old(self).stamped(which, now),
            old(self).wf() ==> final(self).wf(),
    {
        if self.get(which).is_some() {
            return ;
        }
        match self.before(which) {
            None => {
                if which == Stamp::StartContribution {
                    self.set(which, now);
                }
            },
            Some(last) => {
                if now < last {
                    self.set(which, last);
                } else {
                    self.set(which, now);
                }
            },
        }
    }
}

/// Stamping keeps the invariant of a record.
pub proof fn lemma_stamped_wf(stamps: ContributionTimeStamps, which: Stamp, now: i64)
    requires
        stamps.wf(),
    ensures
        stamps.stamped(which, now).wf(),
{
}

/// In the record of a completed contribution every instant is set, and
/// they do not decrease in protocol order: joining the queue, locking the
/// challenge, downloading it, starting and ending the computation, ending
/// the contribution.
pub proof fn lemma_complete_record_is_ordered(stamps: ContributionTimeStamps)
    requires
        stamps.wf(),
        stamps.complete(),
    ensures
        forall|which: Stamp| stamps.at(which) is Some,
        stamps.start_contribution->0 <= stamps.joined_queue->0,
        stamps.joined_queue->0 <= stamps.challenge_locked->0,
        stamps.challenge_locked->0 <= stamps.challenge_downloaded->0,
        stamps.challenge_downloaded->0 <= stamps.start_computation->0,
        stamps.start_computation->0 <= stamps.end_computation->0,
        stamps.end_computation->0 <= stamps.end_contribution->0,
{
}

/// An instant that is recorded stays as it is through every later stamp.
pub proof fn lemma_stamp_never_resets(
    stamps: ContributionTimeStamps,
    which: Stamp,
    now: i64,
    other: Stamp,
)
    requires
        stamps.at(other) is Some,
    ensures
        stamps.stamped(which, now).at(other) == stamps.at(other),
{
}

/// How the coordinator classifies a contributor at the time of a poll.
#[derive(Clone, Copy, Debug, PartialEq, Eq, Structural)]
pub enum ContributorStatus {
    /// Waiting in line: position in the queue, and the queue's size.
    Queue(u64, u64),
    /// It is this contributor's turn.
    Round,
    /// The contributor has nothing left to do.
    Finished,
    /// None of the above.
    Other,
}

/// The mathematical content of a [`ContributionInfo`].
pub struct ContributionInfoView {
    pub full_name: Option<Seq<char>>,
    pub email: Option<Seq<char>>,
    pub public_key: Seq<char>,
    pub is_incentivized: bool,
    pub is_contest_participant: bool,
    pub ceremony_round: u64,
    pub contribution_hash: Seq<char>,
    pub contribution_hash_signature: Seq<char>,
    pub contributor_info_signature: Seq<char>,
    pub timestamps: ContributionTimeStamps,
}

/// The summary a contributor reports for one round of the ceremony.
#[derive(Debug, PartialEq, Eq)]
pub struct ContributionInfo {
    pub full_name: Option<String>,
    pub email: Option<String>,
    pub public_key: String,
    pub is_incentivized: bool,
    pub is_contest_participant: bool,
    pub ceremony_round: u64,
    pub contribution_hash: String,
    pub contribution_hash_signature: String,
    pub contributor_info_signature: String,
    pub timestamps: ContributionTimeStamps,
}

/// The characters of an optional text.
pub open spec fn text_of(text: Option<String>) -> Option<Seq<char>> {
    match text {
        Some(s) => Some(s@),
        None => None,
    }
}

/// A copy of an optional text.
pub fn copy_text(text: &Option<String>) -> (copy: Option<String>)
    ensures
        text_of(copy) == text_of(*text),
{
    match text {
        Some(s) => Some(s.clone()),
        None => None,
    }
}

impl View for ContributionInfo {
    type V = ContributionInfoView;

    open spec fn view(&self) -> ContributionInfoView {
        ContributionInfoView {
            full_name: text_of(self.full_name),
            email: text_of(self.email),
            public_key: self.public_key@,
            is_incentivized: self.is_incentivized,
            is_contest_participant: self.is_contest_participant,
            ceremony_round: self.ceremony_round,
            contribution_hash: self.contribution_hash@,
            contribution_hash_signature: self.contribution_hash_signature@,
            contributor_info_signature: self.contributor_info_signature@,
            timestamps: self.timestamps,
        }
    }
}

impl Clone for ContributionInfo {
    fn clone(&self) -> (copy: ContributionInfo)
        ensures
            copy@ == self@,
    {
        ContributionInfo {
            full_name: copy_text(&self.full_name),
            email: copy_text(&self.email),
            public_key: self.public_key.clone(),
            is_incentivized: self.is_incentivized,
            is_contest_participant: self.is_contest_participant,
            ceremony_round: self.ceremony_round,
            contribution_hash: self.contribution_hash.clone(),
            contribution_hash_signature: self.contribution_hash_signature.clone(),
            contributor_info_signature: self.contributor_info_signature.clone(),
            timestamps: self.timestamps,
        }
    }
}

impl ContributionInfoView {
    /// The summary of a contributor who has answered nothing yet.
    pub open spec fn blank() -> ContributionInfoView {
        ContributionInfoView {
            full_name: None,
            email: None,
            public_key: Seq::empty(),
            is_incentivized: false,
            is_contest_participant: false,
            ceremony_round: 0,
            contribution_hash: Seq::empty(),
            contribution_hash_signature: Seq::empty(),
            contributor_info_signature: Seq::empty(),
            timestamps: ContributionTimeStamps::unset(),
        }
    }

    /// The summary as it is handed out for signing: the field that will
    /// hold the signature over the summary is empty.
    pub open spec fn unsigned(self) -> ContributionInfoView {
        ContributionInfoView { contributor_info_signature: Seq::empty(), ..self }
    }
}

impl Default for ContributionInfo {
    fn default() -> (info: ContributionInfo)
        ensures
            info@ == ContributionInfoView::blank(),
    {
        ContributionInfo {
            full_name: None,
            email: None,
            public_key: String::new(),
            is_incentivized: false,
            is_contest_participant: false,
            ceremony_round: 0,
            contribution_hash: String::new(),
            contribution_hash_signature: String::new(),
            contributor_info_signature: String::new(),
            timestamps: ContributionTimeStamps::new(),
        }
    }
}

impl ContributionInfo {
    /// A copy of the summary with the signature over the summary left
    /// empty, as it must be when that signature is computed.
    pub fn unsigned(&self) -> (copy: ContributionInfo)
        ensures
            copy@ == self@.unsigned(),
    {
        let mut copy = self.clone();
        copy.contributor_info_signature = String::new();
        copy
    }
}

} // verus!
