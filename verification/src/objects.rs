//! The values that name ceremony work and link one challenge to the next:
//! tasks, locators, and the signed state of a contribution.

use crate::text::{hex, is_hex_char, lemma_hex_chars, lemma_hex_injective, push_hex};
use vstd::prelude::*;
use vstd::string::*;

verus! {

/// An addressable unit of ceremony work: one contribution to one chunk.
#[derive(Clone, Copy, Debug, PartialEq, Eq, Structural, Hash)]
pub struct Task {
    pub chunk_id: u64,
    pub contribution_id: u64,
}

impl Task {
    pub fn new(chunk_id: u64, contribution_id: u64) -> (task: Task)
        ensures
            task == (Task { chunk_id, contribution_id }),
    {
        Task { chunk_id, contribution_id }
    }

    pub fn chunk_id(&self) -> (id: u64)
        ensures
            id == self.chunk_id,
    {
        self.chunk_id
    }

    pub fn contribution_id(&self) -> (id: u64)
        ensures
            id == self.contribution_id,
    {
        self.contribution_id
    }

    /// Whether `tasks` holds the task.
    pub fn is_in(&self, tasks: &Vec<Task>) -> (found: bool)
        ensures
            found == tasks@.contains(*self),
    {
        let mut i: usize = 0;
        while i < tasks.len()
            invariant
                i <= tasks.len(),
                forall|j: int| 0 <= j < i ==> tasks@[j] != *self,
            decreases tasks.len() - i,
        {
            if tasks[i] == *self {
                return true;
            }
            i += 1;
        }
        false
    }
}

/// Where one contribution file lives: round, chunk and position in the
/// chunk's chain.
#[derive(Clone, Copy, Debug, PartialEq, Eq, Structural, Hash)]
pub struct ContributionLocator {
    pub round_height: u64,
    pub chunk_id: u64,
    pub contribution_id: u64,
    pub is_verified: bool,
}

impl ContributionLocator {
    pub fn new(round_height: u64, chunk_id: u64, contribution_id: u64, is_verified: bool) -> (locator:
        ContributionLocator)
        ensures
            locator == (ContributionLocator {
                round_height,
                chunk_id,
                contribution_id,
                is_verified,
            }),
    {
        ContributionLocator { round_height, chunk_id, contribution_id, is_verified }
    }

    pub fn round_height(&self) -> (height: u64)
        ensures
            height == self.round_height,
    {
        self.round_height
    }

    pub fn chunk_id(&self) -> (id: u64)
        ensures
            id == self.chunk_id,
    {
        self.chunk_id
    }

    pub fn contribution_id(&self) -> (id: u64)
        ensures
            id == self.contribution_id,
    {
        self.contribution_id
    }

    pub fn is_verified(&self) -> (verified: bool)
        ensures
            verified == self.is_verified,
    {
        self.is_verified
    }
}

/// Where the signature of one contribution file lives.
#[derive(Clone, Copy, Debug, PartialEq, Eq, Structural, Hash)]
pub struct ContributionSignatureLocator {
    pub round_height: u64,
    pub chunk_id: u64,
    pub contribution_id: u64,
    pub is_verified: bool,
}

impl ContributionSignatureLocator {
    pub fn new(round_height: u64, chunk_id: u64, contribution_id: u64, is_verified: bool) -> (locator:
        ContributionSignatureLocator)
        ensures
            locator == (ContributionSignatureLocator {
                round_height,
                chunk_id,
                contribution_id,
                is_verified,
            }),
    {
        ContributionSignatureLocator { round_height, chunk_id, contribution_id, is_verified }
    }
}

/// The unit of work a contributor holds after a successful lock: the
/// contribution it reads and the one it is to write.
#[derive(Clone, Copy, Debug, PartialEq, Eq, Structural, Hash)]
pub struct LockedLocators {
    pub current_contribution: ContributionLocator,
    pub next_contribution: ContributionLocator,
}

impl LockedLocators {
    pub fn new(current_contribution: ContributionLocator, next_contribution: ContributionLocator) -> (locators:
        LockedLocators)
        ensures
            locators == (LockedLocators { current_contribution, next_contribution }),
    {
        LockedLocators { current_contribution, next_contribution }
    }

    /// The task these locators stand for: the chunk and position of the
    /// contribution to be written.
    pub open spec fn spec_task(&self) -> Task {
        Task {
            chunk_id: self.next_contribution.chunk_id,
            contribution_id: self.next_contribution.contribution_id,
        }
    }

    /// Where the signature of the contribution to be written goes: the
    /// coordinates of that contribution.
    pub open spec fn spec_next_signature(&self) -> ContributionSignatureLocator {
        ContributionSignatureLocator {
            round_height: self.next_contribution.round_height,
            chunk_id: self.next_contribution.chunk_id,
            contribution_id: self.next_contribution.contribution_id,
            is_verified: self.next_contribution.is_verified,
        }
    }

    pub fn current_contribution(&self) -> (locator: ContributionLocator)
        ensures
            locator == self.current_contribution,
    {
        self.current_contribution
    }

    pub fn next_contribution(&self) -> (locator: ContributionLocator)
        ensures
            locator == self.next_contribution,
    {
        self.next_contribution
    }

    pub fn next_contribution_file_signature(&self) -> (locator: ContributionSignatureLocator)
        ensures
            locator == self.spec_next_signature(),
    {
        let next = self.next_contribution;
        ContributionSignatureLocator::new(
            next.round_height,
            next.chunk_id,
            next.contribution_id,
            next.is_verified,
        )
    }

    #[verifier::when_used_as_spec(spec_task)]
    pub fn task(&self) -> (task: Task)
        ensures
            task == self.spec_task(),
    {
        Task::new(self.next_contribution.chunk_id, self.next_contribution.contribution_id)
    }
}

/// A copy of `bytes`.
pub fn copy_bytes(bytes: &Vec<u8>) -> (copy: Vec<u8>)
    ensures
        copy@ == bytes@,
{
    bytes.clone()
}

/// The mathematical content of a [`ContributionState`].
pub struct ContributionStateView {
    pub challenge_hash: Seq<u8>,
    pub response_hash: Seq<u8>,
    pub next_challenge_hash: Option<Seq<u8>>,
}

/// The link between an old and a new challenge: the digest of the challenge
/// that was answered, the digest of the answer, and, once known, the digest
/// of the challenge that follows.
#[derive(Debug, PartialEq, Eq)]
pub struct ContributionState {
    pub challenge_hash: Vec<u8>,
    pub response_hash: Vec<u8>,
    pub next_challenge_hash: Option<Vec<u8>>,
}

impl View for ContributionState {
    type V = ContributionStateView;

    open spec fn view(&self) -> ContributionStateView {
        ContributionStateView {
            challenge_hash: self.challenge_hash@,
            response_hash: self.response_hash@,
            next_challenge_hash: match self.next_challenge_hash {
                Some(h) => Some(h@),
                None => None,
            },
        }
    }
}

impl Clone for ContributionState {
    fn clone(&self) -> (copy: ContributionState)
        ensures
            copy@ == self@,
    {
        ContributionState {
            challenge_hash: copy_bytes(&self.challenge_hash),
            response_hash: copy_bytes(&self.response_hash),
            next_challenge_hash: match &self.next_challenge_hash {
                Some(h) => Some(copy_bytes(h)),
                None => None,
            },
        }
    }
}

/// The text that stands for the successor digest in the canonical message.
pub open spec fn successor_text(next: Option<Seq<u8>>) -> Seq<char> {
    match next {
        Some(h) => seq!['"'] + hex(h) + seq!['"'],
        None => "null"@,
    }
}

/// The canonical message of a contribution state, which is what gets
/// signed: a JSON object of the three digests in hexadecimal, the successor
/// `null` while it is unknown.
pub open spec fn signature_message_text(state: ContributionStateView) -> Seq<char> {
    "{\"challengeHash\":\""@ + hex(state.challenge_hash) + "\",\"responseHash\":\""@ + hex(
        state.response_hash,
    ) + "\",\"nextChallengeHash\":"@ + successor_text(state.next_challenge_hash) + "}"@
}

impl ContributionState {
    pub fn new(
        challenge_hash: Vec<u8>,
        response_hash: Vec<u8>,
        next_challenge_hash: Option<Vec<u8>>,
    ) -> (state: ContributionState)
        ensures
            state.challenge_hash == challenge_hash,
            state.response_hash == response_hash,
            state.next_challenge_hash == next_challenge_hash,
    {
        ContributionState { challenge_hash, response_hash, next_challenge_hash }
    }

    /// The canonical message to sign for this state.
    pub fn signature_message(&self) -> (message: String)
        ensures
            message@ == signature_message_text(self@),
    {
        let mut out = String::new();
        out.append("{\"challengeHash\":\"");
        push_hex(&mut out, self.challenge_hash.as_slice());
        out.append("\",\"responseHash\":\"");
        push_hex(&mut out, self.response_hash.as_slice());
        out.append("\",\"nextChallengeHash\":");
        match &self.next_challenge_hash {
            Some(h) => {
                out.push('"');
                push_hex(&mut out, h.as_slice());
                out.push('"');
            },
            None => {
                out.append("null");
            },
        }
        proof {
            let next = self@.next_challenge_hash;
            assert(out@ =~= "{\"challengeHash\":\""@ + hex(self@.challenge_hash)
                + "\",\"responseHash\":\""@ + hex(self@.response_hash)
                + "\",\"nextChallengeHash\":"@ + successor_text(next));
        }
        out.append("}");
        out
    }
}

/// The mathematical content of a [`ContributionFileSignature`].
pub struct ContributionFileSignatureView {
    pub signature: Seq<char>,
    pub state: ContributionStateView,
}

/// Proof that a contributor authored a contribution state: the signature
/// over the state's canonical message, with the state.
#[derive(Debug, PartialEq, Eq)]
pub struct ContributionFileSignature {
    pub signature: String,
    pub state: ContributionState,
}

impl View for ContributionFileSignature {
    type V = ContributionFileSignatureView;

    open spec fn view(&self) -> ContributionFileSignatureView {
        ContributionFileSignatureView { signature: self.signature@, state: self.state@ }
    }
}

impl Clone for ContributionFileSignature {
    fn clone(&self) -> (copy: ContributionFileSignature)
        ensures
            copy@ == self@,
    {
        ContributionFileSignature { signature: self.signature.clone(), state: self.state.clone() }
    }
}

impl ContributionFileSignature {
    pub fn new(signature: String, state: ContributionState) -> (file_signature:
        ContributionFileSignature)
        ensures
            file_signature.signature == signature,
            file_signature.state == state,
    {
        ContributionFileSignature { signature, state }
    }

    pub fn signature(&self) -> (signature: &String)
        ensures
            signature == self.signature,
    {
        &self.signature
    }

    pub fn state(&self) -> (state: &ContributionState)
        ensures
            state == self.state,
    {
        &self.state
    }
}

/// Two texts that agree after a common run of characters free of `mark`,
/// each run followed by `mark`, agree on the run and on what follows it.
proof fn lemma_split_at_mark(a1: Seq<char>, t1: Seq<char>, a2: Seq<char>, t2: Seq<char>, mark: char)
    requires
        a1 + t1 == a2 + t2,
        forall|i: int| 0 <= i < a1.len() ==> a1[i] != mark,
        forall|i: int| 0 <= i < a2.len() ==> a2[i] != mark,
        t1.len() > 0 && t1[0] == mark,
        t2.len() > 0 && t2[0] == mark,
    ensures
        a1 == a2,
        t1 == t2,
{
    let whole1 = a1 + t1;
    let whole2 = a2 + t2;
    if a1.len() < a2.len() {
        assert(whole1[a1.len() as int] == t1[0]);
        assert(whole2[a1.len() as int] == a2[a1.len() as int]);
        assert(false);
    }
    if a2.len() < a1.len() {
        assert(whole2[a2.len() as int] == t2[0]);
        assert(whole1[a2.len() as int] == a1[a2.len() as int]);
        assert(false);
    }
    assert forall|i: int| 0 <= i < a1.len() implies a1[i] == a2[i] by {
        assert(whole1[i] == a1[i]);
        assert(whole2[i] == a2[i]);
    }
    assert(a1 =~= a2);
    assert(whole1.len() == whole2.len());
    assert forall|i: int| 0 <= i < t1.len() implies t1[i] == t2[i] by {
        assert(whole1[a1.len() + i] == t1[i]);
        assert(whole2[a2.len() + i] == t2[i]);
    }
    assert(t1 =~= t2);
}

/// Texts that agree after a common prefix agree without it.
proof fn lemma_strip_prefix(p: Seq<char>, x: Seq<char>, y: Seq<char>)
    requires
        p + x == p + y,
    ensures
        x == y,
{
    assert((p + x).len() == p.len() + x.len());
    assert((p + y).len() == p.len() + y.len());
    assert(x.len() == y.len());
    assert forall|i: int| 0 <= i < x.len() implies x[i] == y[i] by {
        assert((p + x)[p.len() + i] == x[i]);
        assert((p + y)[p.len() + i] == y[i]);
    }
    assert(x =~= y);
}

/// No hexadecimal digit is a double quote.
proof fn lemma_hex_has_no_quote(bytes: Seq<u8>)
    ensures
        forall|i: int| 0 <= i < hex(bytes).len() ==> hex(bytes)[i] != '"',
{
    lemma_hex_chars(bytes);
    assert forall|i: int| 0 <= i < hex(bytes).len() implies hex(bytes)[i] != '"' by {
        assert(is_hex_char(hex(bytes)[i]));
    }
}

/// The successor text names its digest: equal texts, each followed by the
/// closing brace, come from equal successors.
proof fn lemma_successor_text_injective(n1: Option<Seq<u8>>, n2: Option<Seq<u8>>)
    requires
        successor_text(n1) + "}"@ == successor_text(n2) + "}"@,
    ensures
        n1 == n2,
{
    reveal_strlit("null");
    reveal_strlit("}");
    let w1 = successor_text(n1) + "}"@;
    let w2 = successor_text(n2) + "}"@;
    match (n1, n2) {
        (None, None) => {},
        (Some(h1), Some(h2)) => {
            let quote = seq!['"'];
            let tail = quote + "}"@;
            assert(w1 =~= quote + (hex(h1) + tail));
            assert(w2 =~= quote + (hex(h2) + tail));
            lemma_strip_prefix(quote, hex(h1) + tail, hex(h2) + tail);
            lemma_hex_has_no_quote(h1);
            lemma_hex_has_no_quote(h2);
            assert(tail[0] == '"');
            lemma_split_at_mark(hex(h1), tail, hex(h2), tail, '"');
            lemma_hex_injective(h1, h2);
        },
        (Some(h1), None) => {
            assert(w1[0] == '"');
            assert(w2[0] == 'n');
        },
        (None, Some(h2)) => {
            assert(w1[0] == 'n');
            assert(w2[0] == '"');
        },
    }
}

/// The canonical message determines the state: two states with the same
/// message have the same three digests. So a change to any byte of either
/// digest changes the message that is signed.
pub proof fn lemma_signature_message_injective(s1: ContributionStateView, s2: ContributionStateView)
    requires
        signature_message_text(s1) == signature_message_text(s2),
    ensures
        s1 == s2,
{
    reveal_strlit("{\"challengeHash\":\"");
    reveal_strlit("\",\"responseHash\":\"");
    reveal_strlit("\",\"nextChallengeHash\":");
    reveal_strlit("}");
    let a = "{\"challengeHash\":\""@;
    let b = "\",\"responseHash\":\""@;
    let c = "\",\"nextChallengeHash\":"@;
    let d = "}"@;
    let u1 = successor_text(s1.next_challenge_hash) + d;
    let u2 = successor_text(s2.next_challenge_hash) + d;
    let r1 = hex(s1.response_hash) + (c + u1);
    let r2 = hex(s2.response_hash) + (c + u2);
    let q1 = hex(s1.challenge_hash) + (b + r1);
    let q2 = hex(s2.challenge_hash) + (b + r2);
    assert(signature_message_text(s1) =~= a + q1);
    assert(signature_message_text(s2) =~= a + q2);
    lemma_strip_prefix(a, q1, q2);
    lemma_hex_has_no_quote(s1.challenge_hash);
    lemma_hex_has_no_quote(s2.challenge_hash);
    assert((b + r1)[0] == '"');
    assert((b + r2)[0] == '"');
    lemma_split_at_mark(hex(s1.challenge_hash), b + r1, hex(s2.challenge_hash), b + r2, '"');
    lemma_hex_injective(s1.challenge_hash, s2.challenge_hash);
    lemma_strip_prefix(b, r1, r2);
    lemma_hex_has_no_quote(s1.response_hash);
    lemma_hex_has_no_quote(s2.response_hash);
    assert((c + u1)[0] == '"');
    assert((c + u2)[0] == '"');
    lemma_split_at_mark(hex(s1.response_hash), c + u1, hex(s2.response_hash), c + u2, '"');
    lemma_hex_injective(s1.response_hash, s2.response_hash);
    lemma_strip_prefix(c, u1, u2);
    lemma_successor_text_injective(s1.next_challenge_hash, s2.next_challenge_hash);
}

} // verus!
