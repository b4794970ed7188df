//! What a contributor is asked before it starts, and what is made of its
//! replies: the questions, the form a reply must have, the summary that the
//! answers fill in, and the seed of the signing key.

use crate::info::{ContributionInfo, ContributionInfoView};
use vstd::prelude::*;
use vstd::string::*;

verus! {

/// The number of words a mnemonic must have.
pub const MNEMONIC_LEN: usize = 24;

/// Whether the regular expression `pattern` matches somewhere in `text`;
/// `None` where `pattern` is no regular expression.
pub uninterp spec fn regex_search(pattern: Seq<char>, text: Seq<char>) -> Option<bool>;

/// `text` without the white space at its beginning and at its end.
pub uninterp spec fn trimmed(text: Seq<char>) -> Seq<char>;

/// `text` in lower case.
pub uninterp spec fn lowercased(text: Seq<char>) -> Seq<char>;

/// The number of words of the English mnemonic `phrase` and the 64 bytes of
/// the seed that it gives with an empty passphrase; `None` where `phrase`
/// is no valid mnemonic.
pub uninterp spec fn mnemonic_parsed(phrase: Seq<char>) -> Option<(usize, Seq<u8>)>;

/// `regex::Regex::is_match`, on the expression that `regex::Regex::new`
/// compiles from `pattern`: whether the expression matches anywhere in
/// `text`. Both depend on the two texts alone.
#[verifier::external_body]
fn pattern_matches(pattern: &str, text: &str) -> (found: Option<bool>)
    ensures
        found == regex_search(pattern@, text@),
{
    match regex::Regex::new(pattern) {
        Ok(expression) => Some(expression.is_match(text)),
        Err(_) => None,
    }
}

/// `str::trim`: the text without leading and trailing white space.
#[verifier::external_body]
fn trim(text: &str) -> (inner: &str)
    ensures
        inner@ == trimmed(text@),
{
    text.trim()
}

/// `str::to_lowercase`: the lower-case equivalent of the text.
#[verifier::external_body]
fn lowercase(text: &str) -> (lower: String)
    ensures
        lower@ == lowercased(text@),
{
    text.to_lowercase()
}

/// The error of `bip39::Mnemonic::parse_in_normalized`.
#[verifier::external_type_specification]
#[verifier::external_body]
pub struct ExMnemonicError(bip39::Error);

/// `bip39::Mnemonic::parse_in_normalized` for the English word list, read
/// through `word_count` and `to_seed_normalized` with an empty passphrase.
/// Parsing fails on a phrase whose number of words is not 12, 15, 18, 21 or
/// 24, that holds a word outside the list, or whose checksum is wrong. The
/// seed has 64 bytes. All of it depends on the phrase alone.
#[verifier::external_body]
fn parse_mnemonic(phrase: &str) -> (parsed: Result<(usize, Vec<u8>), bip39::Error>)
    ensures
        parsed is Ok <==> mnemonic_parsed(phrase@) is Some,
        parsed matches Ok((words, seed)) ==> mnemonic_parsed(phrase@) == Some((words, seed@))
            && seed@.len() == 64,
{
    match bip39::Mnemonic::parse_in_normalized(bip39::Language::English, phrase) {
        Ok(mnemonic) => Ok((mnemonic.word_count(), mnemonic.to_seed_normalized("").to_vec())),
        Err(e) => Err(e),
    }
}

/// What is made of a reply.
#[derive(Clone, Copy, Debug, PartialEq, Eq, Structural)]
pub enum Reply {
    /// The reply stands.
    Accepted,
    /// The reply is not of the expected form: ask again.
    Invalid,
    /// The expected form is no regular expression.
    BadPattern,
}

/// What is made of the reply `text` where `expected`, a regular expression,
/// says which replies are of the expected form. The expression may match
/// anywhere in the reply. Without an expression every reply stands.
pub open spec fn reply_checked(text: Seq<char>, expected: Option<Seq<char>>) -> Reply {
    match expected {
        None => Reply::Accepted,
        Some(pattern) => reply_judged(regex_search(pattern, text)),
    }
}

/// What is made of a reply, given whether the expected form was found in it.
pub open spec fn reply_judged(found: Option<bool>) -> Reply {
    match found {
        Some(true) => Reply::Accepted,
        Some(false) => Reply::Invalid,
        None => Reply::BadPattern,
    }
}

/// The characters of an optional pattern.
pub open spec fn pattern_text(expected: Option<&str>) -> Option<Seq<char>> {
    match expected {
        Some(pattern) => Some(pattern@),
        None => None,
    }
}

/// What is made of a reply, given whether the expected form was found in
/// it: see [`reply_judged`].
pub fn judge_reply(found: Option<bool>) -> (reply: Reply)
    ensures
        reply == reply_judged(found),
{
    match found {
        Some(true) => Reply::Accepted,
        Some(false) => Reply::Invalid,
        None => Reply::BadPattern,
    }
}

/// Takes one line of input for a question. The line is added to what was
/// read for the question so far, and the whole is trimmed: that is the
/// response, which is then checked against the expected form. A response
/// that does not stand stays in `response` for the next line.
pub fn get_user_input(response: &mut String, line: &str, expected: Option<&str>) -> (reply: Reply)
    ensures
        final(response)@ == trimmed(old(response)@ + line@),
        reply == reply_checked(final(response)@, pattern_text(expected)),
{
    response.append(line);
    let inner = trim(response.as_str()).to_owned();
    *response = inner;
    match expected {
        None => Reply::Accepted,
        Some(pattern) => judge_reply(pattern_matches(pattern, response.as_str())),
    }
}

/// Whether `reply` says yes: in lower case it is the one letter `y`.
pub fn affirms(reply: &str) -> (yes: bool)
    ensures
        yes == (lowercased(reply@) == "y"@),
{
    let lower = lowercase(reply);
    let y = String::from_str("y");
    lower == y
}

/// The questions a contributor is asked.
#[derive(Clone, Copy, Debug, PartialEq, Eq, Structural)]
pub enum Question {
    Incentivized,
    FullName,
    Email,
    Contest,
    Mnemonic,
}

impl Question {
    /// The words of the question.
    pub open spec fn prompt_text(self) -> Seq<char> {
        match self {
            Question::Incentivized => {
                "Do you want to participate in the incentivised trusted setup? y/n"@
            },
            Question::FullName => "Please enter your full name:"@,
            Question::Email => "Please enter your email address:"@,
            Question::Contest => "Do you want to take part in the contest? y/n"@,
            Question::Mnemonic => "Please provide a 24 words mnemonic for your keypair:"@,
        }
    }

    /// The form that a reply to the question must have, as a regular
    /// expression; a full name may be anything.
    pub open spec fn expected_text(self) -> Option<Seq<char>> {
        match self {
            Question::Incentivized => Some("(?i)[yn]"@),
            Question::FullName => None,
            Question::Email => Some(".+[@].+[.].+"@),
            Question::Contest => Some("(?i)[yn]"@),
            Question::Mnemonic => Some("[\\w\\s]{24}"@),
        }
    }

    /// The words of the question.
    pub fn prompt(&self) -> (words: &'static str)
        ensures
            words@ == self.prompt_text(),
    {
        match self {
            Question::Incentivized => {
                "Do you want to participate in the incentivised trusted setup? y/n"
            },
            Question::FullName => "Please enter your full name:",
            Question::Email => "Please enter your email address:",
            Question::Contest => "Do you want to take part in the contest? y/n",
            Question::Mnemonic => "Please provide a 24 words mnemonic for your keypair:",
        }
    }

    /// The form that a reply to the question must have.
    pub fn expected(&self) -> (pattern: Option<&'static str>)
        ensures
            pattern_text(pattern) == self.expected_text(),
    {
        match self {
            Question::Incentivized => Some("(?i)[yn]"),
            Question::FullName => None,
            Question::Email => Some(".+[@].+[.].+"),
            Question::Contest => Some("(?i)[yn]"),
            Question::Mnemonic => Some("[\\w\\s]{24}"),
        }
    }
}

/// The mathematical content of a [`Survey`].
pub struct SurveyView {
    /// The summary as the answers so far have filled it in.
    pub info: ContributionInfoView,
    /// The question that is to be answered next, if one is left.
    pub pending: Option<Question>,
}

impl SurveyView {
    /// The survey before the first answer.
    pub open spec fn initial() -> SurveyView {
        SurveyView { info: ContributionInfoView::blank(), pending: Some(Question::Incentivized) }
    }

    /// The survey after `reply` was given to the pending question, where
    /// `yes` tells whether the reply says yes. A contributor that takes part
    /// in the incentivised setup is asked for its name and its address, and
    /// is marked once both are given. The question about the contest is the
    /// last.
    pub open spec fn answered(self, reply: Seq<char>, yes: bool) -> SurveyView {
        match self.pending {
            Some(Question::Incentivized) => SurveyView {
                pending: Some(
                    if yes {
                        Question::FullName
                    } else {
                        Question::Contest
                    },
                ),
                ..self
            },
            Some(Question::FullName) => SurveyView {
                info: ContributionInfoView { full_name: Some(reply), ..self.info },
                pending: Some(Question::Email),
            },
            Some(Question::Email) => SurveyView {
                info: ContributionInfoView {
                    email: Some(reply),
                    is_incentivized: true,
                    ..self.info
                },
                pending: Some(Question::Contest),
            },
            Some(Question::Contest) => SurveyView {
                info: ContributionInfoView {
                    is_contest_participant: yes || self.info.is_contest_participant,
                    ..self.info
                },
                pending: None,
            },
            _ => self,
        }
    }
}

/// The questions before a contribution, asked one at a time.
#[derive(Debug)]
pub struct Survey {
    info: ContributionInfo,
    pending: Option<Question>,
}

impl View for Survey {
    type V = SurveyView;

    closed spec fn view(&self) -> SurveyView {
        SurveyView { info: self.info@, pending: self.pending }
    }
}

impl Survey {
    /// The survey before the first answer.
    pub fn new() -> (survey: Survey)
        ensures
            survey@ == SurveyView::initial(),
    {
        Survey { info: ContributionInfo::default(), pending: Some(Question::Incentivized) }
    }

    /// The question that is to be answered next, if one is left.
    pub fn pending(&self) -> (question: Option<Question>)
        ensures
            question == self@.pending,
    {
        self.pending
    }

    /// Takes the reply to the pending question, given whether it says yes:
    /// see [`SurveyView::answered`].
    pub fn answer_given(&mut self, reply: String, yes: bool)
        ensures
            final(self)@ == old(self)@.answered(reply@, yes),
    {
        match self.pending {
            Some(Question::Incentivized) => {
                if yes {
                    self.pending = Some(Question::FullName);
                } else {
                    self.pending = Some(Question::Contest);
                }
            },
            Some(Question::FullName) => {
                self.info.full_name = Some(reply);
                self.pending = Some(Question::Email);
            },
            Some(Question::Email) => {
                self.info.email = Some(reply);
                self.info.is_incentivized = true;
                self.pending = Some(Question::Contest);
            },
            Some(Question::Contest) => {
                if yes {
                    self.info.is_contest_participant = true;
                }
                self.pending = None;
            },
            _ => {},
        }
    }

    /// Takes the reply to the pending question.
    pub fn answer(&mut self, reply: String)
        ensures
            final(self)@ == old(self)@.answered(reply@, lowercased(reply@) == "y"@),
    {
        let yes = affirms(reply.as_str());
        self.answer_given(reply, yes);
    }

    /// The summary that the answers have filled in.
    pub fn initialize_contribution(self) -> (info: ContributionInfo)
        ensures
            info@ == self@.info,
    {
        self.info
    }
}

/// Why a phrase gives no seed.
#[derive(Clone, Copy, Debug, PartialEq, Eq, Structural)]
pub enum MnemonicError {
    /// The phrase is no valid mnemonic.
    Unparsable,
    /// The mnemonic has another number of words than 24; it has this many.
    WrongLength(usize),
}

/// The seed that a parsed mnemonic gives: a mnemonic of 24 words gives its
/// seed, any other is refused.
pub open spec fn seed_of(parsed: Option<(usize, Seq<u8>)>) -> Result<Seq<u8>, MnemonicError> {
    match parsed {
        None => Err(MnemonicError::Unparsable),
        Some((words, seed)) => if words == MNEMONIC_LEN {
            Ok(seed)
        } else {
            Err(MnemonicError::WrongLength(words))
        },
    }
}

/// The content of a seed or of the reason why there is none.
pub open spec fn seed_view(seed: Result<Vec<u8>, MnemonicError>) -> Result<Seq<u8>, MnemonicError> {
    match seed {
        Ok(bytes) => Ok(bytes@),
        Err(e) => Err(e),
    }
}

/// The content of a parsed mnemonic.
pub open spec fn parsed_view(parsed: Option<(usize, Vec<u8>)>) -> Option<(usize, Seq<u8>)> {
    match parsed {
        Some((words, seed)) => Some((words, seed@)),
        None => None,
    }
}

/// The seed that a parsed mnemonic gives: see [`seed_of`].
pub fn seed_from_parsed(parsed: Option<(usize, Vec<u8>)>) -> (seed: Result<Vec<u8>, MnemonicError>)
    ensures
        seed_view(seed) == seed_of(parsed_view(parsed)),
{
    match parsed {
        None => Err(MnemonicError::Unparsable),
        Some((words, seed)) => {
            if words == MNEMONIC_LEN {
                Ok(seed)
            } else {
                Err(MnemonicError::WrongLength(words))
            }
        },
    }
}

/// The seed of the signing key, from the mnemonic that the contributor
/// gave: the phrase must be a valid English mnemonic of 24 words.
pub fn mnemonic_seed(phrase: &str) -> (seed: Result<Vec<u8>, MnemonicError>)
    ensures
        seed_view(seed) == seed_of(mnemonic_parsed(phrase@)),
{
    match parse_mnemonic(phrase) {
        Ok((words, seed)) => seed_from_parsed(Some((words, seed))),
        Err(_) => seed_from_parsed(None),
    }
}

} // verus!
