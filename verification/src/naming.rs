//! The names of the files a contributor keeps as its own record of a round.

use crate::text::{decimal, push_decimal};
use vstd::prelude::*;
use vstd::string::*;

verus! {

/// The bytes that `text` stands for in base64 with the standard alphabet,
/// or `None` where `text` is not read as such an encoding.
pub uninterp spec fn base64_decoded(text: Seq<char>) -> Option<Seq<u8>>;

/// The base58 rendering of `bytes` in the Bitcoin alphabet.
pub uninterp spec fn base58_encoded(bytes: Seq<u8>) -> Seq<char>;

/// The error of `base64::decode`.
#[verifier::external_type_specification]
#[verifier::external_body]
pub struct ExDecodeError(base64::DecodeError);

/// `base64::decode`: decodes `text` with the standard configuration. Whether
/// it fails and what it returns depend on `text` alone.
#[verifier::external_body]
fn base64_decode(text: &str) -> (decoded: Result<Vec<u8>, base64::DecodeError>)
    ensures
        decoded is Ok <==> base64_decoded(text@) is Some,
        decoded is Ok ==> base64_decoded(text@) == Some(decoded->Ok_0@),
{
    base64::decode(text)
}

/// `bs58::encode(..).into_string()`: renders `bytes` in base58 with the
/// default (Bitcoin) alphabet. The text depends on `bytes` alone.
#[verifier::external_body]
fn base58_encode(bytes: &[u8]) -> (encoded: String)
    ensures
        encoded@ == base58_encoded(bytes@),
{
    bs58::encode(bytes).into_string()
}

/// The name of the file that keeps the challenge of a round.
pub open spec fn challenge_file_text(round_height: u64) -> Seq<char> {
    "namada_challenge_round_"@ + decimal(round_height as nat) + ".params"@
}

/// The name of the file that keeps the contribution to a round, given the
/// contributor's key in a form that a file name can hold.
pub open spec fn contribution_file_text(round_height: u64, key: Seq<char>) -> Seq<char> {
    "namada_contribution_round_"@ + decimal(round_height as nat) + "_public_key_"@ + key
        + ".params"@
}

/// The name of the file that keeps the summary of a round.
pub open spec fn summary_file_text(round_height: u64) -> Seq<char> {
    "namada_contributor_info_round_"@ + decimal(round_height as nat) + ".json"@
}

/// The name of the contribution file of the contributor with public key
/// `pubkey`, which is base64: the key is written in base58, since base64
/// uses characters that a file name cannot hold. `None` where the key is
/// not base64.
pub open spec fn contribution_file_of(pubkey: Seq<char>, round_height: u64) -> Option<Seq<char>> {
    match base64_decoded(pubkey) {
        Some(bytes) => Some(contribution_file_text(round_height, base58_encoded(bytes))),
        None => None,
    }
}

/// The name of the file that keeps the challenge of a round.
pub fn challenge_file_name(round_height: u64) -> (name: String)
    ensures
        name@ == challenge_file_text(round_height),
{
    let mut name = String::new();
    name.append("namada_challenge_round_");
    push_decimal(&mut name, round_height);
    name.append(".params");
    name
}

/// The name of the file that keeps the contribution to a round, given the
/// contributor's key as `key` is to appear in it.
pub fn contribution_file_name_with(round_height: u64, key: &str) -> (name: String)
    ensures
        name@ == contribution_file_text(round_height, key@),
{
    let mut name = String::new();
    name.append("namada_contribution_round_");
    push_decimal(&mut name, round_height);
    name.append("_public_key_");
    name.append(key);
    name.append(".params");
    name
}

/// The name of the contribution file of the contributor with public key
/// `pubkey`: see [`contribution_file_of`].
pub fn contribution_file_name(pubkey: &str, round_height: u64) -> (name: Option<String>)
    ensures
        name is Some <==> contribution_file_of(pubkey@, round_height) is Some,
        name is Some ==> contribution_file_of(pubkey@, round_height) == Some(name->0@),
{
    match base64_decode(pubkey) {
        Ok(bytes) => {
            let key = base58_encode(bytes.as_slice());
            Some(contribution_file_name_with(round_height, key.as_str()))
        },
        Err(_) => None,
    }
}

/// The name of the file that keeps the summary of a round.
pub fn summary_file_name(round_height: u64) -> (name: String)
    ensures
        name@ == summary_file_text(round_height),
{
    let mut name = String::new();
    name.append("namada_contributor_info_round_");
    push_decimal(&mut name, round_height);
    name.append(".json");
    name
}

} // verus!
