//! The credentials of a validator, put together from its identity file and from what the chain
//! says of it.
use crate::outside::{decode_hex, hex_bytes, is_hex};
use move_core_types::account_address::AccountAddress;
use vstd::prelude::*;

verus! {

/// What the logic reads of a validator's public identity file.
#[derive(Debug, PartialEq, Eq)]
pub struct Identity {
    /// The bytes of the proof of possession of the consensus key.
    pub consensus_proof_of_possession: Option<Vec<u8>>,
    /// The consensus key in hexadecimal digits.
    pub consensus_public_key: Option<String>,
}

/// What a validator is registered with.
#[derive(Debug, PartialEq, Eq)]
pub struct ValCredentials {
    pub account: AccountAddress,
    pub consensus_pubkey: Vec<u8>,
    pub proof_of_possession: Vec<u8>,
    pub network_addresses: Vec<u8>,
    pub fullnode_addresses: Vec<u8>,
}

/// The contents of an [`Identity`].
pub struct IdentityModel {
    pub proof: Option<Seq<u8>>,
    pub key: Option<Seq<char>>,
}

/// The contents of [`ValCredentials`].
pub struct CredentialsModel {
    pub account: AccountAddress,
    pub consensus_pubkey: Seq<u8>,
    pub proof_of_possession: Seq<u8>,
    pub network_addresses: Seq<u8>,
    pub fullnode_addresses: Seq<u8>,
}

impl View for Identity {
    type V = IdentityModel;

    open spec fn view(&self) -> IdentityModel {
        IdentityModel {
            proof: match self.consensus_proof_of_possession {
                Some(proof) => Some(proof@),
                None => None,
            },
            key: match self.consensus_public_key {
                Some(key) => Some(key@),
                None => None,
            },
        }
    }
}

impl View for ValCredentials {
    type V = CredentialsModel;

    open spec fn view(&self) -> CredentialsModel {
        CredentialsModel {
            account: self.account,
            consensus_pubkey: self.consensus_pubkey@,
            proof_of_possession: self.proof_of_possession@,
            network_addresses: self.network_addresses@,
            fullnode_addresses: self.fullnode_addresses@,
        }
    }
}

/// A part of the credentials that is given in hexadecimal digits.
#[derive(Debug, Clone, Copy, PartialEq, Eq)]
pub enum HexPart {
    ChainKey,
    FileKey,
    NetworkAddresses,
    FullnodeAddresses,
}

/// Why no credentials can be put together.
#[derive(Debug, Clone, Copy, PartialEq, Eq)]
pub enum CredentialFault {
    /// The identity file holds no proof of possession.
    NoProof,
    /// The identity file holds no consensus key.
    NoConsensusKey,
    /// The chain's answer at this place is missing, no text, or a text without `0x`.
    BadAnswer(usize),
    /// A part is not a whole number of pairs of hexadecimal digits.
    BadHex(HexPart),
    /// The chain and the identity file name different consensus keys.
    KeyMismatch,
}

/// The digits of the chain's answer at a place: the text behind its `0x`.
pub open spec fn answer_digits(answers: Seq<Option<String>>, place: int) -> Option<Seq<char>> {
    if 0 <= place < answers.len() && answers[place] is Some && "0x"@.is_prefix_of(
        answers[place]->0@,
    ) {
        Some(answers[place]->0@.skip(2))
    } else {
        None
    }
}

/// The credentials of an account, or the first fault on the way to them.
///
/// The chain answers with the consensus key, the network addresses and the full node addresses,
/// in this order.
pub open spec fn credentials_of(
    account: AccountAddress,
    identity: IdentityModel,
    answers: Seq<Option<String>>,
) -> Result<CredentialsModel, CredentialFault> {
    let key = answer_digits(answers, 0);
    let network = answer_digits(answers, 1);
    let fullnode = answer_digits(answers, 2);
    if identity.proof is None {
        Err(CredentialFault::NoProof)
    } else if identity.key is None {
        Err(CredentialFault::NoConsensusKey)
    } else if network is None {
        Err(CredentialFault::BadAnswer(1))
    } else if fullnode is None {
        Err(CredentialFault::BadAnswer(2))
    } else if key is None {
        Err(CredentialFault::BadAnswer(0))
    } else if !is_hex(key->0) {
        Err(CredentialFault::BadHex(HexPart::ChainKey))
    } else if !is_hex(identity.key->0) {
        Err(CredentialFault::BadHex(HexPart::FileKey))
    } else if !is_hex(network->0) {
        Err(CredentialFault::BadHex(HexPart::NetworkAddresses))
    } else if !is_hex(fullnode->0) {
        Err(CredentialFault::BadHex(HexPart::FullnodeAddresses))
    } else if hex_bytes(key->0) != hex_bytes(identity.key->0) {
        Err(CredentialFault::KeyMismatch)
    } else {
        Ok(
            CredentialsModel {
                account,
                consensus_pubkey: hex_bytes(identity.key->0),
                proof_of_possession: identity.proof->0,
                network_addresses: hex_bytes(network->0),
                fullnode_addresses: hex_bytes(fullnode->0),
            },
        )
    }
}

/// Whether two byte strings are the same.
fn same_bytes(a: &Vec<u8>, b: &Vec<u8>) -> (r: bool)
    ensures
        r == (a@ == b@),
{
    if a.len() != b.len() {
        return false;
    }
    let mut i: usize = 0;
    while i < a.len()
        invariant
            i <= a.len(),
            a.len() == b.len(),
            forall|j: int| 0 <= j < i ==> a@[j] == b@[j],
        decreases a.len() - i,
    {
        if a[i] != b[i] {
            return false;
        }
        i += 1;
    }
    assert(a@ =~= b@);
    true
}

/// The text behind its `0x`, if a text starts with it.
fn strip_0x(text: &str) -> (r: Option<&str>)
    ensures
        r is Some <==> "0x"@.is_prefix_of(text@),
        r matches Some(rest) ==> rest@ == text@.skip(2),
{
    proof {
        reveal_strlit("0x");
    }
    let length: usize = text.unicode_len();
    if length >= 2 && text.get_char(0) == '0' && text.get_char(1) == 'x' {
        let rest = text.substring_char(2, length);
        assert("0x"@ =~= text@.take(2));
        assert(rest@ =~= text@.skip(2));
        Some(rest)
    } else {
        proof {
            if "0x"@.is_prefix_of(text@) {
                assert("0x"@[0] == text@[0] && "0x"@[1] == text@[1]);
            }
        }
        None
    }
}

/// The text behind the `0x` of the chain's answer at a place.
fn answer_at(answers: &Vec<Option<String>>, place: usize) -> (r: Option<&str>)
    ensures
        r is Some <==> answer_digits(answers@, place as int) is Some,
        r matches Some(digits) ==> answer_digits(answers@, place as int) == Some(digits@),
{
    if place >= answers.len() {
        return None;
    }
    match &answers[place] {
        Some(text) => strip_0x(text.as_str()),
        None => None,
    }
}

/// The bytes that hexadecimal digits spell.
fn part(digits: &str, which: HexPart) -> (r: Result<Vec<u8>, CredentialFault>)
    ensures
        match r {
            Ok(bytes) => is_hex(digits@) && bytes@ == hex_bytes(digits@),
            Err(fault) => !is_hex(digits@) && fault == CredentialFault::BadHex(which),
        },
{
    match decode_hex(digits) {
        Ok(bytes) => Ok(bytes),
        Err(_) => Err(CredentialFault::BadHex(which)),
    }
}

/// Puts the credentials of an account together, and checks that the chain and the identity file
/// name the same consensus key.
pub fn credentials(
    account: AccountAddress,
    identity: &Identity,
    answers: &Vec<Option<String>>,
) -> (r: Result<ValCredentials, CredentialFault>)
    ensures
        match r {
            Ok(found) => credentials_of(account, identity@, answers@) == Ok::<
                CredentialsModel,
                CredentialFault,
            >(found@),
            Err(fault) => credentials_of(account, identity@, answers@) == Err::<
                CredentialsModel,
                CredentialFault,
            >(fault),
        },
{
    let proof_of_possession: Vec<u8> = match &identity.consensus_proof_of_possession {
        Some(proof) => copy_of(proof),
        None => {
            return Err(CredentialFault::NoProof);
        },
    };
    let file_key: &String = match &identity.consensus_public_key {
        Some(key) => key,
        None => {
            return Err(CredentialFault::NoConsensusKey);
        },
    };
    let network: &str = match answer_at(answers, 1) {
        Some(digits) => digits,
        None => {
            return Err(CredentialFault::BadAnswer(1));
        },
    };
    let fullnode: &str = match answer_at(answers, 2) {
        Some(digits) => digits,
        None => {
            return Err(CredentialFault::BadAnswer(2));
        },
    };
    let chain_key: &str = match answer_at(answers, 0) {
        Some(digits) => digits,
        None => {
            return Err(CredentialFault::BadAnswer(0));
        },
    };
    let chain_pubkey = part(chain_key, HexPart::ChainKey)?;
    let consensus_pubkey = part(file_key.as_str(), HexPart::FileKey)?;
    let network_addresses = part(network, HexPart::NetworkAddresses)?;
    let fullnode_addresses = part(fullnode, HexPart::FullnodeAddresses)?;
    if !same_bytes(&chain_pubkey, &consensus_pubkey) {
        return Err(CredentialFault::KeyMismatch);
    }
    Ok(
        ValCredentials {
            account,
            consensus_pubkey,
            proof_of_possession,
            network_addresses,
            fullnode_addresses,
        },
    )
}

/// The same bytes once more.
fn copy_of(bytes: &Vec<u8>) -> (r: Vec<u8>)
    ensures
        r@ == bytes@,
{
    let r = bytes.clone();
    assert(r@ =~= bytes@);
    r
}

} // verus!
