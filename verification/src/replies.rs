//! What each reply leads to: which replies a task can have, what they add to the findings, and what
//! they end a run with.
use crate::credentials::{
    credentials_of, CredentialFault, CredentialsModel, HexPart, Identity, IdentityModel,
    ValCredentials,
};
use crate::findings::{assessed, nothing_found, only_credentials, Findings, FindingsModel};
use crate::outside::{decoding, digit, encoding, genesis_of, hex_bytes, is_hex};
use crate::plan::{
    fits, Deadline, Fault, OnFailure, Plan, Reply, Step, SwarmInfo, Task, TwinError, Verdict,
};
use crate::snapshot::{
    all_dated, is_latest, latest_place, law_latest_is_unique, law_when_there_is_a_latest,
    SnapshotEntry,
};
use crate::twin::entry_function_or_error;
use diem_types::transaction::{ChangeSet, ScriptFunction};
use diem_types::waypoint::Waypoint;
use move_core_types::account_address::AccountAddress;
use std::path::PathBuf;
use vstd::prelude::*;

verus! {

/// The value of a hexadecimal digit, and a negative number for any other character.
pub open spec fn digit_value(c: char) -> int {
    if '0' <= c <= '9' {
        c as int - '0' as int
    } else if 'a' <= c <= 'f' {
        10 + (c as int - 'a' as int)
    } else if 'A' <= c <= 'F' {
        10 + (c as int - 'A' as int)
    } else {
        -1
    }
}

/// Whether a text consists of pairs of hexadecimal digits.
pub open spec fn hexadecimal(text: Seq<char>) -> bool {
    &&& text.len() % 2 == 0
    &&& forall|i: int| 0 <= i < text.len() ==> digit_value(#[trigger] text[i]) >= 0
}

/// Whether a text spells bytes: two digits for each byte, the high one first.
pub open spec fn spells(text: Seq<char>, bytes: Seq<u8>) -> bool {
    &&& hexadecimal(text)
    &&& text.len() == 2 * bytes.len()
    &&& forall|i: int|
        0 <= i < bytes.len() ==> (#[trigger] bytes[i]) == 16 * digit_value(text[2 * i])
            + digit_value(text[2 * i + 1])
}

/// Whether the chain answered at a place with a text that starts with `0x`.
pub open spec fn has_text(answers: Seq<Option<String>>, place: int) -> bool {
    0 <= place < answers.len() && (answers[place] matches Some(text) && text@.len() >= 2 && text@[0]
        == '0' && text@[1] == 'x')
}

/// What the chain answered at a place, behind the `0x`.
pub open spec fn digits_at(answers: Seq<Option<String>>, place: int) -> Seq<char> {
    answers[place]->0@.skip(2)
}

/// A text of hexadecimal digits spells bytes, and only one string of them.
pub proof fn law_a_text_spells_its_bytes(text: Seq<char>)
    ensures
        is_hex(text) <==> hexadecimal(text),
        hexadecimal(text) ==> spells(text, hex_bytes(text)),
        forall|bytes: Seq<u8>| spells(text, bytes) ==> bytes == hex_bytes(text),
{
    assert forall|i: int| 0 <= i < text.len() implies (digit(#[trigger] text[i]) is Some
        <==> digit_value(text[i]) >= 0) by {}
    assert(is_hex(text) <==> hexadecimal(text));
    if hexadecimal(text) {
        assert forall|i: int| 0 <= i < hex_bytes(text).len() implies (#[trigger] hex_bytes(text)[i])
            == 16 * digit_value(text[2 * i]) + digit_value(text[2 * i + 1]) by {
            assert(digit_value(text[2 * i]) >= 0 && digit_value(text[2 * i + 1]) >= 0);
        }
    }
    assert forall|bytes: Seq<u8>| spells(text, bytes) implies bytes == hex_bytes(text) by {
        assert(bytes =~= hex_bytes(text));
    }
}

/// An answer that starts with `0x`, in terms of its first two characters.
proof fn lemma_has_text(answers: Seq<Option<String>>, place: int)
    ensures
        has_text(answers, place) <==> crate::credentials::answer_digits(answers, place) is Some,
        has_text(answers, place) ==> crate::credentials::answer_digits(answers, place) == Some(
            digits_at(answers, place),
        ),
{
    reveal_strlit("0x");
    if 0 <= place < answers.len() && answers[place] is Some {
        let text = answers[place]->0@;
        if text.len() >= 2 && text[0] == '0' && text[1] == 'x' {
            assert("0x"@ =~= text.take(2));
        }
        if "0x"@.is_prefix_of(text) {
            assert("0x"@[0] == text[0] && "0x"@[1] == text[1]);
        }
    }
}

/// Credentials hold what was answered and read: the key that both the chain's first answer and the
/// identity spell, the network addresses of the second answer, the full node addresses of the
/// third, and the proof of the identity.
pub proof fn law_credentials_hold_what_was_answered(
    account: AccountAddress,
    identity: IdentityModel,
    answers: Seq<Option<String>>,
)
    ensures
        credentials_of(account, identity, answers) matches Ok(found) ==> {
            &&& found.account == account
            &&& identity.proof == Some(found.proof_of_possession)
            &&& identity.key matches Some(key) && spells(key, found.consensus_pubkey)
            &&& has_text(answers, 0) && spells(digits_at(answers, 0), found.consensus_pubkey)
            &&& has_text(answers, 1) && spells(digits_at(answers, 1), found.network_addresses)
            &&& has_text(answers, 2) && spells(digits_at(answers, 2), found.fullnode_addresses)
        },
{
    lemma_has_text(answers, 0);
    lemma_has_text(answers, 1);
    lemma_has_text(answers, 2);
    law_a_text_spells_its_bytes(digits_at(answers, 0));
    law_a_text_spells_its_bytes(digits_at(answers, 1));
    law_a_text_spells_its_bytes(digits_at(answers, 2));
    if let Some(key) = identity.key {
        law_a_text_spells_its_bytes(key);
    }
}

/// Where the identity and the answers spell bytes, and the same for the key, credentials are put
/// together from just these bytes.
pub proof fn law_credentials_are_put_together(
    account: AccountAddress,
    identity: IdentityModel,
    answers: Seq<Option<String>>,
    proof_of_possession: Seq<u8>,
    key_text: Seq<char>,
    key: Seq<u8>,
    network: Seq<u8>,
    fullnode: Seq<u8>,
)
    requires
        identity.proof == Some(proof_of_possession),
        identity.key == Some(key_text),
        spells(key_text, key),
        has_text(answers, 0) && spells(digits_at(answers, 0), key),
        has_text(answers, 1) && spells(digits_at(answers, 1), network),
        has_text(answers, 2) && spells(digits_at(answers, 2), fullnode),
    ensures
        credentials_of(account, identity, answers) == Ok::<CredentialsModel, CredentialFault>(
            CredentialsModel {
                account,
                consensus_pubkey: key,
                proof_of_possession,
                network_addresses: network,
                fullnode_addresses: fullnode,
            },
        ),
{
    lemma_has_text(answers, 0);
    lemma_has_text(answers, 1);
    lemma_has_text(answers, 2);
    law_a_text_spells_its_bytes(digits_at(answers, 0));
    law_a_text_spells_its_bytes(digits_at(answers, 1));
    law_a_text_spells_its_bytes(digits_at(answers, 2));
    law_a_text_spells_its_bytes(key_text);
}

/// What is missing or wrong first is the fault: the proof, the key, the texts of the addresses and
/// of the key, the digits of the keys and of the addresses, and last the sameness of the keys.
pub proof fn law_the_first_fault_counts(
    account: AccountAddress,
    identity: IdentityModel,
    answers: Seq<Option<String>>,
)
    ensures
        ({
            let r = credentials_of(account, identity, answers);
            let (key, network, fullnode) = (
                digits_at(answers, 0),
                digits_at(answers, 1),
                digits_at(answers, 2),
            );
            if identity.proof is None {
                r matches Err(fault) && fault == CredentialFault::NoProof
            } else if identity.key is None {
                r matches Err(fault) && fault == CredentialFault::NoConsensusKey
            } else if !has_text(answers, 1) {
                r matches Err(fault) && fault == CredentialFault::BadAnswer(1)
            } else if !has_text(answers, 2) {
                r matches Err(fault) && fault == CredentialFault::BadAnswer(2)
            } else if !has_text(answers, 0) {
                r matches Err(fault) && fault == CredentialFault::BadAnswer(0)
            } else if !hexadecimal(key) {
                r matches Err(fault) && fault == CredentialFault::BadHex(HexPart::ChainKey)
            } else if !hexadecimal(identity.key->0) {
                r matches Err(fault) && fault == CredentialFault::BadHex(HexPart::FileKey)
            } else if !hexadecimal(network) {
                r matches Err(fault) && fault == CredentialFault::BadHex(HexPart::NetworkAddresses)
            } else if !hexadecimal(fullnode) {
                r matches Err(fault) && fault == CredentialFault::BadHex(HexPart::FullnodeAddresses)
            } else if forall|bytes: Seq<u8>|
                !(#[trigger] spells(key, bytes) && spells(identity.key->0, bytes)) {
                r matches Err(fault) && fault == CredentialFault::KeyMismatch
            } else {
                r is Ok
            }
        }),
{
    lemma_has_text(answers, 0);
    lemma_has_text(answers, 1);
    lemma_has_text(answers, 2);
    law_a_text_spells_its_bytes(digits_at(answers, 0));
    law_a_text_spells_its_bytes(digits_at(answers, 1));
    law_a_text_spells_its_bytes(digits_at(answers, 2));
    if let Some(key) = identity.key {
        law_a_text_spells_its_bytes(key);
        let bytes = hex_bytes(digits_at(answers, 0));
        if hexadecimal(digits_at(answers, 0)) && hexadecimal(key) && bytes == hex_bytes(key) {
            assert(spells(digits_at(answers, 0), bytes) && spells(key, bytes));
        }
    }
}

/// The models show what the values hold.
pub proof fn law_the_models_show_everything(
    identity: Identity,
    given: ValCredentials,
    found: Findings,
    plan: Plan,
)
    ensures
        identity@.proof is Some <==> identity.consensus_proof_of_possession is Some,
        identity.consensus_proof_of_possession matches Some(bytes) ==> identity@.proof == Some(
            bytes@,
        ),
        identity@.key is Some <==> identity.consensus_public_key is Some,
        identity.consensus_public_key matches Some(text) ==> identity@.key == Some(text@),
        given@.account == given.account,
        given@.consensus_pubkey == given.consensus_pubkey@,
        given@.proof_of_possession == given.proof_of_possession@,
        given@.network_addresses == given.network_addresses@,
        given@.fullnode_addresses == given.fullnode_addresses@,
        found@.archive_found == found.archive_found,
        found@.latest == found.latest,
        found@.db_found == found.db_found,
        found@.current_dir == found.current_dir,
        found@.nodes == found.nodes@,
        found@.signing_key == found.signing_key,
        found@.api_endpoint == found.api_endpoint,
        found@.identity is Some <==> found.identity is Some,
        found.identity matches Some(read) ==> found@.identity == Some(read@),
        found@.credentials.len() == found.credentials@.len(),
        forall|j: int|
            0 <= j < found.credentials@.len() ==> (#[trigger] found@.credentials[j])
                == found.credentials@[j]@,
        found@.blob is Some <==> found.blob is Some,
        found.blob matches Some(bytes) ==> found@.blob == Some(bytes@),
        found@.waypoints == found.waypoints@,
        found@.geneses == found.geneses@,
        found@.scratch == found.scratch,
        found@.balance == found.balance,
        plan@.steps == plan.steps@,
        plan@.end == plan.end,
{
}

/// At first nothing is known.
pub proof fn law_nothing_is_known_at_first()
    ensures
        ({
            let found = nothing_found();
            &&& found.archive_found is None && found.latest is None && found.db_found is None
            &&& found.current_dir is None && found.scratch is None && found.balance is None
            &&& found.signing_key is None && found.api_endpoint is None
            &&& found.identity is None && found.blob is None
            &&& found.nodes.len() == 0 && found.credentials.len() == 0
            &&& found.waypoints.len() == 0 && found.geneses.len() == 0
        }),
{
}

/// A rescue that is given credentials knows all of them, each in its place, and nothing else.
pub proof fn law_a_rescue_knows_all_credentials(given: Seq<ValCredentials>)
    ensures
        only_credentials(given).credentials.len() == given.len(),
        forall|j: int|
            0 <= j < given.len() ==> (#[trigger] only_credentials(given).credentials[j])
                == given[j]@,
        ({
            let found = only_credentials(given);
            &&& found.archive_found is None && found.latest is None && found.db_found is None
            &&& found.current_dir is None && found.scratch is None && found.balance is None
            &&& found.signing_key is None && found.api_endpoint is None
            &&& found.identity is None && found.blob is None
            &&& found.nodes.len() == 0 && found.waypoints.len() == 0 && found.geneses.len() == 0
        }),
{
}

/// Which replies a task can have: what it was asked for, or a failure where the task can fail.
pub proof fn law_which_replies_a_task_has<E>(task: Task, reply: Reply<E>)
    ensures
        ({
            let looks = task is LookForArchive || task is LookForDatabase || task is RequirePresent
                || task is RequireAbsent || task is RequireManifest;
            let gives = looks || task is CurrentDir || task is ScratchDir || task is StartSwarm
                || task is ReadIdentity || task is QueryView || task is UnpackChangeSet
                || task is ReadFile || task is Bootstrap || task is ReadBalance
                || task is ListSnapshots;
            let cannot_fail = looks || task is StopNode || task is Pause || task is SetDeadline
                || task is ScratchDir || task is Park;
            fits(task, reply) <==> match reply {
                Reply::Done => !gives,
                Reply::Failed(_) => !cannot_fail,
                Reply::NoDeadline => task is SetDeadline,
                Reply::Found(_) => looks,
                Reply::Folder(_) => task is CurrentDir || task is ScratchDir,
                Reply::Swarm(_) => task is StartSwarm,
                Reply::Identity(_) => task is ReadIdentity,
                Reply::Answers(_) => task is QueryView,
                Reply::Changes(_) => task is UnpackChangeSet,
                Reply::Bytes(_) => task is ReadFile,
                Reply::Waypoint(_) => task is Bootstrap,
                Reply::Balance(_) => task is ReadBalance,
                Reply::Entries(_) => task is ListSnapshots,
            }
        }),
{
}

/// A task that is done adds nothing. One that failed, or could not set a deadline, is passed over
/// where that does not matter; else its error is returned, is a panic or ends the process.
pub proof fn law_what_a_failure_leads_to<E>(found: FindingsModel, step: Step, error: E)
    ensures
        assessed(found, step, Reply::<E>::Done) == Ok::<FindingsModel, Verdict<E>>(found),
        assessed(found, step, Reply::Failed(error)) == match step.on_failure {
            OnFailure::Ignore => Ok::<FindingsModel, Verdict<E>>(found),
            OnFailure::Return => Err(Verdict::Returned(TwinError::Outside(error))),
            OnFailure::Unwrap => Err(Verdict::Unwrapped(TwinError::Outside(error))),
            OnFailure::Abort => Err(Verdict::Aborted(TwinError::Outside(error))),
        },
        step.task == Task::SetDeadline(Deadline::Connectivity) ==> assessed(
            found,
            step,
            Reply::<E>::NoDeadline,
        ) == match step.on_failure {
            OnFailure::Ignore => Ok::<FindingsModel, Verdict<E>>(found),
            OnFailure::Return => Err(Verdict::Returned(TwinError::NoConnectivityDeadline)),
            OnFailure::Unwrap => Err(Verdict::Unwrapped(TwinError::NoConnectivityDeadline)),
            OnFailure::Abort => Err(Verdict::Aborted(TwinError::NoConnectivityDeadline)),
        },
        step.task is SetDeadline && step.task != Task::SetDeadline(Deadline::Connectivity)
            ==> assessed(found, step, Reply::<E>::NoDeadline) == match step.on_failure {
            OnFailure::Ignore => Ok::<FindingsModel, Verdict<E>>(found),
            OnFailure::Return => Err(Verdict::Returned(TwinError::NoDeadline)),
            OnFailure::Unwrap => Err(Verdict::Unwrapped(TwinError::NoDeadline)),
            OnFailure::Abort => Err(Verdict::Aborted(TwinError::NoDeadline)),
        },
{
}

/// Looking for something tells whether it is there. What must be there and is not, or must be gone
/// and is not, is a panic.
pub proof fn law_what_a_look_leads_to<E>(found: FindingsModel, step: Step, present: bool)
    ensures
        ({
            let r = assessed(found, step, Reply::<E>::Found(present));
            &&& step.task is LookForArchive ==> r == Ok::<FindingsModel, Verdict<E>>(
                FindingsModel { archive_found: Some(present), ..found },
            )
            &&& step.task is LookForDatabase ==> r == Ok::<FindingsModel, Verdict<E>>(
                FindingsModel { db_found: Some(present), ..found },
            )
            &&& step.task is RequirePresent ==> r == if present {
                Ok::<FindingsModel, Verdict<E>>(found)
            } else {
                Err(Verdict::Panicked(Fault::NotFound))
            }
            &&& step.task is RequireManifest ==> r == if present {
                Ok::<FindingsModel, Verdict<E>>(found)
            } else {
                Err(Verdict::Panicked(Fault::NoManifest))
            }
            &&& step.task is RequireAbsent ==> r == if present {
                Err(Verdict::Panicked(Fault::StillThere))
            } else {
                Ok::<FindingsModel, Verdict<E>>(found)
            }
        }),
{
}

/// A directory is kept as what it was asked for; a swarm is kept with its validators, its key and
/// its endpoint.
pub proof fn law_what_is_kept_of_a_swarm<E>(
    found: FindingsModel,
    step: Step,
    dir: PathBuf,
    swarm: SwarmInfo,
)
    ensures
        step.task is CurrentDir ==> assessed(found, step, Reply::<E>::Folder(dir)) == Ok::<
            FindingsModel,
            Verdict<E>,
        >(FindingsModel { current_dir: Some(dir), ..found }),
        step.task is ScratchDir ==> assessed(found, step, Reply::<E>::Folder(dir)) == Ok::<
            FindingsModel,
            Verdict<E>,
        >(FindingsModel { scratch: Some(dir), ..found }),
        assessed(found, step, Reply::<E>::Swarm(swarm)) == Ok::<FindingsModel, Verdict<E>>(
            FindingsModel {
                nodes: swarm.nodes@,
                signing_key: Some(swarm.signing_key),
                api_endpoint: Some(swarm.api_endpoint),
                ..found
            },
        ),
{
}

/// An identity takes the place of the one before. Without a proof or a key it is a panic.
pub proof fn law_what_an_identity_leads_to<E>(found: FindingsModel, step: Step, identity: Identity)
    ensures
        assessed(found, step, Reply::<E>::Identity(identity)) == if
            identity.consensus_proof_of_possession is None {
            Err::<FindingsModel, Verdict<E>>(
                Verdict::Panicked(Fault::Credential(CredentialFault::NoProof)),
            )
        } else if identity.consensus_public_key is None {
            Err(Verdict::Panicked(Fault::Credential(CredentialFault::NoConsensusKey)))
        } else {
            Ok(FindingsModel { identity: Some(identity@), ..found })
        },
{
}

/// The chain's answers and the identity that was read last give the credentials of the account that
/// was asked for. They come behind those before them, and change nothing else.
pub proof fn law_what_answers_lead_to<E>(
    found: FindingsModel,
    step: Step,
    answers: Vec<Option<String>>,
    identity: IdentityModel,
)
    requires
        step.task is QueryView,
        found.identity == Some(identity),
    ensures
        match assessed(found, step, Reply::<E>::Answers(answers)) {
            Ok(after) => {
                let added = after.credentials.last();
                &&& after == (FindingsModel { credentials: after.credentials, ..found })
                &&& after.credentials == found.credentials.push(added)
                &&& added.account == step.task->QueryView_account
                &&& identity.proof == Some(added.proof_of_possession)
                &&& identity.key matches Some(key) && spells(key, added.consensus_pubkey)
                &&& has_text(answers@, 0) && spells(digits_at(answers@, 0), added.consensus_pubkey)
                &&& has_text(answers@, 1) && spells(digits_at(answers@, 1), added.network_addresses)
                &&& has_text(answers@, 2) && spells(
                    digits_at(answers@, 2),
                    added.fullnode_addresses,
                )
            },
            Err(verdict) => credentials_of(
                step.task->QueryView_account,
                identity,
                answers@,
            ) matches Err(fault) && verdict == Verdict::<E>::Panicked(Fault::Credential(fault)),
        },
{
    law_credentials_hold_what_was_answered(step.task->QueryView_account, identity, answers@);
    if let Ok(after) = assessed(found, step, Reply::<E>::Answers(answers)) {
        assert(after.credentials.drop_last() =~= found.credentials);
        assert(after.credentials =~= found.credentials.push(after.credentials.last()));
    }
}

/// The rescue blob is the encoding of the genesis that writes the session's change set directly.
/// The genesis that is read from a blob comes behind those before it. Where the codec fails, the
/// step has failed.
pub proof fn law_what_the_codec_leads_to<E>(
    found: FindingsModel,
    step: Step,
    changes: ChangeSet,
    bytes: Vec<u8>,
)
    ensures
        match encoding(genesis_of(changes)) {
            Ok(blob) => assessed(found, step, Reply::<E>::Changes(changes)) == Ok::<
                FindingsModel,
                Verdict<E>,
            >(FindingsModel { blob: Some(blob), ..found }),
            Err(error) => assessed(found, step, Reply::<E>::Changes(changes))
                == match step.on_failure {
                OnFailure::Ignore => Ok::<FindingsModel, Verdict<E>>(found),
                OnFailure::Return => Err(Verdict::Returned(TwinError::Bcs(error))),
                OnFailure::Unwrap => Err(Verdict::Unwrapped(TwinError::Bcs(error))),
                OnFailure::Abort => Err(Verdict::Aborted(TwinError::Bcs(error))),
            },
        },
        match decoding(bytes@) {
            Ok(genesis) => assessed(found, step, Reply::<E>::Bytes(bytes)) == Ok::<
                FindingsModel,
                Verdict<E>,
            >(FindingsModel { geneses: found.geneses.push(genesis), ..found }),
            Err(error) => assessed(found, step, Reply::<E>::Bytes(bytes)) == match step.on_failure {
                OnFailure::Ignore => Ok::<FindingsModel, Verdict<E>>(found),
                OnFailure::Return => Err(Verdict::Returned(TwinError::Bcs(error))),
                OnFailure::Unwrap => Err(Verdict::Unwrapped(TwinError::Bcs(error))),
                OnFailure::Abort => Err(Verdict::Aborted(TwinError::Bcs(error))),
            },
        },
{
}

/// A bootstrap for good must give a waypoint, which comes behind those before it. What a mere try
/// gives does not matter.
pub proof fn law_what_a_bootstrap_leads_to<E>(
    found: FindingsModel,
    step: Step,
    waypoint: Option<Waypoint>,
)
    requires
        step.task is Bootstrap,
    ensures
        assessed(found, step, Reply::<E>::Waypoint(waypoint)) == if !step.task->Bootstrap_commit {
            Ok::<FindingsModel, Verdict<E>>(found)
        } else {
            match waypoint {
                Some(given) => Ok(
                    FindingsModel { waypoints: found.waypoints.push(given), ..found },
                ),
                None => Err(Verdict::Panicked(Fault::NoWaypoint)),
            }
        },
{
}

/// A balance must be higher than the one before it, where there is one.
pub proof fn law_what_a_balance_leads_to<E>(found: FindingsModel, step: Step, balance: u64)
    ensures
        assessed(found, step, Reply::<E>::Balance(balance)) == match found.balance {
            Some(before) if balance <= before => Err::<FindingsModel, Verdict<E>>(
                Verdict::Panicked(Fault::BalanceUnchanged),
            ),
            _ => Ok(FindingsModel { balance: Some(balance), ..found }),
        },
{
}

/// Whether the entry at a place is the newest: it was modified after the first second of the epoch,
/// no entry was modified after it, and those listed before it were modified earlier.
pub open spec fn newest(entries: Seq<SnapshotEntry>, p: int) -> bool {
    &&& 0 <= p < entries.len()
    &&& entries[p].modified->0 > 0
    &&& forall|i: int|
        0 <= i < entries.len() ==> (#[trigger] entries[i]).modified is Some
            && entries[i].modified->0 <= entries[p].modified->0
    &&& forall|i: int| 0 <= i < p ==> (#[trigger] entries[i]).modified->0 < entries[p].modified->0
}

/// The newest of some entries is the one that counts as the latest.
pub proof fn law_what_the_latest_is(entries: Seq<SnapshotEntry>, p: int)
    ensures
        newest(entries, p) <==> all_dated(entries) && is_latest(entries, p),
        newest(entries, p) ==> latest_place(entries) == p,
{
    if newest(entries, p) {
        assert(all_dated(entries));
        assert(is_latest(entries, p));
        law_latest_is_unique(entries, p, latest_place(entries));
    }
}

/// Of the entries of the archive the newest is kept, and nothing else changes.
pub proof fn law_the_newest_snapshot_is_kept<E>(
    found: FindingsModel,
    step: Step,
    entries: Vec<SnapshotEntry>,
    p: int,
)
    requires
        newest(entries@, p),
    ensures
        assessed(found, step, Reply::<E>::Entries(entries)) == Ok::<FindingsModel, Verdict<E>>(
            FindingsModel { latest: Some(entries@[p].path), ..found },
        ),
{
    law_what_the_latest_is(entries@, p);
}

/// A listing lets a run go on exactly if it has a newest entry. An entry from before the epoch is a
/// panic, and so is an archive without an entry of a later second than the first.
pub proof fn law_what_a_listing_leads_to<E>(
    found: FindingsModel,
    step: Step,
    entries: Vec<SnapshotEntry>,
)
    ensures
        match assessed(found, step, Reply::<E>::Entries(entries)) {
            Ok(after) => exists|p: int| #[trigger]
                newest(entries@, p) && after == (FindingsModel {
                    latest: Some(entries@[p].path),
                    ..found
                }),
            Err(verdict) => {
                ||| verdict == Verdict::<E>::Panicked(Fault::BeforeEpoch) && exists|i: int|
                    0 <= i < entries@.len() && (#[trigger] entries@[i]).modified is None
                ||| verdict == Verdict::<E>::Panicked(Fault::NoSnapshots) && forall|i: int|
                    0 <= i < entries@.len() ==> (#[trigger] entries@[i]).modified == Some(0u64)
            },
        },
{
    if all_dated(entries@) {
        law_when_there_is_a_latest(entries@);
        let p = latest_place(entries@);
        law_what_the_latest_is(entries@, p);
        if is_latest(entries@, p) {
            law_the_newest_snapshot_is_kept::<E>(found, step, entries, p);
        } else {
            assert forall|i: int| 0 <= i < entries@.len() implies (#[trigger] entries@[i]).modified
                == Some(0u64) by {
                assert(!(entries@[i].modified->0 > 0));
            }
        }
    }
}

/// A registration is the entry function that its payload calls, and an error if it calls none.
pub proof fn law_what_a_registration_is<E>(call: Option<ScriptFunction>)
    ensures
        call matches Some(entry) ==> entry_function_or_error::<E>(call) == Ok::<
            ScriptFunction,
            TwinError<E>,
        >(entry),
        call is None ==> entry_function_or_error::<E>(call) == Err::<ScriptFunction, TwinError<E>>(
            TwinError::NotAnEntryFunction,
        ),
{
}

} // verus!
