//! What a run has found out so far, and what each reply adds to it or ends it with.
use crate::credentials::{
    credentials, credentials_of, CredentialFault, CredentialsModel, Identity, IdentityModel,
    ValCredentials,
};
use crate::outside::{decode, decoding, direct_genesis, encode, encoding, genesis_of, reads_back};
use crate::plan::{
    fits, Deadline, Fault, Node, OnFailure, Reply, Step, Task, TwinError, Verdict,
};
use crate::snapshot::{
    all_dated, is_latest, latest_place, latest_snapshot, SnapshotEntry,
};
use diem_types::transaction::{ChangeSet, Transaction};
use diem_types::waypoint::Waypoint;
use std::path::PathBuf;
use vstd::prelude::*;

verus! {

/// What a run has found out so far.
#[derive(Debug, PartialEq, Eq)]
pub struct Findings {
    /// Whether the archive of snapshots was there.
    pub archive_found: Option<bool>,
    /// The latest snapshot.
    pub latest: Option<PathBuf>,
    /// Whether a database was in the way of a restored one.
    pub db_found: Option<bool>,
    /// The directory that the run was started in.
    pub current_dir: Option<PathBuf>,
    /// The validators of the swarm.
    pub nodes: Vec<Node>,
    /// The key that the swarm's transactions are signed with.
    pub signing_key: Option<String>,
    /// Where the swarm's chain takes transactions.
    pub api_endpoint: Option<String>,
    /// The identity that was read last.
    pub identity: Option<Identity>,
    /// The credentials of the validators, in the order of the swarm.
    pub credentials: Vec<ValCredentials>,
    /// The bytes of the rescue transaction.
    pub blob: Option<Vec<u8>>,
    /// The waypoints of the committed bootstraps, in the order of the swarm.
    pub waypoints: Vec<Waypoint>,
    /// The genesis transactions that were read, in the order of the swarm.
    pub geneses: Vec<Transaction>,
    /// A directory for what is not kept.
    pub scratch: Option<PathBuf>,
    /// The balance of the recipient that was read last.
    pub balance: Option<u64>,
}

/// The contents of [`Findings`].
#[verifier::ext_equal]
pub struct FindingsModel {
    pub archive_found: Option<bool>,
    pub latest: Option<PathBuf>,
    pub db_found: Option<bool>,
    pub current_dir: Option<PathBuf>,
    pub nodes: Seq<Node>,
    pub signing_key: Option<String>,
    pub api_endpoint: Option<String>,
    pub identity: Option<IdentityModel>,
    pub credentials: Seq<CredentialsModel>,
    pub blob: Option<Seq<u8>>,
    pub waypoints: Seq<Waypoint>,
    pub geneses: Seq<Transaction>,
    pub scratch: Option<PathBuf>,
    pub balance: Option<u64>,
}

impl View for Findings {
    type V = FindingsModel;

    open spec fn view(&self) -> FindingsModel {
        FindingsModel {
            archive_found: self.archive_found,
            latest: self.latest,
            db_found: self.db_found,
            current_dir: self.current_dir,
            nodes: self.nodes@,
            signing_key: self.signing_key,
            api_endpoint: self.api_endpoint,
            identity: match self.identity {
                Some(identity) => Some(identity@),
                None => None,
            },
            credentials: self.credentials@.map_values(|found: ValCredentials| found@),
            blob: match self.blob {
                Some(blob) => Some(blob@),
                None => None,
            },
            waypoints: self.waypoints@,
            geneses: self.geneses@,
            scratch: self.scratch,
            balance: self.balance,
        }
    }
}

/// Nothing found out yet.
pub open spec fn nothing_found() -> FindingsModel {
    FindingsModel {
        archive_found: None,
        latest: None,
        db_found: None,
        current_dir: None,
        nodes: seq![],
        signing_key: None,
        api_endpoint: None,
        identity: None,
        credentials: seq![],
        blob: None,
        waypoints: seq![],
        geneses: seq![],
        scratch: None,
        balance: None,
    }
}

/// The credentials of some validators, and nothing else.
pub open spec fn only_credentials(credentials: Seq<ValCredentials>) -> FindingsModel {
    FindingsModel {
        credentials: credentials.map_values(|found: ValCredentials| found@),
        ..nothing_found()
    }
}

/// The error that a missing deadline is.
pub open spec fn missed<E>(task: Task) -> TwinError<E> {
    if task == Task::SetDeadline(Deadline::Connectivity) {
        TwinError::NoConnectivityDeadline
    } else {
        TwinError::NoDeadline
    }
}

/// What an error leads to: the findings stay as they are where the error does not matter.
pub open spec fn consequence<E>(
    found: FindingsModel,
    on_failure: OnFailure,
    error: TwinError<E>,
) -> Result<FindingsModel, Verdict<E>> {
    match on_failure {
        OnFailure::Return => Err(Verdict::Returned(error)),
        OnFailure::Unwrap => Err(Verdict::Unwrapped(error)),
        OnFailure::Abort => Err(Verdict::Aborted(error)),
        OnFailure::Ignore => Ok(found),
    }
}

/// The identity that was read last. One that was never read holds nothing.
pub open spec fn identity_or_none(identity: Option<IdentityModel>) -> IdentityModel {
    match identity {
        Some(identity) => identity,
        None => IdentityModel { proof: None, key: None },
    }
}

/// What the reply to a step leads to: more findings, or the end of the run.
pub open spec fn assessed<E>(found: FindingsModel, step: Step, reply: Reply<E>) -> Result<
    FindingsModel,
    Verdict<E>,
> {
    match reply {
        Reply::Done => Ok(found),
        Reply::Failed(error) => consequence(found, step.on_failure, TwinError::Outside(error)),
        Reply::NoDeadline => consequence(found, step.on_failure, missed(step.task)),
        Reply::Found(present) => match step.task {
            Task::LookForArchive(_) => Ok(
                FindingsModel { archive_found: Some(present), ..found },
            ),
            Task::LookForDatabase(_) => Ok(FindingsModel { db_found: Some(present), ..found }),
            Task::RequirePresent(_) => if present {
                Ok(found)
            } else {
                Err(Verdict::Panicked(Fault::NotFound))
            },
            Task::RequireManifest(_) => if present {
                Ok(found)
            } else {
                Err(Verdict::Panicked(Fault::NoManifest))
            },
            _ => if present {
                Err(Verdict::Panicked(Fault::StillThere))
            } else {
                Ok(found)
            },
        },
        Reply::Folder(dir) => if step.task is CurrentDir {
            Ok(FindingsModel { current_dir: Some(dir), ..found })
        } else {
            Ok(FindingsModel { scratch: Some(dir), ..found })
        },
        Reply::Swarm(swarm) => Ok(
            FindingsModel {
                nodes: swarm.nodes@,
                signing_key: Some(swarm.signing_key),
                api_endpoint: Some(swarm.api_endpoint),
                ..found
            },
        ),
        Reply::Identity(identity) => if identity@.proof is None {
            Err(Verdict::Panicked(Fault::Credential(CredentialFault::NoProof)))
        } else if identity@.key is None {
            Err(Verdict::Panicked(Fault::Credential(CredentialFault::NoConsensusKey)))
        } else {
            Ok(FindingsModel { identity: Some(identity@), ..found })
        },
        Reply::Answers(answers) => match credentials_of(
            step.task->QueryView_account,
            identity_or_none(found.identity),
            answers@,
        ) {
            Ok(credentials) => Ok(
                FindingsModel { credentials: found.credentials.push(credentials), ..found },
            ),
            Err(fault) => Err(Verdict::Panicked(Fault::Credential(fault))),
        },
        Reply::Changes(changes) => match encoding(genesis_of(changes)) {
            Ok(bytes) => Ok(FindingsModel { blob: Some(bytes), ..found }),
            Err(error) => consequence(found, step.on_failure, TwinError::Bcs(error)),
        },
        Reply::Bytes(bytes) => match decoding(bytes@) {
            Ok(genesis) => Ok(FindingsModel { geneses: found.geneses.push(genesis), ..found }),
            Err(error) => consequence(found, step.on_failure, TwinError::Bcs(error)),
        },
        Reply::Waypoint(waypoint) => if !step.task->Bootstrap_commit {
            Ok(found)
        } else {
            match waypoint {
                Some(waypoint) => Ok(
                    FindingsModel { waypoints: found.waypoints.push(waypoint), ..found },
                ),
                None => Err(Verdict::Panicked(Fault::NoWaypoint)),
            }
        },
        Reply::Balance(balance) => if found.balance is Some && balance <= found.balance->0 {
            Err(Verdict::Panicked(Fault::BalanceUnchanged))
        } else {
            Ok(FindingsModel { balance: Some(balance), ..found })
        },
        Reply::Entries(entries) => if !all_dated(entries@) {
            Err(Verdict::Panicked(Fault::BeforeEpoch))
        } else if !is_latest(entries@, latest_place(entries@)) {
            Err(Verdict::Panicked(Fault::NoSnapshots))
        } else {
            Ok(FindingsModel { latest: Some(entries@[latest_place(entries@)].path), ..found })
        },
    }
}

/// The bytes of the rescue blob that writes a change set: those of the genesis transaction that
/// applies it directly.
pub fn rescue_blob(changes: ChangeSet) -> (r: Result<Vec<u8>, bcs::Error>)
    ensures
        r matches Ok(bytes) ==> (encoding(genesis_of(changes)) matches Ok(named) && named
            == bytes@),
        r matches Err(error) ==> (encoding(genesis_of(changes)) matches Err(named) && named
            == error),
{
    encode(&direct_genesis(changes))
}

/// The genesis transaction in the bytes of a rescue blob. A blob that [`rescue_blob`] made reads
/// back as the transaction that it was made of.
pub fn read_blob(bytes: &Vec<u8>) -> (r: Result<Transaction, bcs::Error>)
    ensures
        r == decoding(bytes@),
        reads_back(bytes@, r),
{
    decode(bytes)
}

/// The latest of some snapshots.
fn latest_path(entries: Vec<SnapshotEntry>) -> (r: Result<PathBuf, Fault>)
    ensures
        match r {
            Ok(path) => all_dated(entries@) && is_latest(entries@, latest_place(entries@)) && path
                == entries@[latest_place(entries@)].path,
            Err(Fault::BeforeEpoch) => !all_dated(entries@),
            Err(fault) => fault == Fault::NoSnapshots && all_dated(entries@) && !is_latest(
                entries@,
                latest_place(entries@),
            ),
        },
{
    let place = latest_snapshot(&entries)?;
    Ok(entries[place].path.clone())
}

/// What an error leads to.
fn judge<E>(on_failure: OnFailure, error: TwinError<E>) -> (r: Result<(), Verdict<E>>)
    ensures
        forall|found: FindingsModel|
            match r {
                Ok(_) => (#[trigger] consequence(found, on_failure, error)) == Ok::<
                    FindingsModel,
                    Verdict<E>,
                >(found),
                Err(verdict) => consequence(found, on_failure, error) == Err::<
                    FindingsModel,
                    Verdict<E>,
                >(verdict),
            },
{
    match on_failure {
        OnFailure::Return => Err(Verdict::Returned(error)),
        OnFailure::Unwrap => Err(Verdict::Unwrapped(error)),
        OnFailure::Abort => Err(Verdict::Aborted(error)),
        OnFailure::Ignore => Ok(()),
    }
}

impl Findings {
    /// Nothing found out yet.
    pub fn new() -> (r: Findings)
        ensures
            r@ == nothing_found(),
    {
        let r = Findings {
            archive_found: None,
            latest: None,
            db_found: None,
            current_dir: None,
            nodes: Vec::new(),
            signing_key: None,
            api_endpoint: None,
            identity: None,
            credentials: Vec::new(),
            blob: None,
            waypoints: Vec::new(),
            geneses: Vec::new(),
            scratch: None,
            balance: None,
        };
        assert(r@ =~= nothing_found());
        r
    }

    /// The credentials of some validators, and nothing else.
    pub(crate) fn of_credentials(credentials: Vec<ValCredentials>) -> (r: Findings)
        ensures
            r@ == only_credentials(credentials@),
    {
        let mut r = Findings::new();
        r.credentials = credentials;
        r
    }

    /// Keeps the bytes of the rescue transaction, or says how the failure to encode it ends the
    /// run.
    pub fn take_blob<E>(
        &mut self,
        on_failure: OnFailure,
        encoded: Result<Vec<u8>, bcs::Error>,
    ) -> (r: Result<(), Verdict<E>>)
        ensures
            ({
                let outcome = match encoded {
                    Ok(bytes) => Ok(FindingsModel { blob: Some(bytes@), ..old(self)@ }),
                    Err(error) => consequence::<E>(old(self)@, on_failure, TwinError::Bcs(error)),
                };
                match r {
                    Ok(_) => outcome == Ok::<FindingsModel, Verdict<E>>(final(self)@),
                    Err(verdict) => *final(self) == *old(self) && outcome == Err::<
                        FindingsModel,
                        Verdict<E>,
                    >(verdict),
                }
            }),
    {
        match encoded {
            Ok(bytes) => {
                self.blob = Some(bytes);
                Ok(())
            },
            Err(error) => judge(on_failure, TwinError::Bcs(error)),
        }
    }

    /// Keeps the genesis transaction that was read, or says how the failure to decode it ends
    /// the run.
    pub fn take_genesis<E>(
        &mut self,
        on_failure: OnFailure,
        decoded: Result<Transaction, bcs::Error>,
    ) -> (r: Result<(), Verdict<E>>)
        ensures
            ({
                let outcome = match decoded {
                    Ok(genesis) => Ok(
                        FindingsModel { geneses: old(self)@.geneses.push(genesis), ..old(self)@ },
                    ),
                    Err(error) => consequence::<E>(old(self)@, on_failure, TwinError::Bcs(error)),
                };
                match r {
                    Ok(_) => outcome == Ok::<FindingsModel, Verdict<E>>(final(self)@),
                    Err(verdict) => *final(self) == *old(self) && outcome == Err::<
                        FindingsModel,
                        Verdict<E>,
                    >(verdict),
                }
            }),
    {
        match decoded {
            Ok(genesis) => {
                self.geneses.push(genesis);
                Ok(())
            },
            Err(error) => judge(on_failure, TwinError::Bcs(error)),
        }
    }

    /// Adds what the reply to a step tells, or says how it ends the run.
    pub(crate) fn assess<E>(&mut self, step: &Step, reply: Reply<E>) -> (r: Result<(), Verdict<E>>)
        requires
            fits(step.task, reply),
        ensures
            match r {
                Ok(_) => assessed(old(self)@, *step, reply) == Ok::<FindingsModel, Verdict<E>>(
                    final(self)@,
                ),
                Err(verdict) => *final(self) == *old(self) && assessed(old(self)@, *step, reply)
                    == Err::<FindingsModel, Verdict<E>>(verdict),
            },
    {
        let ghost before = self@;
        match reply {
            Reply::Done => {},
            Reply::Failed(error) => {
                return judge(step.on_failure, TwinError::Outside(error));
            },
            Reply::NoDeadline => {
                let error = match &step.task {
                    Task::SetDeadline(Deadline::Connectivity) => TwinError::NoConnectivityDeadline,
                    _ => TwinError::NoDeadline,
                };
                return judge(step.on_failure, error);
            },
            Reply::Found(present) => match &step.task {
                Task::LookForArchive(_) => {
                    self.archive_found = Some(present);
                },
                Task::LookForDatabase(_) => {
                    self.db_found = Some(present);
                },
                Task::RequirePresent(_) => {
                    if !present {
                        return Err(Verdict::Panicked(Fault::NotFound));
                    }
                },
                Task::RequireManifest(_) => {
                    if !present {
                        return Err(Verdict::Panicked(Fault::NoManifest));
                    }
                },
                _ => {
                    if present {
                        return Err(Verdict::Panicked(Fault::StillThere));
                    }
                },
            },
            Reply::Folder(dir) => match &step.task {
                Task::CurrentDir => {
                    self.current_dir = Some(dir);
                },
                _ => {
                    self.scratch = Some(dir);
                },
            },
            Reply::Swarm(swarm) => {
                self.nodes = swarm.nodes;
                self.signing_key = Some(swarm.signing_key);
                self.api_endpoint = Some(swarm.api_endpoint);
            },
            Reply::Identity(identity) => {
                if identity.consensus_proof_of_possession.is_none() {
                    return Err(Verdict::Panicked(Fault::Credential(CredentialFault::NoProof)));
                }
                if identity.consensus_public_key.is_none() {
                    return Err(
                        Verdict::Panicked(Fault::Credential(CredentialFault::NoConsensusKey)),
                    );
                }
                self.identity = Some(identity);
            },
            Reply::Answers(answers) => {
                if let Task::QueryView { account, .. } = &step.task {
                    match &self.identity {
                        Some(identity) => match credentials(*account, identity, &answers) {
                            Ok(found) => {
                                self.credentials.push(found);
                                assert(self@.credentials =~= before.credentials.push(found@));
                            },
                            Err(fault) => {
                                return Err(Verdict::Panicked(Fault::Credential(fault)));
                            },
                        },
                        None => {
                            return Err(
                                Verdict::Panicked(Fault::Credential(CredentialFault::NoProof)),
                            );
                        },
                    }
                }
            },
            Reply::Changes(changes) => {
                return self.take_blob(step.on_failure, rescue_blob(changes));
            },
            Reply::Bytes(bytes) => {
                return self.take_genesis(step.on_failure, read_blob(&bytes));
            },
            Reply::Waypoint(waypoint) => {
                if let Task::Bootstrap { commit: true, .. } = &step.task {
                    match waypoint {
                        Some(waypoint) => {
                            self.waypoints.push(waypoint);
                        },
                        None => {
                            return Err(Verdict::Panicked(Fault::NoWaypoint));
                        },
                    }
                }
            },
            Reply::Balance(balance) => {
                if let Some(before_transfer) = self.balance {
                    if balance <= before_transfer {
                        return Err(Verdict::Panicked(Fault::BalanceUnchanged));
                    }
                }
                self.balance = Some(balance);
            },
            Reply::Entries(entries) => match latest_path(entries) {
                Ok(path) => {
                    self.latest = Some(path);
                },
                Err(fault) => {
                    return Err(Verdict::Panicked(fault));
                },
            },
        }
        assert(assessed(before, *step, reply) matches Ok(after) && after =~= self@);
        Ok(())
    }
}

} // verus!
