use diem_types::transaction::{
    ChangeSet, Module, Script, ScriptFunction, Transaction, TransactionPayload, WriteSetPayload,
};
use diem_types::waypoint::Waypoint;
use diem_types::write_set::WriteSet;
use move_core_types::account_address::AccountAddress;
use move_core_types::identifier::Identifier;
use move_core_types::language_storage::ModuleId;
use std::path::PathBuf;
use std::str::FromStr;
use twin::credentials::{credentials, CredentialFault, HexPart, Identity, ValCredentials};
use twin::errand::Errand;
use twin::findings::{read_blob, rescue_blob, Findings};
use twin::plan::{Fault, Node, NodeChanges, OnFailure, Reply, Task, TwinError, Verdict};
use twin::procedures::rescue_file;
use twin::snapshot::{latest_snapshot, SnapshotEntry};
use twin::twin::{expect_entry_function, Twin, TwinOpts, TwinSetup};

fn address() -> AccountAddress {
    AccountAddress::new([3; AccountAddress::LENGTH])
}

fn identity(key: &str) -> Identity {
    Identity {
        consensus_proof_of_possession: Some(vec![9, 9]),
        consensus_public_key: Some(key.to_string()),
    }
}

fn answers(key: &str, network: &str, fullnode: &str) -> Vec<Option<String>> {
    vec![
        Some(key.to_string()),
        Some(network.to_string()),
        Some(fullnode.to_string()),
    ]
}

fn registered() -> Vec<ValCredentials> {
    vec![ValCredentials {
        account: address(),
        consensus_pubkey: vec![1],
        proof_of_possession: vec![2],
        network_addresses: vec![3],
        fullnode_addresses: vec![4],
    }]
}

fn genesis() -> Transaction {
    let changes = ChangeSet::new(WriteSet::default(), vec![]);
    Transaction::GenesisTransaction(WriteSetPayload::Direct(changes))
}

fn changes() -> NodeChanges {
    NodeChanges {
        waypoint: Waypoint::from_str(&format!("7:{}", "0f".repeat(32))).unwrap(),
        identity_blob: PathBuf::from("/swarm/2/db/rescue.blob"),
        genesis: Some(genesis()),
        sync_only: true,
    }
}

fn entry(name: &str, modified: u64) -> SnapshotEntry {
    SnapshotEntry {
        path: PathBuf::from(name),
        modified: Some(modified),
    }
}

/// Reports replies to an errand until it has ended.
fn play(mut errand: Errand<String>, replies: Vec<Reply<String>>) -> Option<String> {
    for reply in replies {
        if errand.pending().is_none() {
            break;
        }
        assert!(errand.accepts(&reply));
        errand.report(reply);
    }
    errand.verdict().map(|v| format!("{:?}", v))
}

#[test]
fn credentials_of_a_registered_validator() {
    let found = credentials(
        address(),
        &identity("A1b2"),
        &answers("0xa1B2", "0x0102", "0x"),
    );
    assert_eq!(
        found,
        Ok(ValCredentials {
            account: address(),
            consensus_pubkey: vec![0xa1, 0xb2],
            proof_of_possession: vec![9, 9],
            network_addresses: vec![1, 2],
            fullnode_addresses: vec![],
        })
    );
}

#[test]
fn every_fault_of_credentials() {
    let good = answers("0xa1b2", "0x0102", "0x03");
    let mut no_proof = identity("a1b2");
    no_proof.consensus_proof_of_possession = None;
    assert_eq!(
        credentials(address(), &no_proof, &good),
        Err(CredentialFault::NoProof)
    );
    let mut no_key = identity("a1b2");
    no_key.consensus_public_key = None;
    assert_eq!(
        credentials(address(), &no_key, &good),
        Err(CredentialFault::NoConsensusKey)
    );
    let id = identity("a1b2");
    assert_eq!(
        credentials(address(), &id, &answers("a1b2", "0102", "03")),
        Err(CredentialFault::BadAnswer(1))
    );
    assert_eq!(
        credentials(address(), &id, &vec![None, Some("0x01".to_string()), None]),
        Err(CredentialFault::BadAnswer(2))
    );
    assert_eq!(
        credentials(address(), &id, &answers("a1b2", "0x01", "0x02")),
        Err(CredentialFault::BadAnswer(0))
    );
    assert_eq!(
        credentials(address(), &id, &vec![]),
        Err(CredentialFault::BadAnswer(1))
    );
    assert_eq!(
        credentials(address(), &id, &answers("0xa1b", "0x01", "0x02")),
        Err(CredentialFault::BadHex(HexPart::ChainKey))
    );
    assert_eq!(
        credentials(address(), &identity("0xa1b2"), &good),
        Err(CredentialFault::BadHex(HexPart::FileKey))
    );
    assert_eq!(
        credentials(address(), &id, &answers("0xa1b2", "0xg1", "0x02")),
        Err(CredentialFault::BadHex(HexPart::NetworkAddresses))
    );
    assert_eq!(
        credentials(address(), &id, &answers("0xa1b2", "0x01", "0x\u{e9}")),
        Err(CredentialFault::BadHex(HexPart::FullnodeAddresses))
    );
    assert_eq!(
        credentials(address(), &identity("a1b3"), &good),
        Err(CredentialFault::KeyMismatch)
    );
}

#[test]
fn the_first_of_the_latest_snapshots_counts() {
    assert_eq!(
        latest_snapshot(&vec![entry("a", 3), entry("b", 7), entry("c", 7), entry("d", 1)]),
        Ok(1)
    );
    assert_eq!(latest_snapshot(&vec![entry("a", 1)]), Ok(0));
}

#[test]
fn snapshots_that_do_not_count() {
    assert_eq!(latest_snapshot(&vec![]), Err(Fault::NoSnapshots));
    assert_eq!(
        latest_snapshot(&vec![entry("a", 0), entry("b", 0)]),
        Err(Fault::NoSnapshots)
    );
    let early = SnapshotEntry {
        path: PathBuf::from("c"),
        modified: None,
    };
    assert_eq!(
        latest_snapshot(&vec![entry("a", 5), early]),
        Err(Fault::BeforeEpoch)
    );
}

#[test]
fn a_rescue_blob_reads_back() {
    let changes = ChangeSet::new(WriteSet::default(), vec![]);
    let genesis = Transaction::GenesisTransaction(WriteSetPayload::Direct(changes.clone()));
    let bytes = rescue_blob(changes).unwrap();
    assert_eq!(bytes, vec![1, 0, 0, 0]);
    assert_eq!(read_blob(&bytes), Ok(genesis));
    assert_eq!(read_blob(&vec![1, 0, 0]), Err(bcs::Error::Eof));
    assert_eq!(read_blob(&vec![1, 0, 0, 0, 0]), Err(bcs::Error::RemainingInput));
}

#[test]
fn results_of_the_codec_are_kept_or_judged() {
    let mut found = Findings::new();
    let kept: Result<(), Verdict<String>> = found.take_blob(OnFailure::Return, Ok(vec![4]));
    assert_eq!(kept, Ok(()));
    assert_eq!(found.blob, Some(vec![4]));
    let lost: Result<(), Verdict<String>> =
        found.take_blob(OnFailure::Return, Err(bcs::Error::Eof));
    assert_eq!(lost, Err(Verdict::Returned(TwinError::Bcs(bcs::Error::Eof))));
    assert_eq!(found.blob, Some(vec![4]));
    let lost: Result<(), Verdict<String>> =
        found.take_genesis(OnFailure::Unwrap, Err(bcs::Error::Utf8));
    assert_eq!(
        lost,
        Err(Verdict::Unwrapped(TwinError::Bcs(bcs::Error::Utf8)))
    );
    assert_eq!(found.geneses, vec![]);
    let kept: Result<(), Verdict<String>> = found.take_genesis(OnFailure::Unwrap, Ok(genesis()));
    assert_eq!(kept, Ok(()));
    assert_eq!(found.geneses, vec![genesis()]);
}

#[test]
fn a_registration_calls_an_entry_function() {
    let call = ScriptFunction::new(
        ModuleId::new(address(), Identifier::new("validator_universe").unwrap()),
        Identifier::new("register_validator").unwrap(),
        vec![],
        vec![vec![1, 2]],
    );
    let payload: Result<TransactionPayload, String> =
        Ok(TransactionPayload::ScriptFunction(call.clone()));
    assert_eq!(Twin::register_marlon_tx(payload), Ok(call.clone()));
    let changes = ChangeSet::new(WriteSet::default(), vec![]);
    let others = vec![
        TransactionPayload::Script(Script::new(vec![1, 2], vec![], vec![])),
        TransactionPayload::Module(Module::new(vec![])),
        TransactionPayload::WriteSet(WriteSetPayload::Direct(changes)),
    ];
    for other in others {
        let encoded: Result<TransactionPayload, String> = Ok(other);
        assert_eq!(
            Twin::register_marlon_tx(encoded),
            Err(TwinError::NotAnEntryFunction)
        );
    }
    let failed: Result<TransactionPayload, String> = Err("no file".to_string());
    assert_eq!(
        Twin::register_marlon_tx(failed),
        Err(TwinError::Outside("no file".to_string()))
    );
    let none: Result<ScriptFunction, TwinError<String>> = expect_entry_function(None);
    assert_eq!(none, Err(TwinError::NotAnEntryFunction));
    let some: Result<ScriptFunction, TwinError<String>> =
        expect_entry_function(Some(call.clone()));
    assert_eq!(some, Ok(call));
}

#[test]
fn errors_in_words() {
    let none: TwinError<String> = TwinError::NoDeadline;
    assert_eq!(none.message(), Some("no deadline"));
    let none: TwinError<String> = TwinError::NoConnectivityDeadline;
    assert_eq!(none.message(), Some("can't get new deadline"));
    let none: TwinError<String> = TwinError::NotAnEntryFunction;
    assert_eq!(
        none.message(),
        Some("function did not return an entry function")
    );
    assert_eq!(TwinError::Outside("x".to_string()).message(), None);
}

#[test]
fn a_rescue_blob_with_one_validator() {
    let db = PathBuf::from("/data/db");
    let one = registered().remove(0);
    let mut errand: Errand<String> = Twin::recue_blob_with_one_val(&db, one);
    assert_eq!(errand.findings().credentials, registered());
    assert_eq!(errand.pending(), Some(&Task::AddValidators(db.clone())));
    errand.report(Reply::Done);
    assert_eq!(errand.pending(), Some(&Task::UnpackChangeSet));
    errand.report(Reply::Changes(ChangeSet::new(WriteSet::default(), vec![])));
    assert_eq!(errand.pending(), Some(&Task::WriteFile(rescue_file(&db))));
    assert_eq!(errand.findings().blob, Some(vec![1, 0, 0, 0]));
    errand.report(Reply::Done);
    assert_eq!(errand.verdict(), Some(&Verdict::Completed));
}

#[test]
fn a_database_is_copied_into_the_place_of_another() {
    let mut errand: Errand<String> = Twin::clone_db(
        &PathBuf::from("/p/mainnet-db"),
        &PathBuf::from("/s/0/db"),
    );
    let mut done = Vec::new();
    let replies = vec![
        Reply::Found(true),
        Reply::Found(true),
        Reply::Done,
        Reply::Done,
        Reply::Found(false),
        Reply::Done,
        Reply::Done,
    ];
    for reply in replies {
        done.push(format!("{:?}", errand.pending().unwrap()));
        errand.report(reply);
    }
    let expected = [
        "RequirePresent(\"/p/mainnet-db\")",
        "RequirePresent(\"/s/0/db\")",
        "CreateDir(\"/s/0/db-old\")",
        "MoveDir { from: \"/s/0/db\", to: \"/s/0/db-old\", \
         copying: CopySettings { overwrite: false, skip_exist: false } }",
        "RequireAbsent(\"/s/0/db\")",
        "CreateDir(\"/s/0/db\")",
        "CopyContents { from: \"/p/mainnet-db\", to: \"/s/0/db\", \
         copying: CopySettings { overwrite: false, skip_exist: false } }",
    ];
    assert_eq!(done, expected);
    assert_eq!(errand.verdict(), Some(&Verdict::Completed));
}

#[test]
fn when_a_database_is_replaced() {
    let prod = PathBuf::from("/root/.libra/db");
    let swarm = PathBuf::from("/swarm/0/db");
    let good = play(
        Twin::clone_db(&prod, &swarm),
        vec![
            Reply::Found(true),
            Reply::Found(true),
            Reply::Failed("exists".to_string()),
            Reply::Done,
            Reply::Found(false),
            Reply::Failed("exists".to_string()),
            Reply::Done,
        ],
    );
    assert_eq!(good, Some("Completed".to_string()));
    let missing = play(Twin::clone_db(&prod, &swarm), vec![Reply::Found(false)]);
    assert_eq!(missing, Some("Panicked(NotFound)".to_string()));
    let not_moved = play(
        Twin::clone_db(&prod, &swarm),
        vec![
            Reply::Found(true),
            Reply::Found(true),
            Reply::Done,
            Reply::Failed("busy".to_string()),
        ],
    );
    assert_eq!(not_moved, Some("Returned(Outside(\"busy\"))".to_string()));
    let still_there = play(
        Twin::clone_db(&prod, &swarm),
        vec![
            Reply::Found(true),
            Reply::Found(true),
            Reply::Done,
            Reply::Done,
            Reply::Found(true),
        ],
    );
    assert_eq!(still_there, Some("Panicked(StillThere)".to_string()));
}

#[test]
fn a_root_cannot_be_replaced() {
    let verdict = play(
        Twin::clone_db(&PathBuf::from("/db"), &PathBuf::from("/")),
        vec![Reply::Found(true), Reply::Found(true)],
    );
    assert_eq!(verdict, Some("Panicked(NoParent)".to_string()));
}

#[test]
fn when_a_wait_ends() {
    let good = play(
        Twin::wait_for_node(1, 4),
        vec![Reply::Done, Reply::Done, Reply::Done, Reply::Done],
    );
    assert_eq!(good, Some("Completed".to_string()));
    let no_deadline = play(Twin::wait_for_node(1, 4), vec![Reply::NoDeadline]);
    assert_eq!(no_deadline, Some("Returned(NoDeadline)".to_string()));
    let no_second = play(
        Twin::wait_for_node(1, 4),
        vec![Reply::Done, Reply::Done, Reply::NoDeadline],
    );
    assert_eq!(
        no_second,
        Some("Returned(NoConnectivityDeadline)".to_string())
    );
    let mut errand: Errand<String> = Twin::wait_for_node(1, 4);
    errand.report(Reply::Done);
    errand.report(Reply::Done);
    errand.report(Reply::Done);
    assert_eq!(
        errand.pending(),
        Some(&Task::AwaitConnectivity {
            node: 1,
            expected: 4,
        })
    );
}

#[test]
fn a_node_that_cannot_be_configured_is_not_started() {
    let mut errand: Errand<String> =
        Twin::update_node_config_restart(2, &PathBuf::from("/swarm/2/node.yaml"), changes());
    assert_eq!(errand.pending(), Some(&Task::StopNode(2)));
    errand.report(Reply::Done);
    assert_eq!(
        errand.pending(),
        Some(&Task::SaveConfig {
            node: 2,
            file: PathBuf::from("/swarm/2/node.yaml"),
            changes: changes(),
        })
    );
    errand.report(Reply::Failed("denied".to_string()));
    assert_eq!(errand.pending(), None);
    assert_eq!(
        errand.verdict(),
        Some(&Verdict::Returned(TwinError::Outside("denied".to_string())))
    );
}

#[test]
fn the_rescue_blob_lies_in_the_database() {
    let db = PathBuf::from("/swarm/0/db");
    let mut errand: Errand<String> = Twin::make_rescue_twin_blob(&db, registered());
    assert_eq!(errand.findings().credentials, registered());
    assert_eq!(
        errand.pending(),
        Some(&Task::AddValidators(PathBuf::from("/swarm/0/db")))
    );
    errand.report(Reply::Done);
    assert_eq!(errand.pending(), Some(&Task::UnpackChangeSet));
    errand.report(Reply::Changes(ChangeSet::new(WriteSet::default(), vec![])));
    assert_eq!(errand.findings().blob, Some(vec![1, 0, 0, 0]));
    assert_eq!(
        errand.pending(),
        Some(&Task::WriteFile(PathBuf::from("/swarm/0/db/rescue.blob")))
    );
    assert_eq!(rescue_file(&db), PathBuf::from("/swarm/0/db/rescue.blob"));
    errand.report(Reply::Done);
    assert_eq!(errand.verdict(), Some(&Verdict::Completed));
    assert_eq!(errand.into_verdict(), Some(Verdict::Completed));
}

#[test]
fn when_a_rescue_blob_is_not_made() {
    let db = PathBuf::from("/swarm/0/db");
    let unpacked = || Reply::Changes(ChangeSet::new(WriteSet::default(), vec![]));
    let no_session = play(
        Twin::make_rescue_twin_blob(&db, vec![]),
        vec![Reply::Failed("session".to_string())],
    );
    assert_eq!(no_session, Some("Returned(Outside(\"session\"))".to_string()));
    let no_changes = play(
        Twin::make_rescue_twin_blob(&db, vec![]),
        vec![Reply::Done, Reply::Failed("changes".to_string())],
    );
    assert_eq!(no_changes, Some("Returned(Outside(\"changes\"))".to_string()));
    let not_written = play(
        Twin::make_rescue_twin_blob(&db, vec![]),
        vec![Reply::Done, unpacked(), Reply::Failed("full".to_string())],
    );
    assert_eq!(not_written, Some("Returned(Outside(\"full\"))".to_string()));
}

#[test]
fn when_a_node_is_restarted() {
    let config = PathBuf::from("/swarm/2/node.yaml");
    let good = play(
        Twin::update_node_config_restart(2, &config, changes()),
        vec![Reply::Done, Reply::Done, Reply::Done],
    );
    assert_eq!(good, Some("Completed".to_string()));
    let not_started = play(
        Twin::update_node_config_restart(2, &config, changes()),
        vec![Reply::Done, Reply::Done, Reply::Failed("port".to_string())],
    );
    assert_eq!(not_started, Some("Returned(Outside(\"port\"))".to_string()));
}

#[test]
fn credentials_are_collected() {
    let node = Node {
        peer_id: address(),
        config_account: Some(address()),
        config_path: PathBuf::from("/swarm/0/node.yaml"),
        storage_dir: PathBuf::from("/swarm/0/db"),
    };
    let mut errand: Errand<String> = Twin::extract_credentials(0, &node);
    errand.report(Reply::Identity(identity("0a")));
    errand.report(Reply::Answers(answers("0x0A", "0x01", "0x02")));
    assert_eq!(errand.verdict(), Some(&Verdict::Completed));
    assert_eq!(errand.findings().credentials[0].consensus_pubkey, vec![10]);
    let mut errand: Errand<String> = Twin::extract_credentials(0, &node);
    errand.report(Reply::Identity(Identity {
        consensus_proof_of_possession: None,
        consensus_public_key: None,
    }));
    assert_eq!(
        errand.verdict(),
        Some(&Verdict::Panicked(Fault::Credential(CredentialFault::NoProof)))
    );
}

#[test]
fn the_options_make_the_twin() {
    let opts = TwinOpts {
        db_dir: PathBuf::from("/db"),
        oper_file: Some(PathBuf::from("/operator.yaml")),
        info: true,
        snapshot_path: None,
    };
    assert_eq!(
        opts.twin(),
        Twin {
            db_dir: PathBuf::from("/db"),
            oper_file: Some(PathBuf::from("/operator.yaml")),
            info: true,
            snapshot_path: None,
        }
    );
}

#[test]
fn a_second_replacement_leaves_the_first_backup() {
    let prod = PathBuf::from("/root/.libra/db");
    let mut errand: Errand<String> = Twin::clone_db(&prod, &PathBuf::from("/s/0/db"));
    errand.report(Reply::Found(true));
    errand.report(Reply::Found(true));
    errand.report(Reply::Failed("db-old is there".to_string()));
    match errand.pending() {
        Some(Task::MoveDir { to, copying, .. }) => {
            assert_eq!(to, &PathBuf::from("/s/0/db-old"));
            assert!(!copying.overwrite && !copying.skip_exist);
        }
        other => panic!("{:?}", other),
    }
    errand.report(Reply::Failed("a file is there".to_string()));
    assert_eq!(errand.pending(), None);
    assert_eq!(
        errand.verdict(),
        Some(&Verdict::Returned(TwinError::Outside(
            "a file is there".to_string()
        )))
    );
}
