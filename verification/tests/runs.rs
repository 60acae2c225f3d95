use diem_types::transaction::{ChangeSet, Script, Transaction, WriteSetPayload};
use diem_types::waypoint::Waypoint;
use diem_types::write_set::WriteSet;
use move_core_types::account_address::AccountAddress;
use std::path::PathBuf;
use std::str::FromStr;
use twin::credentials::{CredentialFault, Identity};
use twin::plan::{
    Deadline, Fault, Node, NodeChanges, Reply, SwarmInfo, Task, TransferSettings, TwinError, Verdict,
};
use twin::session::Session;
use twin::snapshot::SnapshotEntry;
use twin::stages::Stage;
use twin::twin::{Twin, TwinOpts, TwinSetup};

const DB: &str = "/root/.libra/db";
const KEY: &str = "a1b2c3";

fn address(i: u8) -> AccountAddress {
    AccountAddress::new([i; AccountAddress::LENGTH])
}

fn waypoint(i: usize) -> Waypoint {
    Waypoint::from_str(&format!("{}:{}", i, "0f".repeat(32))).unwrap()
}

fn node(i: u8) -> Node {
    Node {
        peer_id: address(i),
        config_account: Some(address(i)),
        config_path: PathBuf::from(format!("/swarm/{}/node.yaml", i)),
        storage_dir: PathBuf::from(format!("/swarm/{}/db", i)),
    }
}

fn swarm(nodes: Vec<Node>) -> SwarmInfo {
    SwarmInfo {
        nodes,
        signing_key: "0xkey".to_string(),
        api_endpoint: "http://localhost:8080".to_string(),
    }
}

fn changes() -> ChangeSet {
    ChangeSet::new(WriteSet::default(), vec![])
}

fn genesis() -> Transaction {
    Transaction::GenesisTransaction(WriteSetPayload::Direct(changes()))
}

fn other_genesis() -> Transaction {
    Transaction::GenesisTransaction(WriteSetPayload::Script {
        execute_as: address(9),
        script: Script::new(vec![1, 2, 3], vec![], vec![]),
    })
}

fn answers(key: &str) -> Vec<Option<String>> {
    vec![
        Some(format!("0x{}", key)),
        Some("0x01ff".to_string()),
        Some("0x02".to_string()),
    ]
}

/// Everything goes well, on a swarm of some validators.
fn good_reply(task: &Task, validators: u8, balance: &mut u64) -> Reply<String> {
    match task {
        Task::LookForArchive(_) | Task::LookForDatabase(_) => Reply::Found(true),
        Task::RequirePresent(_) | Task::RequireManifest(_) => Reply::Found(true),
        Task::RequireAbsent(_) => Reply::Found(false),
        Task::CurrentDir => Reply::Folder(PathBuf::from("/work")),
        Task::ScratchDir => Reply::Folder(PathBuf::from("/tmp/scratch")),
        Task::StartSwarm { .. } => Reply::Swarm(swarm((0..validators).map(node).collect())),
        Task::ReadIdentity { .. } => Reply::Identity(Identity {
            consensus_proof_of_possession: Some(vec![7, 8]),
            consensus_public_key: Some(KEY.to_string()),
        }),
        Task::QueryView { .. } => Reply::Answers(answers(KEY)),
        Task::UnpackChangeSet => Reply::Changes(changes()),
        Task::ReadFile(_) => Reply::Bytes(bcs::to_bytes(&genesis()).unwrap()),
        Task::Bootstrap { .. } => Reply::Waypoint(Some(waypoint(5))),
        Task::ReadBalance(_) => {
            *balance += 10;
            Reply::Balance(*balance)
        }
        Task::ListSnapshots(_) => Reply::Entries(vec![
            SnapshotEntry {
                path: PathBuf::from("snapshots/old"),
                modified: Some(10),
            },
            SnapshotEntry {
                path: PathBuf::from("snapshots/new"),
                modified: Some(20),
            },
        ]),
        _ => Reply::Done,
    }
}

/// Lets a session go on with good replies until a task of some kind is pending, or to its end.
/// Gives what was done.
fn go_on(
    session: &mut Session<String>,
    validators: u8,
    stop: fn(&Task) -> bool,
) -> Vec<String> {
    let mut done = Vec::new();
    let mut balance: u64 = 0;
    loop {
        let reply = match session.pending() {
            Some(task) => {
                if stop(task) {
                    return done;
                }
                done.push(format!("{:?}", task));
                good_reply(task, validators, &mut balance)
            }
            None => return done,
        };
        assert!(session.accepts(&reply));
        session.report(reply);
    }
}

fn never(_: &Task) -> bool {
    false
}

#[test]
fn test_twin_cl() {
    //use any db
    let prod_db_to_clone = PathBuf::from("/root/.libra/db");
    let twin = TwinOpts {
        db_dir: prod_db_to_clone,
        oper_file: None,
        info: false,
        snapshot_path: None,
    };
    let mut run: Session<String> = twin.run();
    assert_eq!(run.stage(), Stage::Locate);
    assert_eq!(run.pending(), Some(&Task::CurrentDir));
    run.report(Reply::Folder(PathBuf::from("/work")));
    assert_eq!(
        run.pending(),
        Some(&Task::StartSwarm {
            validators: 3,
            binary: Some(PathBuf::from("/work/tests/diem-proxy")),
        })
    );
    let done = go_on(&mut run, 3, never);
    assert_eq!(done.last().map(|t| t.as_str()), Some("Park"));
    assert_eq!(run.verdict(), Some(&Verdict::Completed));
}

#[test]
fn test_twin_random() {
    //use any db
    let prod_db_to_clone = PathBuf::from("/root/.libra/db");
    let mut upgrade: Session<String> = Twin::apply_with_rando_e2e(prod_db_to_clone, 3);
    let done = go_on(&mut upgrade, 3, never);
    assert_eq!(upgrade.verdict(), Some(&Verdict::Completed));
    assert_eq!(done.len(), 24 * 3 + 11);
    assert_eq!(upgrade.findings().waypoints.len(), 3);
    assert_eq!(upgrade.findings().credentials.len(), 3);
}

#[test]
fn a_take_over_of_two_validators_step_by_step() {
    let mut session: Session<String> = Twin::apply_with_rando_e2e(PathBuf::from(DB), 2);
    go_on(&mut session, 2, |t| matches!(t, Task::ReadIdentity { .. }));
    assert_eq!(
        session.pending(),
        Some(&Task::ReadIdentity {
            node: 0,
            file: PathBuf::from("/swarm/0/public-identity.yaml"),
        })
    );
    go_on(&mut session, 2, |t| matches!(t, Task::QueryView { node: 1, .. }));
    assert_eq!(
        session.pending(),
        Some(&Task::QueryView {
            node: 1,
            function: "0x1::stake::get_validator_config",
            account: address(1),
        })
    );
    go_on(&mut session, 2, |t| matches!(t, Task::AddValidators(_)));
    assert_eq!(
        session.pending(),
        Some(&Task::AddValidators(PathBuf::from("/swarm/0/db")))
    );
    assert_eq!(session.findings().credentials.len(), 2);
    assert_eq!(session.findings().credentials[0].account, address(0));
    assert_eq!(session.findings().credentials[1].account, address(1));
    assert_eq!(
        session.findings().credentials[1].consensus_pubkey,
        vec![0xa1, 0xb2, 0xc3]
    );
    go_on(&mut session, 2, |t| matches!(t, Task::WriteFile(_)));
    assert_eq!(
        session.pending(),
        Some(&Task::WriteFile(PathBuf::from("/swarm/0/db/rescue.blob")))
    );
    assert_eq!(
        session.findings().blob,
        Some(bcs::to_bytes(&genesis()).unwrap())
    );
    go_on(&mut session, 2, |t| matches!(t, Task::CopyFile { .. }));
    assert_eq!(
        session.pending(),
        Some(&Task::CopyFile {
            from: PathBuf::from("/swarm/0/db/rescue.blob"),
            to: PathBuf::from("/swarm/1/db/rescue.blob"),
        })
    );
    session.report(Reply::Done);
    // each database: a try, a pause, and for good
    for i in 0..2usize {
        let db = PathBuf::from(format!("/swarm/{}/db", i));
        let genesis = PathBuf::from(format!("/swarm/{}/db/rescue.blob", i));
        assert_eq!(
            session.pending(),
            Some(&Task::Bootstrap {
                db: db.clone(),
                genesis: genesis.clone(),
                commit: false,
                waypoint_to_verify: None,
                info: false,
            })
        );
        session.report(Reply::Waypoint(None));
        assert_eq!(session.pending(), Some(&Task::Pause { seconds: 10 }));
        session.report(Reply::Done);
        assert_eq!(
            session.pending(),
            Some(&Task::Bootstrap {
                db,
                genesis,
                commit: true,
                waypoint_to_verify: None,
                info: false,
            })
        );
        session.report(Reply::Waypoint(Some(waypoint(i))));
    }
    assert_eq!(session.findings().waypoints, vec![waypoint(0), waypoint(1)]);
    // each validator gets what is read from its own blob
    let read = [genesis(), other_genesis()];
    for i in 0..2usize {
        let blob = PathBuf::from(format!("/swarm/{}/db/rescue.blob", i));
        assert_eq!(session.pending(), Some(&Task::ReadFile(blob.clone())));
        session.report(Reply::Bytes(bcs::to_bytes(&read[i]).unwrap()));
        assert_eq!(session.findings().geneses, read[..i + 1]);
        assert_eq!(session.pending(), Some(&Task::StopNode(i)));
        session.report(Reply::Done);
        assert_eq!(
            session.pending(),
            Some(&Task::SaveConfig {
                node: i,
                file: PathBuf::from(format!("/swarm/{}/node.yaml", i)),
                changes: NodeChanges {
                    waypoint: waypoint(i),
                    identity_blob: blob,
                    genesis: Some(read[i].clone()),
                    sync_only: false,
                },
            })
        );
        session.report(Reply::Done);
        assert_eq!(session.pending(), Some(&Task::StartNode(i)));
        session.report(Reply::Done);
        assert_eq!(
            session.pending(),
            Some(&Task::SetDeadline(Deadline::Healthy))
        );
        session.report(Reply::Done);
        assert_eq!(session.pending(), Some(&Task::AwaitHealthy(i)));
        session.report(Reply::Done);
        assert_eq!(
            session.pending(),
            Some(&Task::SetDeadline(Deadline::Connectivity))
        );
        session.report(Reply::Done);
        assert_eq!(
            session.pending(),
            Some(&Task::AwaitConnectivity {
                node: i,
                expected: i,
            })
        );
        session.report(Reply::Done);
    }
    assert_eq!(
        session.pending(),
        Some(&Task::SetDeadline(Deadline::Seconds(10)))
    );
    session.report(Reply::Done);
    // the outcome of the check does not matter
    assert_eq!(session.pending(), Some(&Task::CheckLiveness));
    session.report(Reply::Failed("not live".to_string()));
    assert_eq!(session.pending(), Some(&Task::ScratchDir));
    session.report(Reply::Folder(PathBuf::from("/tmp/s")));
    assert_eq!(
        session.pending(),
        Some(&Task::InitValidatorConfig {
            node: 0,
            dir: PathBuf::from("/tmp/s"),
        })
    );
    session.report(Reply::Done);
    assert_eq!(session.pending(), Some(&Task::ReadBalance(address(1))));
    session.report(Reply::Balance(41));
    assert_eq!(
        session.pending(),
        Some(&Task::SendTransfer {
            recipient: address(1),
            coins: 1,
            config: PathBuf::from("/tmp/s/libra-cli-config.yaml"),
            sending: TransferSettings {
                signing_key: "0xkey".to_string(),
                url: "http://localhost:8080".to_string(),
                estimate_only: false,
                legacy_address: false,
            },
        })
    );
    session.report(Reply::Done);
    assert_eq!(session.pending(), Some(&Task::ReadBalance(address(1))));
    session.report(Reply::Balance(42));
    assert_eq!(session.verdict(), Some(&Verdict::Completed));
    assert_eq!(session.pending(), None);
}

#[test]
fn databases_are_replaced_after_every_node_is_stopped() {
    let mut session: Session<String> = Twin::apply_with_rando_e2e(PathBuf::from(DB), 2);
    go_on(&mut session, 2, |t| matches!(t, Task::StopNode(_)));
    assert_eq!(session.stage(), Stage::Replace);
    let done = go_on(&mut session, 2, |t| matches!(t, Task::AddValidators(_)));
    let expected = [
        "StopNode(0)",
        "ClearStorage(0)",
        "StopNode(1)",
        "ClearStorage(1)",
        "RequirePresent(\"/root/.libra/db\")",
        "RequirePresent(\"/swarm/0/db\")",
        "CreateDir(\"/swarm/0/db-old\")",
        "MoveDir { from: \"/swarm/0/db\", to: \"/swarm/0/db-old\", \
         copying: CopySettings { overwrite: false, skip_exist: false } }",
        "RequireAbsent(\"/swarm/0/db\")",
        "CreateDir(\"/swarm/0/db\")",
        "CopyContents { from: \"/root/.libra/db\", to: \"/swarm/0/db\", \
         copying: CopySettings { overwrite: false, skip_exist: false } }",
        "RequirePresent(\"/root/.libra/db\")",
        "RequirePresent(\"/swarm/1/db\")",
        "CreateDir(\"/swarm/1/db-old\")",
        "MoveDir { from: \"/swarm/1/db\", to: \"/swarm/1/db-old\", \
         copying: CopySettings { overwrite: false, skip_exist: false } }",
        "RequireAbsent(\"/swarm/1/db\")",
        "CreateDir(\"/swarm/1/db\")",
        "CopyContents { from: \"/root/.libra/db\", to: \"/swarm/1/db\", \
         copying: CopySettings { overwrite: false, skip_exist: false } }",
        "RequirePresent(\"/swarm/0/db\")",
        "RequirePresent(\"/swarm/1/db\")",
    ];
    assert_eq!(done, expected);
}

#[test]
fn a_failed_copy_is_a_panic_of_the_take_over() {
    let mut session: Session<String> = Twin::apply_with_rando_e2e(PathBuf::from(DB), 2);
    go_on(&mut session, 2, |t| matches!(t, Task::CopyContents { .. }));
    session.report(Reply::Failed("disk full".to_string()));
    assert_eq!(
        session.verdict(),
        Some(&Verdict::Unwrapped(TwinError::Outside(
            "disk full".to_string()
        )))
    );
    assert_eq!(
        session.into_verdict(),
        Some(Verdict::Unwrapped(TwinError::Outside(
            "disk full".to_string()
        )))
    );
}

#[test]
fn an_error_of_the_take_over_is_returned() {
    let mut session: Session<String> = Twin::apply_with_rando_e2e(PathBuf::from(DB), 2);
    go_on(&mut session, 2, |t| matches!(t, Task::StartSwarm { .. }));
    session.report(Reply::Failed("no binary".to_string()));
    assert_eq!(
        session.verdict(),
        Some(&Verdict::Returned(TwinError::Outside(
            "no binary".to_string()
        )))
    );
    assert_eq!(session.pending(), None);
}

#[test]
fn a_run_parks_after_an_error_of_the_take_over() {
    let opts = TwinOpts {
        db_dir: PathBuf::from(DB),
        oper_file: None,
        info: false,
        snapshot_path: None,
    };
    let mut session: Session<String> = opts.run();
    go_on(&mut session, 3, |t| matches!(t, Task::AwaitConnectivity { .. }));
    session.report(Reply::Failed("alone".to_string()));
    assert_eq!(session.verdict(), None);
    assert_eq!(session.stage(), Stage::Park);
    assert_eq!(session.pending(), Some(&Task::Park));
    session.report(Reply::Done);
    assert_eq!(session.verdict(), Some(&Verdict::Completed));
}

#[test]
fn a_panic_of_the_take_over_ends_the_run() {
    let opts = TwinOpts {
        db_dir: PathBuf::from(DB),
        oper_file: None,
        info: false,
        snapshot_path: None,
    };
    let mut session: Session<String> = opts.run();
    go_on(&mut session, 3, |t| matches!(t, Task::Bootstrap { commit: true, .. }));
    session.report(Reply::Waypoint(None));
    assert_eq!(session.verdict(), Some(&Verdict::Panicked(Fault::NoWaypoint)));
}

#[test]
fn an_unhealthy_node_aborts() {
    let mut session: Session<String> = Twin::apply_with_rando_e2e(PathBuf::from(DB), 2);
    go_on(&mut session, 2, |t| matches!(t, Task::AwaitHealthy(_)));
    session.report(Reply::Failed("sick".to_string()));
    assert_eq!(
        session.verdict(),
        Some(&Verdict::Aborted(TwinError::Outside("sick".to_string())))
    );
}

#[test]
fn a_transfer_must_raise_the_balance() {
    let mut session: Session<String> = Twin::apply_with_rando_e2e(PathBuf::from(DB), 2);
    go_on(&mut session, 2, |t| matches!(t, Task::ReadBalance(_)));
    session.report(Reply::Balance(5));
    session.report(Reply::Done);
    session.report(Reply::Balance(5));
    assert_eq!(
        session.verdict(),
        Some(&Verdict::Panicked(Fault::BalanceUnchanged))
    );
}

#[test]
fn a_swarm_without_validators_cannot_be_rescued() {
    let mut session: Session<String> = Twin::apply_with_rando_e2e(PathBuf::from(DB), 0);
    go_on(&mut session, 0, never);
    assert_eq!(session.stage(), Stage::Rescue);
    assert_eq!(
        session.verdict(),
        Some(&Verdict::Panicked(Fault::NoValidators))
    );
}

#[test]
fn a_single_validator_has_nobody_to_pay() {
    let mut session: Session<String> = Twin::apply_with_rando_e2e(PathBuf::from(DB), 1);
    let done = go_on(&mut session, 1, never);
    assert_eq!(
        done.last().map(|t| t.as_str()),
        Some("InitValidatorConfig { node: 0, dir: \"/tmp/scratch\" }")
    );
    assert_eq!(
        session.verdict(),
        Some(&Verdict::Panicked(Fault::NoRecipient))
    );
}

#[test]
fn keys_that_differ_end_the_run() {
    let mut session: Session<String> = Twin::apply_with_rando_e2e(PathBuf::from(DB), 2);
    go_on(&mut session, 2, |t| matches!(t, Task::QueryView { .. }));
    session.report(Reply::Answers(answers("a1b2c4")));
    assert_eq!(
        session.verdict(),
        Some(&Verdict::Panicked(Fault::Credential(
            CredentialFault::KeyMismatch
        )))
    );
}

#[test]
fn a_node_without_an_account_or_a_directory_ends_the_run() {
    let mut session: Session<String> = Twin::apply_with_rando_e2e(PathBuf::from(DB), 2);
    go_on(&mut session, 2, |t| matches!(t, Task::StartSwarm { .. }));
    let mut second = node(1);
    second.config_account = None;
    session.report(Reply::Swarm(swarm(vec![node(0), second])));
    let done = go_on(&mut session, 2, never);
    assert_eq!(done.len(), 2);
    assert_eq!(session.verdict(), Some(&Verdict::Panicked(Fault::NoAccount)));

    let mut session: Session<String> = Twin::apply_with_rando_e2e(PathBuf::from(DB), 1);
    go_on(&mut session, 1, |t| matches!(t, Task::StartSwarm { .. }));
    let mut first = node(0);
    first.config_path = PathBuf::from("/");
    session.report(Reply::Swarm(swarm(vec![first])));
    assert_eq!(session.verdict(), Some(&Verdict::Panicked(Fault::NoParent)));
}

#[test]
fn a_genesis_that_cannot_be_read_is_a_panic() {
    let mut session: Session<String> = Twin::apply_with_rando_e2e(PathBuf::from(DB), 2);
    go_on(&mut session, 2, |t| matches!(t, Task::ReadFile(_)));
    session.report(Reply::Bytes(vec![]));
    assert_eq!(
        session.verdict(),
        Some(&Verdict::Unwrapped(TwinError::Bcs(bcs::Error::Eof)))
    );
}

#[test]
fn the_first_missing_deadlines() {
    let mut session: Session<String> = Twin::apply_with_rando_e2e(PathBuf::from(DB), 2);
    go_on(&mut session, 2, |t| {
        matches!(t, Task::SetDeadline(Deadline::Connectivity))
    });
    session.report(Reply::NoDeadline);
    assert_eq!(
        session.verdict(),
        Some(&Verdict::Returned(TwinError::NoConnectivityDeadline))
    );
    let mut session: Session<String> = Twin::apply_with_rando_e2e(PathBuf::from(DB), 2);
    go_on(&mut session, 2, |t| {
        matches!(t, Task::SetDeadline(Deadline::Seconds(_)))
    });
    session.report(Reply::NoDeadline);
    assert_eq!(
        session.verdict(),
        Some(&Verdict::Unwrapped(TwinError::NoDeadline))
    );
}

#[test]
fn an_archive_that_is_there_is_brought_up_to_date() {
    let mut session: Session<String> = Twin::load_snapshot_into_db(
        &PathBuf::from("/anywhere"),
        &PathBuf::from("/data/db"),
    );
    let done = go_on(&mut session, 0, never);
    let expected = [
        "LookForArchive(\"snapshots\")",
        "OpenRepository(\"snapshots\")",
        "FindRemote(\"origin\")",
        "Fetch(\"refs/heads/v7.0.0\")",
        "ListSnapshots(\"snapshots\")",
        "RequireManifest(\"snapshots/new/epoch_ending.manifest\")",
        "LookForDatabase(\"/data/db\")",
        "RemoveDirAll(\"/data/db\")",
        "CreateDirAll(\"/data/db\")",
        "OpenDatabase { db: \"/data/db\", options: OpenSettings { readonly: false, \
         enable_indexer: false, buffered_state_target_items: 0, max_nodes_per_cache_shard: 0 } }",
        "RestoreSnapshot { manifest: \"snapshots/new/epoch_ending.manifest\", \
         storage: \"snapshots/new\", settings: RestoreSettings { version: 0, \
         validate_modules: false, target_version: 0, concurrent_downloads: 4, \
         replay_concurrency_level: 0 } }",
    ];
    assert_eq!(done, expected);
    assert_eq!(session.verdict(), Some(&Verdict::Completed));
}

#[test]
fn an_archive_that_is_not_there_is_cloned() {
    let mut session: Session<String> = Twin::load_snapshot_into_db(
        &PathBuf::from("/anywhere"),
        &PathBuf::from("/data/db"),
    );
    session.report(Reply::Found(false));
    assert_eq!(
        session.pending(),
        Some(&Task::CloneRepository {
            url: "https://github.com/0LNetworkCommunity/epoch-archive-mainnet.git",
            into: PathBuf::from("snapshots"),
        })
    );
    session.report(Reply::Done);
    go_on(&mut session, 0, |t| matches!(t, Task::LookForDatabase(_)));
    session.report(Reply::Found(false));
    assert_eq!(
        session.pending(),
        Some(&Task::CreateDirAll(PathBuf::from("/data/db")))
    );
    session.report(Reply::Failed("read only".to_string()));
    assert_eq!(
        session.verdict(),
        Some(&Verdict::Unwrapped(TwinError::Outside(
            "read only".to_string()
        )))
    );
}

#[test]
fn a_snapshot_without_a_manifest_is_a_panic() {
    let mut session: Session<String> =
        Twin::load_snapshot_into_db(&PathBuf::from("/x"), &PathBuf::from("/data/db"));
    go_on(&mut session, 0, |t| matches!(t, Task::RequireManifest(_)));
    session.report(Reply::Found(false));
    assert_eq!(
        session.verdict(),
        Some(&Verdict::Panicked(Fault::NoManifest))
    );
}

#[test]
fn an_empty_archive_is_a_panic() {
    let mut session: Session<String> =
        Twin::load_snapshot_into_db(&PathBuf::from("/x"), &PathBuf::from("/data/db"));
    go_on(&mut session, 0, |t| matches!(t, Task::ListSnapshots(_)));
    session.report(Reply::Entries(vec![]));
    assert_eq!(
        session.verdict(),
        Some(&Verdict::Panicked(Fault::NoSnapshots))
    );
}

#[test]
fn a_named_snapshot_is_restored_before_the_take_over() {
    let opts = TwinOpts {
        db_dir: PathBuf::from(DB),
        oper_file: Some(PathBuf::from("/op/operator.yaml")),
        info: true,
        snapshot_path: Some(PathBuf::from("/anywhere")),
    };
    let mut session: Session<String> = opts.run();
    assert_eq!(session.stage(), Stage::Inspect);
    let done = go_on(&mut session, 3, |t| matches!(t, Task::CurrentDir));
    assert_eq!(done.len(), 12);
    assert_eq!(done[0], "ReportDatabase(\"/root/.libra/db\")");
    assert_eq!(done[1], "LookForArchive(\"snapshots\")");
    assert_eq!(session.stage(), Stage::Locate);
    let done = go_on(&mut session, 3, never);
    assert_eq!(done.len(), 24 * 3 + 12);
    assert_eq!(session.verdict(), Some(&Verdict::Completed));
}

#[test]
fn one_fresh_validator_and_its_operator_file() {
    let mut session: Session<String> = Twin::initialize_marlon_the_val();
    assert_eq!(
        session.pending(),
        Some(&Task::StartSwarm {
            validators: 1,
            binary: None,
        })
    );
    assert_eq!(session.operator_file(), None);
    let done = go_on(&mut session, 1, never);
    assert_eq!(done[1..], ["AwaitAllAlive { seconds: 10 }", "StopNode(0)"]);
    assert_eq!(session.verdict(), Some(&Verdict::Completed));
    assert_eq!(
        session.operator_file(),
        Some(PathBuf::from("/swarm/0/operator.yaml"))
    );

    let mut session: Session<String> = Twin::initialize_marlon_the_val();
    go_on(&mut session, 0, never);
    assert_eq!(
        session.verdict(),
        Some(&Verdict::Panicked(Fault::NoValidators))
    );
    assert_eq!(session.operator_file(), None);
}

#[test]
fn a_reply_of_another_kind_is_not_accepted() {
    let session: Session<String> = Twin::apply_with_rando_e2e(PathBuf::from(DB), 2);
    assert!(session.accepts(&Reply::Folder(PathBuf::from("/"))));
    assert!(session.accepts(&Reply::Failed("gone".to_string())));
    assert!(!session.accepts(&Reply::Done));
    assert!(!session.accepts(&Reply::Balance(1)));
    assert!(!session.accepts(&Reply::NoDeadline));
}

#[test]
fn a_reply_that_ends_a_run_adds_nothing() {
    let mut session: Session<String> = Twin::apply_with_rando_e2e(PathBuf::from(DB), 2);
    go_on(&mut session, 2, |t| matches!(t, Task::QueryView { node: 1, .. }));
    let before = format!("{:?}", session.findings());
    session.report(Reply::Answers(vec![]));
    assert_eq!(
        session.verdict(),
        Some(&Verdict::Panicked(Fault::Credential(
            CredentialFault::BadAnswer(1)
        )))
    );
    assert_eq!(format!("{:?}", session.findings()), before);
    assert_eq!(session.stage(), Stage::Credentials);
}

#[test]
fn which_snapshot_is_named_does_not_matter() {
    let one = TwinOpts {
        db_dir: PathBuf::from(DB),
        oper_file: None,
        info: false,
        snapshot_path: Some(PathBuf::from("/one")),
    };
    let other = TwinOpts {
        db_dir: PathBuf::from(DB),
        oper_file: Some(PathBuf::from("/operator.yaml")),
        info: false,
        snapshot_path: Some(PathBuf::from("/other")),
    };
    let mut first: Session<String> = one.run();
    let mut second: Session<String> = other.twin().run();
    let done = go_on(&mut first, 3, never);
    assert_eq!(done, go_on(&mut second, 3, never));
    assert_eq!(done.len(), 11 + 24 * 3 + 12);
}

#[test]
fn information_is_given_first_and_changes_nothing_else() {
    let asked = TwinOpts {
        db_dir: PathBuf::from(DB),
        oper_file: None,
        info: true,
        snapshot_path: None,
    };
    let plain = TwinOpts {
        db_dir: PathBuf::from(DB),
        oper_file: None,
        info: false,
        snapshot_path: None,
    };
    let mut first: Session<String> = asked.run();
    assert_eq!(
        first.pending(),
        Some(&Task::ReportDatabase(PathBuf::from(DB)))
    );
    // a report that fails does not keep the run from going on
    first.report(Reply::Failed("locked".to_string()));
    assert_eq!(first.pending(), Some(&Task::CurrentDir));
    let mut second: Session<String> = plain.run();
    let done = go_on(&mut first, 3, never);
    assert_eq!(done, go_on(&mut second, 3, never));
    assert_eq!(first.verdict(), Some(&Verdict::Completed));
}

#[test]
fn a_validator_whose_configuration_lies_nowhere_is_a_panic() {
    let mut session: Session<String> = Twin::initialize_marlon_the_val();
    let mut first = node(0);
    first.config_path = PathBuf::from("/");
    session.report(Reply::Swarm(swarm(vec![first])));
    let done = go_on(&mut session, 1, never);
    assert_eq!(done, ["AwaitAllAlive { seconds: 10 }", "StopNode(0)"]);
    assert_eq!(session.verdict(), Some(&Verdict::Panicked(Fault::NoParent)));
    assert_eq!(session.operator_file(), None);
}

#[test]
fn the_production_database_is_only_checked_and_copied_from() {
    let mut session: Session<String> =
        Twin::apply_with_rando_e2e(PathBuf::from("/p/mainnet-db"), 2);
    let done = go_on(&mut session, 2, never);
    let on_production: Vec<String> = done
        .into_iter()
        .filter(|task| task.contains("/p/mainnet-db"))
        .collect();
    let expected = [
        "RequirePresent(\"/p/mainnet-db\")",
        "CopyContents { from: \"/p/mainnet-db\", to: \"/swarm/0/db\", \
         copying: CopySettings { overwrite: false, skip_exist: false } }",
        "RequirePresent(\"/p/mainnet-db\")",
        "CopyContents { from: \"/p/mainnet-db\", to: \"/swarm/1/db\", \
         copying: CopySettings { overwrite: false, skip_exist: false } }",
    ];
    assert_eq!(on_production, expected);
}

#[test]
fn one_transfer_is_sent() {
    let mut session: Session<String> = Twin::apply_with_rando_e2e(PathBuf::from(DB), 4);
    let done = go_on(&mut session, 4, never);
    assert_eq!(done.len(), 24 * 4 + 11);
    let sent: Vec<usize> = (0..done.len())
        .filter(|k| done[*k].starts_with("SendTransfer"))
        .collect();
    assert_eq!(sent, [done.len() - 2]);
    assert!(done[done.len() - 2].contains("signing_key: \"0xkey\""));
    assert!(done[done.len() - 2].contains("estimate_only: false"));
}

#[test]
fn the_run_of_a_twin_takes_every_step_of_a_take_over() {
    let opts = TwinOpts {
        db_dir: PathBuf::from(DB),
        oper_file: None,
        info: true,
        snapshot_path: Some(PathBuf::from("/anywhere")),
    };
    let mut run: Session<String> = opts.run();
    let done = go_on(&mut run, 3, never);
    assert_eq!(run.verdict(), Some(&Verdict::Completed));
    let mut upgrade: Session<String> = Twin::apply_with_rando_e2e(PathBuf::from(DB), 3);
    let steps = go_on(&mut upgrade, 3, never);
    // a report, a restore over a database from an archive that was there, and parking
    assert_eq!(done.len(), 1 + (1 + 4 + 2 + 4) + steps.len() + 1);
    assert_eq!(done[12..done.len() - 1], steps[..]);
}

#[test]
fn a_run_needs_a_higher_balance_too() {
    let opts = TwinOpts {
        db_dir: PathBuf::from(DB),
        oper_file: None,
        info: false,
        snapshot_path: None,
    };
    let mut run: Session<String> = opts.run();
    go_on(&mut run, 3, |t| matches!(t, Task::ReadBalance(_)));
    run.report(Reply::Balance(5));
    run.report(Reply::Done);
    run.report(Reply::Balance(4));
    assert_eq!(
        run.verdict(),
        Some(&Verdict::Panicked(Fault::BalanceUnchanged))
    );
}
