//! The stages of a run. The plan of a stage is drawn up when the stage is reached, from what the
//! stages before it have found out, and drawn up anew when a step finds out what later ones need.
use crate::findings::{assessed, Findings, FindingsModel};
use crate::outside::{join, joined, parent, parent_of, path_from, path_of};
use crate::plan::{
    add_step, broken, empty_plan, fits, follow, free, in_turn, lemma_all_complete,
    lemma_every_step, lemma_in_turn, placed, returning, then_plan, unwrap_plan, unwrapped,
    unwrapping, whole, Deadline, Ending, Fault, Node, OnFailure, OpenSettings, Plan, PlanModel,
    Reply, RestoreSettings, Step, Task, TransferSettings, Verdict,
};
use crate::procedures::{
    blob_in, bootstrap_plan, changes_for, check_plan, clone_db_plan, extract_plan, halt_plan,
    node_changes, plan_bootstrap, plan_check, plan_clone_db, plan_extract, plan_halt, plan_read,
    plan_rescue, plan_restart, plan_spread, plan_wait, read_plan, rescue_file, rescue_plan,
    restart_plan, spread_plan, wait_plan,
};
use diem_types::transaction::Transaction;
use diem_types::waypoint::Waypoint;
use std::path::PathBuf;
use vstd::prelude::*;

verus! {

/// What a run is for.
#[derive(Debug, Clone, Copy, PartialEq, Eq)]
pub enum Mission {
    /// Make the files of one fresh validator.
    Initialize,
    /// Restore a database from the latest snapshot.
    Load,
    /// Let a swarm take over a copy of a database.
    Upgrade,
    /// Report on a database, restore it, each if it is asked for; let a swarm take it over, and
    /// leave the network running.
    Run { info: bool, from_snapshot: bool },
}

/// What a run is given.
#[derive(Debug, PartialEq, Eq)]
pub struct Brief {
    pub mission: Mission,
    /// The database to be restored or copied.
    pub db: PathBuf,
    /// How many validators the swarm is to have.
    pub validators: u8,
}

/// A part of a run.
#[derive(Debug, Clone, Copy, PartialEq, Eq)]
pub enum Stage {
    /// Start a swarm of one validator.
    Hatch,
    /// Stop that validator.
    Halt,
    /// Give information about the database.
    Inspect,
    /// See whether the archive of snapshots is there.
    Archive,
    /// Bring the archive up to date, or fetch it, and list the snapshots.
    Fetch,
    /// See whether the snapshot is complete, and whether a database is in the way.
    Manifest,
    /// Restore the database.
    Restore,
    /// Find out where the run was started.
    Locate,
    /// Start a swarm of fresh validators.
    Launch,
    /// Collect the credentials of the validators.
    Credentials,
    /// Replace the databases of the validators.
    Replace,
    /// Make the rescue blob and hand it to every validator.
    Rescue,
    /// Bootstrap every database with the blob.
    Bootstrap,
    /// Start every validator on its bootstrapped database.
    Restart,
    /// Wait for the network to be live.
    Liveness,
    /// Check that a transfer goes through.
    Transfer,
    /// Leave the network running.
    Park,
}

/// The place of a stage among the stages.
pub open spec fn rank(stage: Stage) -> nat {
    match stage {
        Stage::Hatch => 0,
        Stage::Halt => 1,
        Stage::Inspect => 2,
        Stage::Archive => 3,
        Stage::Fetch => 4,
        Stage::Manifest => 5,
        Stage::Restore => 6,
        Stage::Locate => 7,
        Stage::Launch => 8,
        Stage::Credentials => 9,
        Stage::Replace => 10,
        Stage::Rescue => 11,
        Stage::Bootstrap => 12,
        Stage::Restart => 13,
        Stage::Liveness => 14,
        Stage::Transfer => 15,
        Stage::Park => 16,
    }
}

/// The stage that a run starts with.
pub open spec fn first_stage(mission: Mission) -> Stage {
    match mission {
        Mission::Initialize => Stage::Hatch,
        Mission::Load => Stage::Archive,
        Mission::Upgrade => Stage::Locate,
        Mission::Run { info, from_snapshot } => if info {
            Stage::Inspect
        } else if from_snapshot {
            Stage::Archive
        } else {
            Stage::Locate
        },
    }
}

/// The stage after a stage, if the run goes on.
pub open spec fn next_stage(mission: Mission, stage: Stage) -> Option<Stage> {
    match stage {
        Stage::Hatch => Some(Stage::Halt),
        Stage::Halt => None,
        Stage::Inspect => if mission matches Mission::Run { from_snapshot, .. } && from_snapshot {
            Some(Stage::Archive)
        } else {
            Some(Stage::Locate)
        },
        Stage::Archive => Some(Stage::Fetch),
        Stage::Fetch => Some(Stage::Manifest),
        Stage::Manifest => Some(Stage::Restore),
        Stage::Restore => if mission is Run {
            Some(Stage::Locate)
        } else {
            None
        },
        Stage::Locate => Some(Stage::Launch),
        Stage::Launch => Some(Stage::Credentials),
        Stage::Credentials => Some(Stage::Replace),
        Stage::Replace => Some(Stage::Rescue),
        Stage::Rescue => Some(Stage::Bootstrap),
        Stage::Bootstrap => Some(Stage::Restart),
        Stage::Restart => Some(Stage::Liveness),
        Stage::Liveness => Some(Stage::Transfer),
        Stage::Transfer => if mission is Run {
            Some(Stage::Park)
        } else {
            None
        },
        Stage::Park => None,
    }
}

/// Whether a stage is one of those that let a swarm take over a database.
pub open spec fn is_upgrade(stage: Stage) -> bool {
    rank(Stage::Locate) <= rank(stage) <= rank(Stage::Transfer)
}

/// Whether a stage is one of those that restore a database.
pub open spec fn is_restore(stage: Stage) -> bool {
    rank(Stage::Archive) <= rank(stage) <= rank(Stage::Restore)
}

/// Whether a stage is one that a run comes through. A run reports on a database, or restores it,
/// only if that is asked for.
pub open spec fn on_route(mission: Mission, stage: Stage) -> bool {
    match mission {
        Mission::Initialize => stage is Hatch || stage is Halt,
        Mission::Load => is_restore(stage),
        Mission::Upgrade => is_upgrade(stage),
        Mission::Run { info, from_snapshot } => {
            ||| stage is Inspect && info
            ||| is_restore(stage) && from_snapshot
            ||| is_upgrade(stage)
            ||| stage is Park
        },
    }
}

/// Every validator's credentials are collected.
pub open spec fn extracts(nodes: Seq<Node>) -> spec_fn(int) -> PlanModel {
    |i: int| extract_plan(i as usize, nodes[i])
}

/// Every validator is stopped and its storage cleared.
pub open spec fn halts() -> spec_fn(int) -> PlanModel {
    |i: int| halt_plan(i as usize)
}

/// Every validator's database is replaced; an error in doing so is a panic.
pub open spec fn clones(prod_db: PathBuf, nodes: Seq<Node>) -> spec_fn(int) -> PlanModel {
    |i: int| unwrapped(clone_db_plan(prod_db, nodes[i].storage_dir))
}

/// Every validator's database must be there.
pub open spec fn checks(nodes: Seq<Node>) -> spec_fn(int) -> PlanModel {
    |i: int| check_plan(nodes[i].storage_dir)
}

/// The blob of the first validator's database is copied to those of the others.
pub open spec fn spreads(nodes: Seq<Node>) -> spec_fn(int) -> PlanModel {
    |i: int| spread_plan(blob_in(nodes[0].storage_dir), nodes[i + 1].storage_dir)
}

/// Every validator's database is bootstrapped.
pub open spec fn bootstraps(nodes: Seq<Node>) -> spec_fn(int) -> PlanModel {
    |i: int| bootstrap_plan(nodes[i].storage_dir)
}

/// The genesis transaction that was read for a validator, once it was.
pub open spec fn genesis_at(geneses: Seq<Transaction>, i: int) -> Option<Transaction> {
    if 0 <= i < geneses.len() {
        Some(geneses[i])
    } else {
        None
    }
}

/// A validator gets its own waypoint and blob, and the genesis transaction that is read from the
/// blob; it waits for the validators started before it.
pub open spec fn rejoin_plan(
    index: usize,
    node: Node,
    waypoint: Waypoint,
    genesis: Option<Transaction>,
) -> PlanModel {
    then_plan(
        then_plan(
            read_plan(node.storage_dir),
            restart_plan(index, node.config_path, changes_for(node, waypoint, genesis)),
        ),
        wait_plan(index, index),
    )
}

/// Every validator is started on its bootstrapped database.
pub open spec fn rejoins(
    nodes: Seq<Node>,
    waypoints: Seq<Waypoint>,
    geneses: Seq<Transaction>,
) -> spec_fn(int) -> PlanModel {
    |i: int| rejoin_plan(i as usize, nodes[i], waypoints[i], genesis_at(geneses, i))
}

/// The plan of a stage.
pub open spec fn stage_plan(brief: Brief, stage: Stage, found: FindingsModel) -> PlanModel {
    let nodes = found.nodes;
    match stage {
        Stage::Hatch => whole(
            seq![
                returning(Task::StartSwarm { validators: 1, binary: None }),
                returning(Task::AwaitAllAlive { seconds: 10 }),
            ],
        ),
        Stage::Halt => if nodes.len() == 0 {
            broken(seq![], Fault::NoValidators)
        } else if parent_of(nodes[0].config_path) is None {
            broken(seq![free(Task::StopNode(0))], Fault::NoParent)
        } else {
            whole(seq![free(Task::StopNode(0))])
        },
        Stage::Inspect => whole(seq![free(Task::ReportDatabase(brief.db))]),
        Stage::Archive => whole(seq![free(Task::LookForArchive(path_of("snapshots"@)))]),
        Stage::Fetch => if found.archive_found->0 {
            whole(
                seq![
                    unwrapping(Task::OpenRepository(path_of("snapshots"@))),
                    unwrapping(Task::FindRemote("origin")),
                    unwrapping(Task::Fetch("refs/heads/v7.0.0")),
                    unwrapping(Task::ListSnapshots(path_of("snapshots"@))),
                ],
            )
        } else {
            whole(
                seq![
                    unwrapping(
                        Task::CloneRepository {
                            url: "https://github.com/0LNetworkCommunity/epoch-archive-mainnet.git",
                            into: path_of("snapshots"@),
                        },
                    ),
                    unwrapping(Task::ListSnapshots(path_of("snapshots"@))),
                ],
            )
        },
        Stage::Manifest => whole(
            seq![
                free(Task::RequireManifest(joined(found.latest->0, "epoch_ending.manifest"@))),
                free(Task::LookForDatabase(brief.db)),
            ],
        ),
        Stage::Restore => {
            let clear = if found.db_found->0 {
                seq![unwrapping(Task::RemoveDirAll(brief.db))]
            } else {
                seq![]
            };
            whole(
                clear + seq![
                    unwrapping(Task::CreateDirAll(brief.db)),
                    unwrapping(
                        Task::OpenDatabase {
                            db: brief.db,
                            options: OpenSettings {
                                readonly: false,
                                enable_indexer: false,
                                buffered_state_target_items: 0,
                                max_nodes_per_cache_shard: 0,
                            },
                        },
                    ),
                    unwrapping(
                        Task::RestoreSnapshot {
                            manifest: joined(found.latest->0, "epoch_ending.manifest"@),
                            storage: found.latest->0,
                            settings: RestoreSettings {
                                version: 0,
                                validate_modules: false,
                                target_version: 0,
                                concurrent_downloads: 4,
                                replay_concurrency_level: 0,
                            },
                        },
                    ),
                ],
            )
        },
        Stage::Locate => whole(seq![returning(Task::CurrentDir)]),
        Stage::Launch => whole(
            seq![
                returning(
                    Task::StartSwarm {
                        validators: brief.validators,
                        binary: Some(joined(found.current_dir->0, "tests/diem-proxy"@)),
                    },
                ),
            ],
        ),
        Stage::Credentials => in_turn(nodes.len(), extracts(nodes)),
        Stage::Replace => then_plan(
            then_plan(
                in_turn(nodes.len(), halts()),
                in_turn(nodes.len(), clones(brief.db, nodes)),
            ),
            in_turn(nodes.len(), checks(nodes)),
        ),
        Stage::Rescue => if nodes.len() == 0 {
            broken(seq![], Fault::NoValidators)
        } else {
            then_plan(
                rescue_plan(nodes[0].storage_dir),
                in_turn((nodes.len() - 1) as nat, spreads(nodes)),
            )
        },
        Stage::Bootstrap => in_turn(nodes.len(), bootstraps(nodes)),
        Stage::Restart => in_turn(
            nodes.len(),
            rejoins(nodes, found.waypoints, found.geneses),
        ),
        Stage::Liveness => whole(
            seq![
                unwrapping(Task::SetDeadline(Deadline::Seconds(10))),
                free(Task::CheckLiveness),
                free(Task::ScratchDir),
            ],
        ),
        Stage::Transfer => {
            let init = seq![
                unwrapping(Task::InitValidatorConfig { node: 0, dir: found.scratch->0 }),
            ];
            if nodes.len() < 2 {
                broken(init, Fault::NoRecipient)
            } else {
                whole(
                    init + seq![
                        returning(Task::ReadBalance(nodes[1].peer_id)),
                        unwrapping(
                            Task::SendTransfer {
                                recipient: nodes[1].peer_id,
                                coins: 1,
                                config: joined(found.scratch->0, "libra-cli-config.yaml"@),
                                sending: TransferSettings {
                                    signing_key: found.signing_key->0,
                                    url: found.api_endpoint->0,
                                    estimate_only: false,
                                    legacy_address: false,
                                },
                            },
                        ),
                        returning(Task::ReadBalance(nodes[1].peer_id)),
                    ],
                )
            }
        },
        Stage::Park => whole(seq![free(Task::Park)]),
    }
}

/// Whether the credentials that were put together are those of the first validators, in the order
/// of the swarm.
pub open spec fn credentials_match(found: FindingsModel) -> bool {
    forall|j: int|
        0 <= j < found.credentials.len() ==> found.nodes[j].config_account == Some(
            (#[trigger] found.credentials[j]).account,
        )
}

/// What is known when `pos` steps of a stage have been taken.
pub open spec fn known(stage: Stage, pos: nat, found: FindingsModel) -> bool {
    let here = rank(stage);
    &&& stage is Archive && pos >= 1 ==> found.archive_found is Some
    &&& stage is Fetch ==> found.archive_found is Some
    &&& stage is Fetch && pos >= (if found.archive_found->0 {
        4int
    } else {
        2int
    }) ==> found.latest is Some
    &&& stage is Manifest || stage is Restore ==> found.latest is Some
    &&& stage is Manifest && pos >= 2 ==> found.db_found is Some
    &&& stage is Restore ==> found.db_found is Some
    &&& stage is Locate && pos >= 1 ==> found.current_dir is Some
    &&& stage is Launch ==> found.current_dir is Some
    &&& (stage is Launch && pos >= 1) || rank(Stage::Launch) < here <= rank(Stage::Transfer) ==> {
        &&& found.signing_key is Some
        &&& found.api_endpoint is Some
    }
    &&& here < rank(Stage::Credentials) ==> found.credentials.len() == 0
    &&& stage is Credentials ==> found.credentials.len() == pos as int / 2
    &&& stage is Credentials && pos as int % 2 == 1 ==> found.identity is Some
    &&& rank(Stage::Credentials) < here <= rank(Stage::Transfer) ==> found.credentials.len()
        == found.nodes.len()
    &&& rank(Stage::Credentials) <= here <= rank(Stage::Transfer) ==> credentials_match(found)
    &&& stage is Rescue && pos >= 2 ==> found.blob is Some
    &&& here < rank(Stage::Bootstrap) ==> found.waypoints.len() == 0
    &&& stage is Bootstrap ==> found.waypoints.len() == pos as int / 3
    &&& rank(Stage::Bootstrap) < here <= rank(Stage::Transfer) ==> found.waypoints.len()
        == found.nodes.len()
    &&& here < rank(Stage::Restart) ==> found.geneses.len() == 0
    &&& stage is Restart ==> found.geneses.len() == (pos + 7) / 8
    &&& rank(Stage::Restart) < here <= rank(Stage::Transfer) ==> found.geneses.len()
        == found.nodes.len()
    &&& stage is Liveness && pos >= 3 ==> found.scratch is Some
    &&& stage is Transfer ==> found.scratch is Some
    &&& here < rank(Stage::Transfer) || (stage is Transfer && pos < 2) ==> found.balance is None
    &&& stage is Transfer && pos >= 2 ==> found.balance is Some
}

/// The stage after a stage.
pub(crate) fn following(mission: Mission, stage: Stage) -> (r: Option<Stage>)
    ensures
        r == next_stage(mission, stage),
        r matches Some(next) ==> rank(next) > rank(stage),
{
    let (on, from_snapshot) = match mission {
        Mission::Run { from_snapshot, .. } => (true, from_snapshot),
        _ => (false, false),
    };
    match stage {
        Stage::Hatch => Some(Stage::Halt),
        Stage::Halt => None,
        Stage::Inspect => if from_snapshot {
            Some(Stage::Archive)
        } else {
            Some(Stage::Locate)
        },
        Stage::Archive => Some(Stage::Fetch),
        Stage::Fetch => Some(Stage::Manifest),
        Stage::Manifest => Some(Stage::Restore),
        Stage::Restore => if on {
            Some(Stage::Locate)
        } else {
            None
        },
        Stage::Locate => Some(Stage::Launch),
        Stage::Launch => Some(Stage::Credentials),
        Stage::Credentials => Some(Stage::Replace),
        Stage::Replace => Some(Stage::Rescue),
        Stage::Rescue => Some(Stage::Bootstrap),
        Stage::Bootstrap => Some(Stage::Restart),
        Stage::Restart => Some(Stage::Liveness),
        Stage::Liveness => Some(Stage::Transfer),
        Stage::Transfer => if on {
            Some(Stage::Park)
        } else {
            None
        },
        Stage::Park => None,
    }
}

/// The stage that a run starts with.
pub(crate) fn opening(mission: Mission) -> (r: Stage)
    ensures
        r == first_stage(mission),
{
    match mission {
        Mission::Initialize => Stage::Hatch,
        Mission::Load => Stage::Archive,
        Mission::Upgrade => Stage::Locate,
        Mission::Run { info, from_snapshot } => if info {
            Stage::Inspect
        } else if from_snapshot {
            Stage::Archive
        } else {
            Stage::Locate
        },
    }
}

/// Whether a stage is one of those that let a swarm take over a database.
pub(crate) fn in_upgrade(stage: Stage) -> (r: bool)
    ensures
        r == is_upgrade(stage),
{
    match stage {
        Stage::Locate | Stage::Launch | Stage::Credentials | Stage::Replace | Stage::Rescue => true,
        Stage::Bootstrap | Stage::Restart | Stage::Liveness | Stage::Transfer => true,
        _ => false,
    }
}

/// A plan of one step.
fn single(task: Task, on_failure: OnFailure) -> (r: Plan)
    ensures
        r@ == whole(seq![Step { task, on_failure }]),
{
    let mut plan = empty_plan();
    add_step(&mut plan, task, on_failure);
    assert(plan@.steps =~= seq![Step { task, on_failure }]);
    plan
}

/// See [`Stage::Hatch`].
fn plan_hatch() -> (r: Plan)
    ensures
        forall|brief: Brief, found: FindingsModel|
            r@ == #[trigger] stage_plan(brief, Stage::Hatch, found),
{
    let mut plan = empty_plan();
    add_step(&mut plan, Task::StartSwarm { validators: 1, binary: None }, OnFailure::Return);
    add_step(&mut plan, Task::AwaitAllAlive { seconds: 10 }, OnFailure::Return);
    assert(plan@.steps =~= seq![
        returning(Task::StartSwarm { validators: 1, binary: None }),
        returning(Task::AwaitAllAlive { seconds: 10 }),
    ]);
    plan
}

/// See [`Stage::Halt`].
fn plan_halt_first(brief: &Brief, nodes: &Vec<Node>) -> (r: Plan)
    ensures
        forall|found: FindingsModel|
            found.nodes == nodes@ ==> r@ == #[trigger] stage_plan(*brief, Stage::Halt, found),
{
    if nodes.len() == 0 {
        let mut plan = empty_plan();
        plan.end = Ending::Fault(Fault::NoValidators);
        return plan;
    }
    let mut plan = single(Task::StopNode(0), OnFailure::Ignore);
    if parent(&nodes[0].config_path).is_none() {
        plan.end = Ending::Fault(Fault::NoParent);
    }
    plan
}

/// See [`Stage::Fetch`].
fn plan_fetch(brief: &Brief, found: &Findings) -> (r: Plan)
    requires
        found@.archive_found is Some,
    ensures
        r@ == stage_plan(*brief, Stage::Fetch, found@),
{
    let mut plan = empty_plan();
    let there = match found.archive_found {
        Some(there) => there,
        None => false,
    };
    if there {
        add_step(&mut plan, Task::OpenRepository(path_from("snapshots")), OnFailure::Unwrap);
        add_step(&mut plan, Task::FindRemote("origin"), OnFailure::Unwrap);
        add_step(&mut plan, Task::Fetch("refs/heads/v7.0.0"), OnFailure::Unwrap);
    } else {
        add_step(
            &mut plan,
            Task::CloneRepository {
                url: "https://github.com/0LNetworkCommunity/epoch-archive-mainnet.git",
                into: path_from("snapshots"),
            },
            OnFailure::Unwrap,
        );
    }
    add_step(&mut plan, Task::ListSnapshots(path_from("snapshots")), OnFailure::Unwrap);
    assert(plan@.steps =~= stage_plan(*brief, Stage::Fetch, found@).steps);
    plan
}

/// See [`Stage::Manifest`].
fn plan_manifest(brief: &Brief, latest: &PathBuf, Ghost(found): Ghost<FindingsModel>) -> (r: Plan)
    requires
        found.latest == Some(*latest),
    ensures
        r@ == stage_plan(*brief, Stage::Manifest, found),
{
    let mut plan = empty_plan();
    add_step(
        &mut plan,
        Task::RequireManifest(join(latest, "epoch_ending.manifest")),
        OnFailure::Ignore,
    );
    add_step(&mut plan, Task::LookForDatabase(brief.db.clone()), OnFailure::Ignore);
    assert(plan@.steps =~= stage_plan(*brief, Stage::Manifest, found).steps);
    plan
}

/// See [`Stage::Restore`].
fn plan_restore(
    brief: &Brief,
    latest: &PathBuf,
    clear: bool,
    Ghost(found): Ghost<FindingsModel>,
) -> (r: Plan)
    requires
        found.latest == Some(*latest),
        found.db_found == Some(clear),
    ensures
        r@ == stage_plan(*brief, Stage::Restore, found),
{
    let mut plan = empty_plan();
    if clear {
        add_step(&mut plan, Task::RemoveDirAll(brief.db.clone()), OnFailure::Unwrap);
    }
    add_step(&mut plan, Task::CreateDirAll(brief.db.clone()), OnFailure::Unwrap);
    add_step(
        &mut plan,
        Task::OpenDatabase {
            db: brief.db.clone(),
            options: OpenSettings {
                readonly: false,
                enable_indexer: false,
                buffered_state_target_items: 0,
                max_nodes_per_cache_shard: 0,
            },
        },
        OnFailure::Unwrap,
    );
    add_step(
        &mut plan,
        Task::RestoreSnapshot {
            manifest: join(latest, "epoch_ending.manifest"),
            storage: latest.clone(),
            settings: RestoreSettings {
                version: 0,
                validate_modules: false,
                target_version: 0,
                concurrent_downloads: 4,
                replay_concurrency_level: 0,
            },
        },
        OnFailure::Unwrap,
    );
    assert(plan@.steps =~= stage_plan(*brief, Stage::Restore, found).steps);
    plan
}

/// See [`extracts`].
fn plan_extracts(nodes: &Vec<Node>) -> (r: Plan)
    ensures
        r@ == in_turn(nodes@.len(), extracts(nodes@)),
{
    let mut plan = empty_plan();
    let mut i: usize = 0;
    while i < nodes.len()
        invariant
            i <= nodes.len(),
            plan@ == in_turn(i as nat, extracts(nodes@)),
        decreases nodes.len() - i,
    {
        follow(&mut plan, plan_extract(i, &nodes[i]));
        i += 1;
    }
    plan
}

/// See [`Stage::Replace`].
fn plan_replace(brief: &Brief, nodes: &Vec<Node>) -> (r: Plan)
    ensures
        forall|found: FindingsModel|
            found.nodes == nodes@ ==> r@ == #[trigger] stage_plan(*brief, Stage::Replace, found),
{
    let mut halting = empty_plan();
    let mut i: usize = 0;
    while i < nodes.len()
        invariant
            i <= nodes.len(),
            halting@ == in_turn(i as nat, halts()),
        decreases nodes.len() - i,
    {
        follow(&mut halting, plan_halt(i));
        i += 1;
    }
    let mut cloning = empty_plan();
    let mut j: usize = 0;
    while j < nodes.len()
        invariant
            j <= nodes.len(),
            cloning@ == in_turn(j as nat, clones(brief.db, nodes@)),
        decreases nodes.len() - j,
    {
        follow(&mut cloning, unwrap_plan(plan_clone_db(&brief.db, &nodes[j].storage_dir)));
        j += 1;
    }
    let mut checking = empty_plan();
    let mut k: usize = 0;
    while k < nodes.len()
        invariant
            k <= nodes.len(),
            checking@ == in_turn(k as nat, checks(nodes@)),
        decreases nodes.len() - k,
    {
        follow(&mut checking, plan_check(&nodes[k].storage_dir));
        k += 1;
    }
    follow(&mut halting, cloning);
    follow(&mut halting, checking);
    halting
}

/// See [`Stage::Rescue`].
fn plan_rescue_all(brief: &Brief, nodes: &Vec<Node>) -> (r: Plan)
    ensures
        forall|found: FindingsModel|
            found.nodes == nodes@ ==> r@ == #[trigger] stage_plan(*brief, Stage::Rescue, found),
{
    let mut plan = empty_plan();
    if nodes.len() == 0 {
        plan.end = Ending::Fault(Fault::NoValidators);
        return plan;
    }
    let mut spreading = empty_plan();
    let blob = rescue_file(&nodes[0].storage_dir);
    let mut i: usize = 1;
    while i < nodes.len()
        invariant
            1 <= i <= nodes.len(),
            blob == blob_in(nodes@[0].storage_dir),
            spreading@ == in_turn((i - 1) as nat, spreads(nodes@)),
        decreases nodes.len() - i,
    {
        follow(&mut spreading, plan_spread(&blob, &nodes[i].storage_dir));
        i += 1;
    }
    plan = plan_rescue(&nodes[0].storage_dir);
    follow(&mut plan, spreading);
    plan
}

/// See [`bootstraps`].
fn plan_bootstraps(nodes: &Vec<Node>) -> (r: Plan)
    ensures
        r@ == in_turn(nodes@.len(), bootstraps(nodes@)),
{
    let mut plan = empty_plan();
    let mut i: usize = 0;
    while i < nodes.len()
        invariant
            i <= nodes.len(),
            plan@ == in_turn(i as nat, bootstraps(nodes@)),
        decreases nodes.len() - i,
    {
        follow(&mut plan, plan_bootstrap(&nodes[i].storage_dir));
        i += 1;
    }
    plan
}

/// See [`rejoins`].
pub(crate) fn plan_rejoins(
    nodes: &Vec<Node>,
    waypoints: &Vec<Waypoint>,
    geneses: &Vec<Transaction>,
) -> (r: Plan)
    requires
        nodes@.len() == waypoints@.len(),
    ensures
        r@ == in_turn(nodes@.len(), rejoins(nodes@, waypoints@, geneses@)),
{
    let mut plan = empty_plan();
    let mut i: usize = 0;
    while i < nodes.len()
        invariant
            i <= nodes.len(),
            nodes@.len() == waypoints@.len(),
            plan@ == in_turn(i as nat, rejoins(nodes@, waypoints@, geneses@)),
        decreases nodes.len() - i,
    {
        let genesis = if i < geneses.len() {
            Some(geneses[i].clone())
        } else {
            None
        };
        let changes = node_changes(&nodes[i], waypoints[i], genesis);
        let mut rejoin = plan_read(&nodes[i].storage_dir);
        follow(&mut rejoin, plan_restart(i, &nodes[i].config_path, changes));
        follow(&mut rejoin, plan_wait(i, i));
        follow(&mut plan, rejoin);
        i += 1;
    }
    plan
}

/// See [`Stage::Liveness`].
fn plan_liveness() -> (r: Plan)
    ensures
        forall|brief: Brief, found: FindingsModel|
            r@ == #[trigger] stage_plan(brief, Stage::Liveness, found),
{
    let mut plan = empty_plan();
    add_step(&mut plan, Task::SetDeadline(Deadline::Seconds(10)), OnFailure::Unwrap);
    add_step(&mut plan, Task::CheckLiveness, OnFailure::Ignore);
    add_step(&mut plan, Task::ScratchDir, OnFailure::Ignore);
    assert(plan@.steps =~= seq![
        unwrapping(Task::SetDeadline(Deadline::Seconds(10))),
        free(Task::CheckLiveness),
        free(Task::ScratchDir),
    ]);
    plan
}

/// See [`Stage::Transfer`].
fn plan_transfer(
    brief: &Brief,
    found: &Findings,
    scratch: &PathBuf,
    signing_key: &String,
    api_endpoint: &String,
) -> (r: Plan)
    requires
        found@.scratch == Some(*scratch),
        found@.signing_key == Some(*signing_key),
        found@.api_endpoint == Some(*api_endpoint),
    ensures
        r@ == stage_plan(*brief, Stage::Transfer, found@),
{
    let mut plan = empty_plan();
    add_step(
        &mut plan,
        Task::InitValidatorConfig { node: 0, dir: scratch.clone() },
        OnFailure::Unwrap,
    );
    if found.nodes.len() < 2 {
        plan.end = Ending::Fault(Fault::NoRecipient);
    } else {
        let recipient = found.nodes[1].peer_id;
        add_step(&mut plan, Task::ReadBalance(recipient), OnFailure::Return);
        add_step(
            &mut plan,
            Task::SendTransfer {
                recipient,
                coins: 1,
                config: join(scratch, "libra-cli-config.yaml"),
                sending: TransferSettings {
                    signing_key: signing_key.clone(),
                    url: api_endpoint.clone(),
                    estimate_only: false,
                    legacy_address: false,
                },
            },
            OnFailure::Unwrap,
        );
        add_step(&mut plan, Task::ReadBalance(recipient), OnFailure::Return);
    }
    assert(plan@.steps =~= stage_plan(*brief, Stage::Transfer, found@).steps);
    plan
}

/// Draws up the plan of a stage.
pub(crate) fn plan_stage(brief: &Brief, stage: Stage, found: &Findings) -> (r: Plan)
    requires
        known(stage, 0, found@),
    ensures
        r@ == stage_plan(*brief, stage, found@),
{
    match stage {
        Stage::Hatch => plan_hatch(),
        Stage::Halt => plan_halt_first(brief, &found.nodes),
        Stage::Inspect => single(Task::ReportDatabase(brief.db.clone()), OnFailure::Ignore),
        Stage::Archive => single(
            Task::LookForArchive(path_from("snapshots")),
            OnFailure::Ignore,
        ),
        Stage::Fetch => plan_fetch(brief, found),
        Stage::Manifest => match &found.latest {
            Some(latest) => plan_manifest(brief, latest, Ghost(found@)),
            None => empty_plan(),
        },
        Stage::Restore => match (&found.latest, found.db_found) {
            (Some(latest), Some(clear)) => plan_restore(brief, latest, clear, Ghost(found@)),
            _ => empty_plan(),
        },
        Stage::Locate => single(Task::CurrentDir, OnFailure::Return),
        Stage::Launch => match &found.current_dir {
            Some(dir) => single(
                Task::StartSwarm {
                    validators: brief.validators,
                    binary: Some(join(dir, "tests/diem-proxy")),
                },
                OnFailure::Return,
            ),
            None => empty_plan(),
        },
        Stage::Credentials => plan_extracts(&found.nodes),
        Stage::Replace => plan_replace(brief, &found.nodes),
        Stage::Rescue => plan_rescue_all(brief, &found.nodes),
        Stage::Bootstrap => plan_bootstraps(&found.nodes),
        Stage::Restart => plan_rejoins(&found.nodes, &found.waypoints, &found.geneses),
        Stage::Liveness => plan_liveness(),
        Stage::Transfer => match (&found.scratch, &found.signing_key, &found.api_endpoint) {
            (Some(scratch), Some(signing_key), Some(api_endpoint)) => plan_transfer(
                brief,
                found,
                scratch,
                signing_key,
                api_endpoint,
            ),
            _ => empty_plan(),
        },
        Stage::Park => single(Task::Park, OnFailure::Ignore),
    }
}

/// Whether a step is one that a stage takes.
pub open spec fn belongs(stage: Stage, step: Step) -> bool {
    let task = step.task;
    match stage {
        Stage::Hatch => task is StartSwarm || task is AwaitAllAlive,
        Stage::Halt => task is StopNode,
        Stage::Inspect => task is ReportDatabase && step.on_failure is Ignore,
        Stage::Archive => task is LookForArchive,
        Stage::Fetch => step.on_failure is Unwrap && (task is OpenRepository || task is FindRemote
            || task is Fetch || task is CloneRepository || task is ListSnapshots),
        Stage::Manifest => step.on_failure is Ignore && (task is RequireManifest
            || task is LookForDatabase),
        Stage::Restore => step.on_failure is Unwrap && (task is RemoveDirAll || task is CreateDirAll
            || task is OpenDatabase || task is RestoreSnapshot),
        Stage::Locate => task is CurrentDir,
        Stage::Launch => task is StartSwarm,
        Stage::Credentials => task is ReadIdentity || task is QueryView,
        Stage::Replace => {
            ||| task is StopNode || task is ClearStorage
            ||| task is RequirePresent || task is RequireAbsent
            ||| task is CreateDir || task is MoveDir || task is CopyContents
        },
        Stage::Rescue => task is AddValidators || task is UnpackChangeSet || task is WriteFile
            || task is CopyFile,
        Stage::Bootstrap => task is Bootstrap || task is Pause,
        Stage::Restart => {
            ||| task is ReadFile
            ||| task is StopNode || task is SaveConfig || task is StartNode
            ||| task is SetDeadline || task is AwaitHealthy || task is AwaitConnectivity
        },
        Stage::Liveness => task is SetDeadline || task is CheckLiveness || task is ScratchDir,
        Stage::Transfer => task is InitValidatorConfig || task is ReadBalance
            || task is SendTransfer,
        Stage::Park => task is Park,
    }
}

/// A stage takes only steps of its own.
pub proof fn lemma_stage_steps(brief: Brief, stage: Stage, found: FindingsModel)
    ensures
        forall|k: int|
            0 <= k < stage_plan(brief, stage, found).steps.len() ==> belongs(
                stage,
                #[trigger] stage_plan(brief, stage, found).steps[k],
            ),
{
    let holds = |step: Step| belongs(stage, step);
    let nodes = found.nodes;
    match stage {
        Stage::Credentials => {
            lemma_every_step(nodes.len(), extracts(nodes), holds);
        },
        Stage::Replace => {
            lemma_every_step(nodes.len(), halts(), holds);
            lemma_every_step(nodes.len(), clones(brief.db, nodes), holds);
            lemma_every_step(nodes.len(), checks(nodes), holds);
        },
        Stage::Rescue => {
            if nodes.len() > 0 {
                lemma_every_step((nodes.len() - 1) as nat, spreads(nodes), holds);
            }
        },
        Stage::Bootstrap => {
            lemma_every_step(nodes.len(), bootstraps(nodes), holds);
        },
        Stage::Restart => {
            lemma_every_step(
                nodes.len(),
                rejoins(nodes, found.waypoints, found.geneses),
                holds,
            );
        },
        _ => {},
    }
    let plan = stage_plan(brief, stage, found);
    assert forall|k: int| 0 <= k < plan.steps.len() implies belongs(
        stage,
        #[trigger] plan.steps[k],
    ) by {
        assert(holds(plan.steps[k]));
    }
}

/// The steps of the stages that go from validator to validator, by their places.
pub proof fn lemma_turns(brief: Brief, stage: Stage, found: FindingsModel)
    ensures
        ({
            let plan = stage_plan(brief, stage, found);
            let nodes = found.nodes;
            &&& stage is Credentials ==> {
                &&& plan.end is Complete ==> plan.steps.len() == 2 * nodes.len()
                &&& forall|k: int|
                    0 <= k < plan.steps.len() ==> placed(
                        #[trigger] plan.steps[k],
                        k,
                        nodes.len(),
                        extracts(nodes),
                        2,
                    )
            }
            &&& stage is Bootstrap ==> {
                &&& plan.end is Complete
                &&& plan.steps.len() == 3 * nodes.len()
                &&& forall|k: int|
                    0 <= k < plan.steps.len() ==> placed(
                        #[trigger] plan.steps[k],
                        k,
                        nodes.len(),
                        bootstraps(nodes),
                        3,
                    )
            }
            &&& stage is Restart ==> {
                &&& plan.end is Complete
                &&& plan.steps.len() == 8 * nodes.len()
                &&& forall|k: int|
                    0 <= k < plan.steps.len() ==> placed(
                        #[trigger] plan.steps[k],
                        k,
                        nodes.len(),
                        rejoins(nodes, found.waypoints, found.geneses),
                        8,
                    )
            }
        }),
{
    let nodes = found.nodes;
    match stage {
        Stage::Credentials => {
            lemma_in_turn(nodes.len(), extracts(nodes), 2);
        },
        Stage::Bootstrap => {
            lemma_in_turn(nodes.len(), bootstraps(nodes), 3);
            lemma_all_complete(nodes.len(), bootstraps(nodes));
        },
        Stage::Restart => {
            let turns = rejoins(nodes, found.waypoints, found.geneses);
            lemma_in_turn(nodes.len(), turns, 8);
            lemma_all_complete(nodes.len(), turns);
        },
        _ => {},
    }
}

/// Whether a plan drawn up anew has the steps up to a place, the length and the end of the former
/// one.
pub open spec fn same_so_far(former: PlanModel, plan: PlanModel, pos: nat) -> bool {
    &&& plan.steps.len() == former.steps.len()
    &&& plan.end == former.end
    &&& plan.steps.take(pos as int) == former.steps.take(pos as int)
}

/// A reply that lets a run go on leaves it with what it must know after the step. The plan stays
/// but for what a genesis transaction that was read adds to later steps.
pub proof fn lemma_step_taken<E>(
    brief: Brief,
    stage: Stage,
    pos: nat,
    found: FindingsModel,
    reply: Reply<E>,
    after: FindingsModel,
)
    requires
        known(stage, pos, found),
        pos < stage_plan(brief, stage, found).steps.len(),
        fits(stage_plan(brief, stage, found).steps[pos as int].task, reply),
        assessed(found, stage_plan(brief, stage, found).steps[pos as int], reply) == Ok::<
            FindingsModel,
            Verdict<E>,
        >(after),
    ensures
        known(stage, pos + 1, after),
        same_so_far(stage_plan(brief, stage, found), stage_plan(brief, stage, after), pos + 1),
        !(stage_plan(brief, stage, found).steps[pos as int].task is ReadFile) ==> stage_plan(
            brief,
            stage,
            after,
        ) == stage_plan(brief, stage, found),
        stage_plan(brief, stage, found).steps[pos as int].task is ReadFile ==> stage is Restart,
{
    let plan = stage_plan(brief, stage, found);
    let step = plan.steps[pos as int];
    lemma_stage_steps(brief, stage, found);
    lemma_turns(brief, stage, found);
    assert(belongs(stage, step));
    if stage is Credentials {
        assert(placed(step, pos as int, found.nodes.len(), extracts(found.nodes), 2));
    }
    if stage is Restart {
        let nodes = found.nodes;
        let turns = rejoins(nodes, found.waypoints, found.geneses);
        let anew = rejoins(nodes, found.waypoints, after.geneses);
        let drawn = stage_plan(brief, stage, after);
        assert(placed(step, pos as int, nodes.len(), turns, 8));
        lemma_turns(brief, stage, after);
        assert(drawn.steps.len() == plan.steps.len());
        if step.task is ReadFile {
            assert(pos as int % 8 == 0);
            assert forall|k: int| 0 <= k <= pos implies drawn.steps[k] == plan.steps[k] by {
                assert(placed(plan.steps[k], k, nodes.len(), turns, 8));
                assert(placed(drawn.steps[k], k, nodes.len(), anew, 8));
            }
        }
        assert(drawn.steps.take(pos as int + 1) =~= plan.steps.take(pos as int + 1));
    }
}

/// What is known at the end of a stage is what the next one needs.
pub proof fn lemma_stage_done(brief: Brief, stage: Stage, found: FindingsModel)
    requires
        known(stage, stage_plan(brief, stage, found).steps.len(), found),
        stage_plan(brief, stage, found).end is Complete,
    ensures
        next_stage(brief.mission, stage) matches Some(next) ==> known(next, 0, found),
        on_route(brief.mission, stage) ==> (next_stage(brief.mission, stage) matches Some(next)
            ==> on_route(brief.mission, next)),
{
    lemma_turns(brief, stage, found);
}

} // verus!
