//! The plans of the single procedures: replacing a database, waiting for a node, restarting it,
//! making the rescue blob, and so on.
use crate::outside::{join, joined, parent, parent_of};
use crate::plan::{
    add_step, broken, empty_plan, free, returning, unwrapping, whole, CopySettings, Deadline,
    Ending, Fault, Node, NodeChanges, OnFailure, Plan, PlanModel, Step, Task,
};
use diem_types::transaction::Transaction;
use diem_types::waypoint::Waypoint;
use std::path::PathBuf;
use vstd::prelude::*;

verus! {

/// Where the rescue blob of a database lies.
pub open spec fn blob_in(db: PathBuf) -> PathBuf {
    joined(db, "rescue.blob"@)
}

/// Nothing that is already there is written over, or passed over.
pub open spec fn no_overwriting() -> CopySettings {
    CopySettings { overwrite: false, skip_exist: false }
}

/// Puts a copy of the production database in the place of a node's own: the own database is
/// moved into `db-old` beside it, and what the production database holds is copied into its place.
pub open spec fn clone_db_plan(prod_db: PathBuf, swarm_db: PathBuf) -> PlanModel {
    match parent_of(swarm_db) {
        Some(above) => whole(
            seq![
                free(Task::RequirePresent(prod_db)),
                free(Task::RequirePresent(swarm_db)),
                free(Task::CreateDir(joined(above, "db-old"@))),
                returning(
                    Task::MoveDir {
                        from: swarm_db,
                        to: joined(above, "db-old"@),
                        copying: no_overwriting(),
                    },
                ),
                free(Task::RequireAbsent(swarm_db)),
                free(Task::CreateDir(swarm_db)),
                returning(
                    Task::CopyContents { from: prod_db, to: swarm_db, copying: no_overwriting() },
                ),
            ],
        ),
        None => broken(
            seq![free(Task::RequirePresent(prod_db)), free(Task::RequirePresent(swarm_db))],
            Fault::NoParent,
        ),
    }
}

/// Waits until a node is healthy and connected to the number of peers that is expected.
pub open spec fn wait_plan(node: usize, expected: usize) -> PlanModel {
    whole(
        seq![
            returning(Task::SetDeadline(Deadline::Healthy)),
            Step { task: Task::AwaitHealthy(node), on_failure: OnFailure::Abort },
            returning(Task::SetDeadline(Deadline::Connectivity)),
            returning(Task::AwaitConnectivity { node, expected }),
        ],
    )
}

/// Stops a node, saves its changed configuration and starts it again.
pub open spec fn restart_plan(
    node: usize,
    config_path: PathBuf,
    changes: NodeChanges,
) -> PlanModel {
    whole(
        seq![
            free(Task::StopNode(node)),
            returning(Task::SaveConfig { node, file: config_path, changes }),
            returning(Task::StartNode(node)),
        ],
    )
}

/// Makes the rescue blob of a database.
pub open spec fn rescue_plan(db: PathBuf) -> PlanModel {
    whole(
        seq![
            returning(Task::AddValidators(db)),
            returning(Task::UnpackChangeSet),
            returning(Task::WriteFile(blob_in(db))),
        ],
    )
}

/// Reads the identity file of a node, which lies beside its configuration, and asks the chain
/// how the node's account is registered.
pub open spec fn extract_plan(index: usize, node: Node) -> PlanModel {
    match (node.config_account, parent_of(node.config_path)) {
        (None, _) => broken(seq![], Fault::NoAccount),
        (_, None) => broken(seq![], Fault::NoParent),
        (Some(account), Some(above)) => whole(
            seq![
                returning(
                    Task::ReadIdentity {
                        node: index,
                        file: joined(above, "public-identity.yaml"@),
                    },
                ),
                unwrapping(
                    Task::QueryView {
                        node: index,
                        function: "0x1::stake::get_validator_config",
                        account,
                    },
                ),
            ],
        ),
    }
}

/// Stops a node and clears its storage.
pub open spec fn halt_plan(node: usize) -> PlanModel {
    whole(seq![free(Task::StopNode(node)), free(Task::ClearStorage(node))])
}

/// Makes sure that a database is there.
pub open spec fn check_plan(db: PathBuf) -> PlanModel {
    whole(seq![free(Task::RequirePresent(db))])
}

/// Copies a rescue blob to the place where the blob of another database lies.
pub open spec fn spread_plan(blob: PathBuf, db: PathBuf) -> PlanModel {
    whole(seq![returning(Task::CopyFile { from: blob, to: blob_in(db) })])
}

/// The bootstrap of a database with its rescue blob, whatever waypoint comes of it.
pub open spec fn bootstrapping(db: PathBuf, commit: bool) -> Task {
    Task::Bootstrap {
        db,
        genesis: blob_in(db),
        commit,
        waypoint_to_verify: None,
        info: false,
    }
}

/// Bootstraps a database with its rescue blob: first to try it, and after a pause for good.
pub open spec fn bootstrap_plan(db: PathBuf) -> PlanModel {
    whole(
        seq![
            returning(bootstrapping(db, false)),
            free(Task::Pause { seconds: 10 }),
            unwrapping(bootstrapping(db, true)),
        ],
    )
}

/// Reads the genesis transaction in the rescue blob of a database.
pub open spec fn read_plan(db: PathBuf) -> PlanModel {
    whole(seq![unwrapping(Task::ReadFile(blob_in(db)))])
}

/// What the configuration of a node is changed to: its waypoint, its blob, the genesis transaction
/// in that blob once it is known, and no mere synchronising.
pub open spec fn changes_for(
    node: Node,
    waypoint: Waypoint,
    genesis: Option<Transaction>,
) -> NodeChanges {
    NodeChanges { waypoint, identity_blob: blob_in(node.storage_dir), genesis, sync_only: false }
}

/// Where the rescue blob of a database lies.
pub fn rescue_file(db: &PathBuf) -> (r: PathBuf)
    ensures
        r == blob_in(*db),
        r == joined(*db, "rescue.blob"@),
{
    join(db, "rescue.blob")
}

/// See [`clone_db_plan`].
pub(crate) fn plan_clone_db(prod_db: &PathBuf, swarm_db: &PathBuf) -> (r: Plan)
    ensures
        r@ == clone_db_plan(*prod_db, *swarm_db),
{
    let mut plan = empty_plan();
    add_step(&mut plan, Task::RequirePresent(prod_db.clone()), OnFailure::Ignore);
    add_step(&mut plan, Task::RequirePresent(swarm_db.clone()), OnFailure::Ignore);
    match parent(swarm_db) {
        Some(above) => {
            let old_path = join(&above, "db-old");
            let copying = CopySettings { overwrite: false, skip_exist: false };
            add_step(&mut plan, Task::CreateDir(old_path.clone()), OnFailure::Ignore);
            add_step(
                &mut plan,
                Task::MoveDir { from: swarm_db.clone(), to: old_path, copying },
                OnFailure::Return,
            );
            add_step(&mut plan, Task::RequireAbsent(swarm_db.clone()), OnFailure::Ignore);
            add_step(&mut plan, Task::CreateDir(swarm_db.clone()), OnFailure::Ignore);
            add_step(
                &mut plan,
                Task::CopyContents { from: prod_db.clone(), to: swarm_db.clone(), copying },
                OnFailure::Return,
            );
        },
        None => {
            plan.end = Ending::Fault(Fault::NoParent);
        },
    }
    assert(plan@.steps =~= clone_db_plan(*prod_db, *swarm_db).steps);
    plan
}

/// See [`wait_plan`].
pub(crate) fn plan_wait(node: usize, expected: usize) -> (r: Plan)
    ensures
        r@ == wait_plan(node, expected),
{
    let mut plan = empty_plan();
    add_step(&mut plan, Task::SetDeadline(Deadline::Healthy), OnFailure::Return);
    add_step(&mut plan, Task::AwaitHealthy(node), OnFailure::Abort);
    add_step(&mut plan, Task::SetDeadline(Deadline::Connectivity), OnFailure::Return);
    add_step(&mut plan, Task::AwaitConnectivity { node, expected }, OnFailure::Return);
    assert(plan@.steps =~= wait_plan(node, expected).steps);
    plan
}

/// See [`restart_plan`].
pub(crate) fn plan_restart(node: usize, config_path: &PathBuf, changes: NodeChanges) -> (r: Plan)
    ensures
        r@ == restart_plan(node, *config_path, changes),
{
    let mut plan = empty_plan();
    add_step(&mut plan, Task::StopNode(node), OnFailure::Ignore);
    add_step(
        &mut plan,
        Task::SaveConfig { node, file: config_path.clone(), changes },
        OnFailure::Return,
    );
    add_step(&mut plan, Task::StartNode(node), OnFailure::Return);
    assert(plan@.steps =~= restart_plan(node, *config_path, changes).steps);
    plan
}

/// See [`rescue_plan`].
pub(crate) fn plan_rescue(db: &PathBuf) -> (r: Plan)
    ensures
        r@ == rescue_plan(*db),
{
    let mut plan = empty_plan();
    add_step(&mut plan, Task::AddValidators(db.clone()), OnFailure::Return);
    add_step(&mut plan, Task::UnpackChangeSet, OnFailure::Return);
    add_step(&mut plan, Task::WriteFile(rescue_file(db)), OnFailure::Return);
    assert(plan@.steps =~= rescue_plan(*db).steps);
    plan
}

/// See [`extract_plan`].
pub(crate) fn plan_extract(index: usize, node: &Node) -> (r: Plan)
    ensures
        r@ == extract_plan(index, *node),
{
    let mut plan = empty_plan();
    match node.config_account {
        Some(account) => match parent(&node.config_path) {
            Some(above) => {
                add_step(
                    &mut plan,
                    Task::ReadIdentity { node: index, file: join(&above, "public-identity.yaml") },
                    OnFailure::Return,
                );
                add_step(
                    &mut plan,
                    Task::QueryView {
                        node: index,
                        function: "0x1::stake::get_validator_config",
                        account,
                    },
                    OnFailure::Unwrap,
                );
            },
            None => {
                plan.end = Ending::Fault(Fault::NoParent);
            },
        },
        None => {
            plan.end = Ending::Fault(Fault::NoAccount);
        },
    }
    assert(plan@.steps =~= extract_plan(index, *node).steps);
    plan
}

/// See [`halt_plan`].
pub(crate) fn plan_halt(node: usize) -> (r: Plan)
    ensures
        r@ == halt_plan(node),
{
    let mut plan = empty_plan();
    add_step(&mut plan, Task::StopNode(node), OnFailure::Ignore);
    add_step(&mut plan, Task::ClearStorage(node), OnFailure::Ignore);
    assert(plan@.steps =~= halt_plan(node).steps);
    plan
}

/// See [`check_plan`].
pub(crate) fn plan_check(db: &PathBuf) -> (r: Plan)
    ensures
        r@ == check_plan(*db),
{
    let mut plan = empty_plan();
    add_step(&mut plan, Task::RequirePresent(db.clone()), OnFailure::Ignore);
    assert(plan@.steps =~= check_plan(*db).steps);
    plan
}

/// See [`spread_plan`].
pub(crate) fn plan_spread(blob: &PathBuf, db: &PathBuf) -> (r: Plan)
    ensures
        r@ == spread_plan(*blob, *db),
{
    let mut plan = empty_plan();
    add_step(
        &mut plan,
        Task::CopyFile { from: blob.clone(), to: rescue_file(db) },
        OnFailure::Return,
    );
    assert(plan@.steps =~= spread_plan(*blob, *db).steps);
    plan
}

/// See [`bootstrapping`].
fn bootstrap_task(db: &PathBuf, commit: bool) -> (r: Task)
    ensures
        r == bootstrapping(*db, commit),
{
    Task::Bootstrap {
        db: db.clone(),
        genesis: rescue_file(db),
        commit,
        waypoint_to_verify: None,
        info: false,
    }
}

/// See [`bootstrap_plan`].
pub(crate) fn plan_bootstrap(db: &PathBuf) -> (r: Plan)
    ensures
        r@ == bootstrap_plan(*db),
{
    let mut plan = empty_plan();
    add_step(&mut plan, bootstrap_task(db, false), OnFailure::Return);
    add_step(&mut plan, Task::Pause { seconds: 10 }, OnFailure::Ignore);
    add_step(&mut plan, bootstrap_task(db, true), OnFailure::Unwrap);
    assert(plan@.steps =~= bootstrap_plan(*db).steps);
    plan
}

/// See [`read_plan`].
pub(crate) fn plan_read(db: &PathBuf) -> (r: Plan)
    ensures
        r@ == read_plan(*db),
{
    let mut plan = empty_plan();
    add_step(&mut plan, Task::ReadFile(rescue_file(db)), OnFailure::Unwrap);
    assert(plan@.steps =~= read_plan(*db).steps);
    plan
}

/// See [`changes_for`].
pub(crate) fn node_changes(
    node: &Node,
    waypoint: Waypoint,
    genesis: Option<Transaction>,
) -> (r: NodeChanges)
    ensures
        r == changes_for(*node, waypoint, genesis),
{
    NodeChanges {
        waypoint,
        identity_blob: rescue_file(&node.storage_dir),
        genesis,
        sync_only: false,
    }
}

} // verus!
