//! What each procedure and each stage hands out, step by step, in terms of what it is given.
use crate::findings::FindingsModel;
use crate::outside::{joined, parent_of, path_of};
use crate::plan::{
    in_turn, lemma_all_complete, lemma_in_turn, placed, CopySettings, Deadline, Ending, Fault,
    Node, NodeChanges, OnFailure, OpenSettings, PlanModel, RestoreSettings, Step, Task,
    TransferSettings,
};
use crate::procedures::{
    clone_db_plan, extract_plan, rescue_plan, restart_plan, wait_plan,
};
use crate::stages::{
    bootstraps, checks, clones, extracts, halts, lemma_turns, rejoins, spreads, stage_plan, Brief,
    Stage,
};
use std::path::PathBuf;
use vstd::prelude::*;

verus! {

/// Where a step of a validator stands when each of a number of validators takes as many steps.
proof fn lemma_turn(count: nat, plan_for: spec_fn(int) -> PlanModel, size: nat, i: int, j: int)
    requires
        size > 0,
        forall|v: int|
            0 <= v < count ==> (#[trigger] plan_for(v)).end is Complete && plan_for(v).steps.len()
                == size,
        0 <= i < count,
        0 <= j < size,
    ensures
        in_turn(count, plan_for).end is Complete,
        in_turn(count, plan_for).steps.len() == count * size,
        0 <= i * size + j < count * size,
        in_turn(count, plan_for).steps[i * size + j] == plan_for(i).steps[j],
{
    lemma_in_turn(count, plan_for, size);
    lemma_all_complete(count, plan_for);
    assert(0 <= i * size + j < count * size) by (nonlinear_arith)
        requires
            0 <= i < count,
            0 <= j < size,
    ;
    let k = i * size + j;
    vstd::arithmetic::div_mod::lemma_fundamental_div_mod_converse(k, size as int, i, j);
    assert(placed(in_turn(count, plan_for).steps[k], k, count, plan_for, size));
}

/// Where validators go through their steps one after another, the first that has a fault is the
/// last that has a turn.
proof fn lemma_first_fault(count: nat, plan_for: spec_fn(int) -> PlanModel, bad: nat)
    requires
        bad < count,
        forall|v: int| 0 <= v < bad ==> (#[trigger] plan_for(v)).end is Complete,
        !(plan_for(bad as int).end is Complete),
    ensures
        in_turn(count, plan_for).steps == in_turn(bad, plan_for).steps + plan_for(
            bad as int,
        ).steps,
        in_turn(count, plan_for).end == plan_for(bad as int).end,
    decreases count,
{
    lemma_all_complete(bad, plan_for);
    if count > bad + 1 {
        lemma_first_fault((count - 1) as nat, plan_for, bad);
    }
}

/// Replacing a database: both databases must be there; the node's own is moved into `db-old` beside
/// it and must then be gone, and what the production database holds is copied into its place.
/// Nothing is overwritten, and only a failed move or copy is an error.
pub proof fn law_steps_of_a_replacement(prod_db: PathBuf, swarm_db: PathBuf)
    ensures
        ({
            let plan = clone_db_plan(prod_db, swarm_db);
            let keep = CopySettings { overwrite: false, skip_exist: false };
            &&& plan.steps[0] == (Step {
                task: Task::RequirePresent(prod_db),
                on_failure: OnFailure::Ignore,
            })
            &&& plan.steps[1] == (Step {
                task: Task::RequirePresent(swarm_db),
                on_failure: OnFailure::Ignore,
            })
            &&& match parent_of(swarm_db) {
                None => plan.steps.len() == 2 && plan.end == Ending::Fault(Fault::NoParent),
                Some(above) => {
                    &&& plan.steps.len() == 7
                    &&& plan.end == Ending::Complete
                    &&& plan.steps[2] == (Step {
                        task: Task::CreateDir(joined(above, "db-old"@)),
                        on_failure: OnFailure::Ignore,
                    })
                    &&& plan.steps[3] == (Step {
                        task: Task::MoveDir {
                            from: swarm_db,
                            to: joined(above, "db-old"@),
                            copying: keep,
                        },
                        on_failure: OnFailure::Return,
                    })
                    &&& plan.steps[4] == (Step {
                        task: Task::RequireAbsent(swarm_db),
                        on_failure: OnFailure::Ignore,
                    })
                    &&& plan.steps[5] == (Step {
                        task: Task::CreateDir(swarm_db),
                        on_failure: OnFailure::Ignore,
                    })
                    &&& plan.steps[6] == (Step {
                        task: Task::CopyContents { from: prod_db, to: swarm_db, copying: keep },
                        on_failure: OnFailure::Return,
                    })
                },
            }
        }),
{
}

/// Waiting for a node: first for its health, on pain of the end of the process, and then for its
/// connection to the peers that are expected, each up to a deadline of its own.
pub proof fn law_steps_of_a_wait(node: usize, expected: usize)
    ensures
        ({
            let plan = wait_plan(node, expected);
            &&& plan.end == Ending::Complete
            &&& plan.steps.len() == 4
            &&& plan.steps[0] == (Step {
                task: Task::SetDeadline(Deadline::Healthy),
                on_failure: OnFailure::Return,
            })
            &&& plan.steps[1] == (Step {
                task: Task::AwaitHealthy(node),
                on_failure: OnFailure::Abort,
            })
            &&& plan.steps[2] == (Step {
                task: Task::SetDeadline(Deadline::Connectivity),
                on_failure: OnFailure::Return,
            })
            &&& plan.steps[3] == (Step {
                task: Task::AwaitConnectivity { node, expected },
                on_failure: OnFailure::Return,
            })
        }),
{
}

/// Restarting a node: it is stopped, its changed configuration is saved where it was, and it is
/// started.
pub proof fn law_steps_of_a_restart(node: usize, config_path: PathBuf, changes: NodeChanges)
    ensures
        ({
            let plan = restart_plan(node, config_path, changes);
            &&& plan.end == Ending::Complete
            &&& plan.steps.len() == 3
            &&& plan.steps[0] == (Step {
                task: Task::StopNode(node),
                on_failure: OnFailure::Ignore,
            })
            &&& plan.steps[1] == (Step {
                task: Task::SaveConfig { node, file: config_path, changes },
                on_failure: OnFailure::Return,
            })
            &&& plan.steps[2] == (Step {
                task: Task::StartNode(node),
                on_failure: OnFailure::Return,
            })
        }),
{
}

/// Making a rescue blob: the validators are added in a session on the database, and what comes of
/// it is written to `rescue.blob` in the same database.
pub proof fn law_steps_of_a_rescue(db: PathBuf)
    ensures
        ({
            let plan = rescue_plan(db);
            &&& plan.end == Ending::Complete
            &&& plan.steps.len() == 3
            &&& plan.steps[0] == (Step {
                task: Task::AddValidators(db),
                on_failure: OnFailure::Return,
            })
            &&& plan.steps[1] == (Step {
                task: Task::UnpackChangeSet,
                on_failure: OnFailure::Return,
            })
            &&& plan.steps[2] == (Step {
                task: Task::WriteFile(joined(db, "rescue.blob"@)),
                on_failure: OnFailure::Return,
            })
        }),
{
}

/// Collecting the credentials of a validator: its identity is read from the file beside its own
/// configuration, and the chain is asked for the account that this configuration names.
pub proof fn law_steps_of_an_extraction(index: usize, node: Node)
    ensures
        ({
            let plan = extract_plan(index, node);
            if node.config_account is None {
                plan.steps.len() == 0 && plan.end == Ending::Fault(Fault::NoAccount)
            } else if parent_of(node.config_path) is None {
                plan.steps.len() == 0 && plan.end == Ending::Fault(Fault::NoParent)
            } else {
                &&& plan.end == Ending::Complete
                &&& plan.steps.len() == 2
                &&& plan.steps[0] == (Step {
                    task: Task::ReadIdentity {
                        node: index,
                        file: joined(parent_of(node.config_path)->0, "public-identity.yaml"@),
                    },
                    on_failure: OnFailure::Return,
                })
                &&& plan.steps[1] == (Step {
                    task: Task::QueryView {
                        node: index,
                        function: "0x1::stake::get_validator_config",
                        account: node.config_account->0,
                    },
                    on_failure: OnFailure::Unwrap,
                })
            }
        }),
{
}

/// Every validator's identity is read from the file beside its own configuration, and the chain is
/// asked for its own account; the validators have their turns in the order of the swarm.
pub proof fn law_every_validator_shows_its_own_identity(
    brief: Brief,
    found: FindingsModel,
    i: int,
)
    requires
        0 <= i < found.nodes.len() <= usize::MAX,
        forall|v: int|
            0 <= v < found.nodes.len() ==> (#[trigger] found.nodes[v]).config_account is Some
                && parent_of(found.nodes[v].config_path) is Some,
    ensures
        ({
            let plan = stage_plan(brief, Stage::Credentials, found);
            let node = found.nodes[i];
            &&& plan.end == Ending::Complete
            &&& plan.steps.len() == 2 * found.nodes.len()
            &&& plan.steps[2 * i] == (Step {
                task: Task::ReadIdentity {
                    node: i as usize,
                    file: joined(parent_of(node.config_path)->0, "public-identity.yaml"@),
                },
                on_failure: OnFailure::Return,
            })
            &&& plan.steps[2 * i + 1] == (Step {
                task: Task::QueryView {
                    node: i as usize,
                    function: "0x1::stake::get_validator_config",
                    account: node.config_account->0,
                },
                on_failure: OnFailure::Unwrap,
            })
        }),
{
    let nodes = found.nodes;
    assert forall|v: int| 0 <= v < nodes.len() implies (#[trigger] extracts(nodes)(v)).end
        is Complete && extracts(nodes)(v).steps.len() == 2 by {
        assert(nodes[v].config_account is Some);
    }
    lemma_turn(nodes.len(), extracts(nodes), 2, i, 0);
    lemma_turn(nodes.len(), extracts(nodes), 2, i, 1);
}

/// The first validator whose account or directory is not known ends the collection, after the
/// credentials of those before it.
pub proof fn law_an_unknown_validator_ends_the_collection(
    brief: Brief,
    found: FindingsModel,
    bad: nat,
)
    requires
        bad < found.nodes.len(),
        forall|v: int|
            0 <= v < bad ==> (#[trigger] found.nodes[v]).config_account is Some && parent_of(
                found.nodes[v].config_path,
            ) is Some,
        found.nodes[bad as int].config_account is None || parent_of(
            found.nodes[bad as int].config_path,
        ) is None,
    ensures
        ({
            let plan = stage_plan(brief, Stage::Credentials, found);
            &&& plan.steps.len() == 2 * bad
            &&& plan.end == Ending::Fault(
                if found.nodes[bad as int].config_account is None {
                    Fault::NoAccount
                } else {
                    Fault::NoParent
                },
            )
        }),
{
    let nodes = found.nodes;
    assert forall|v: int| 0 <= v < bad implies (#[trigger] extracts(nodes)(v)).end is Complete
        && extracts(nodes)(v).steps.len() == 2 by {
        assert(nodes[v].config_account is Some);
    }
    lemma_in_turn(bad, extracts(nodes), 2);
    lemma_all_complete(bad, extracts(nodes));
    lemma_first_fault(nodes.len(), extracts(nodes), bad);
}

/// Every validator's database is replaced, and by a copy of the production database: all validators
/// are stopped and cleared first, then each one's own database is moved away and copied to, and
/// last each must be there. An error of a replacement is a panic.
pub proof fn law_every_database_is_replaced(brief: Brief, found: FindingsModel, i: int)
    requires
        0 <= i < found.nodes.len() <= usize::MAX,
        forall|v: int|
            0 <= v < found.nodes.len() ==> parent_of(
                (#[trigger] found.nodes[v]).storage_dir,
            ) is Some,
    ensures
        ({
            let plan = stage_plan(brief, Stage::Replace, found);
            let n = found.nodes.len();
            let db = found.nodes[i].storage_dir;
            let old_db = joined(parent_of(db)->0, "db-old"@);
            let keep = CopySettings { overwrite: false, skip_exist: false };
            let turn = 2 * n + 7 * i;
            &&& plan.end == Ending::Complete
            &&& plan.steps.len() == 10 * n
            &&& plan.steps[2 * i] == (Step {
                task: Task::StopNode(i as usize),
                on_failure: OnFailure::Ignore,
            })
            &&& plan.steps[2 * i + 1] == (Step {
                task: Task::ClearStorage(i as usize),
                on_failure: OnFailure::Ignore,
            })
            &&& plan.steps[turn] == (Step {
                task: Task::RequirePresent(brief.db),
                on_failure: OnFailure::Ignore,
            })
            &&& plan.steps[turn + 1] == (Step {
                task: Task::RequirePresent(db),
                on_failure: OnFailure::Ignore,
            })
            &&& plan.steps[turn + 2] == (Step {
                task: Task::CreateDir(old_db),
                on_failure: OnFailure::Ignore,
            })
            &&& plan.steps[turn + 3] == (Step {
                task: Task::MoveDir { from: db, to: old_db, copying: keep },
                on_failure: OnFailure::Unwrap,
            })
            &&& plan.steps[turn + 4] == (Step {
                task: Task::RequireAbsent(db),
                on_failure: OnFailure::Ignore,
            })
            &&& plan.steps[turn + 5] == (Step {
                task: Task::CreateDir(db),
                on_failure: OnFailure::Ignore,
            })
            &&& plan.steps[turn + 6] == (Step {
                task: Task::CopyContents { from: brief.db, to: db, copying: keep },
                on_failure: OnFailure::Unwrap,
            })
            &&& plan.steps[9 * n + i] == (Step {
                task: Task::RequirePresent(db),
                on_failure: OnFailure::Ignore,
            })
        }),
{
    let nodes = found.nodes;
    let n = nodes.len();
    let plan = stage_plan(brief, Stage::Replace, found);
    let halting = in_turn(n, halts());
    let cloning = in_turn(n, clones(brief.db, nodes));
    let checking = in_turn(n, checks(nodes));
    assert forall|v: int| 0 <= v < n implies (#[trigger] clones(brief.db, nodes)(v)).end
        is Complete && clones(brief.db, nodes)(v).steps.len() == 7 by {
        assert(parent_of(nodes[v].storage_dir) is Some);
    }
    lemma_turn(n, halts(), 2, i, 0);
    lemma_turn(n, halts(), 2, i, 1);
    lemma_turn(n, checks(nodes), 1, i, 0);
    assert forall|j: int| 0 <= j < 7 implies (#[trigger] plan.steps[2 * n + 7 * i + j]) == clones(
        brief.db,
        nodes,
    )(i).steps[j] by {
        lemma_turn(n, clones(brief.db, nodes), 7, i, j);
        assert(plan.steps[2 * n + 7 * i + j] == cloning.steps[i * 7 + j]);
    }
    lemma_turn(n, clones(brief.db, nodes), 7, i, 0);
    assert(plan.steps[2 * i] == halting.steps[i * 2 + 0]);
    assert(plan.steps[2 * i + 1] == halting.steps[i * 2 + 1]);
    assert(plan.steps[9 * n + i] == checking.steps[i * 1 + 0]);
    assert(plan.steps[2 * n + 7 * i + 0] == clones(brief.db, nodes)(i).steps[0]);
}

/// Whether the copy of a validator, and no other of its steps of replacing, copies, and into the
/// validator's own database.
spec fn copies_in_its_place(steps: Seq<Step>, nodes: Seq<Node>, i: int) -> bool {
    let n = nodes.len();
    let turn = 2 * n + 7 * i;
    &&& !(steps[2 * i].task is CopyContents)
    &&& !(steps[2 * i + 1].task is CopyContents)
    &&& !(steps[turn].task is CopyContents)
    &&& !(steps[turn + 1].task is CopyContents)
    &&& !(steps[turn + 2].task is CopyContents)
    &&& !(steps[turn + 3].task is CopyContents)
    &&& !(steps[turn + 4].task is CopyContents)
    &&& !(steps[turn + 5].task is CopyContents)
    &&& steps[turn + 6].task is CopyContents
    &&& steps[turn + 6].task->CopyContents_to == nodes[i].storage_dir
    &&& !(steps[9 * n + i].task is CopyContents)
}

/// Where the copies stand among the steps of replacing.
proof fn lemma_copies(steps: Seq<Step>, nodes: Seq<Node>, k: int)
    requires
        nodes.len() > 0,
        steps.len() == 10 * nodes.len(),
        forall|i: int| 0 <= i < nodes.len() ==> #[trigger] copies_in_its_place(steps, nodes, i),
        0 <= k < steps.len(),
        steps[k].task is CopyContents,
    ensures
        ({
            let i = (k - 2 * nodes.len() - 6) / 7;
            &&& 0 <= i < nodes.len()
            &&& k == 2 * nodes.len() + 7 * i + 6
            &&& steps[k].task->CopyContents_to == nodes[i].storage_dir
        }),
{
    let n = nodes.len();
    if k < 2 * n {
        let i = k / 2;
        assert(copies_in_its_place(steps, nodes, i));
        assert(k == 2 * i || k == 2 * i + 1);
    } else if k < 9 * n {
        let i = (k - 2 * n) / 7;
        let j = (k - 2 * n) % 7;
        assert(0 <= i < n && 0 <= j < 7 && k == 2 * n + 7 * i + j);
        assert(copies_in_its_place(steps, nodes, i));
        assert(j == 6);
        assert((k - 2 * n - 6) / 7 == i);
    } else {
        assert(copies_in_its_place(steps, nodes, k - 9 * n));
    }
}

/// The production database goes to every validator once, and to no other place: each copy is made
/// into a validator's own database.
pub proof fn law_every_copy_has_its_validator(brief: Brief, found: FindingsModel, k: int)
    requires
        0 < found.nodes.len() <= usize::MAX,
        forall|v: int|
            0 <= v < found.nodes.len() ==> parent_of(
                (#[trigger] found.nodes[v]).storage_dir,
            ) is Some,
        0 <= k < stage_plan(brief, Stage::Replace, found).steps.len(),
        stage_plan(brief, Stage::Replace, found).steps[k].task is CopyContents,
    ensures
        ({
            let i = (k - 2 * found.nodes.len() - 6) / 7;
            &&& 0 <= i < found.nodes.len()
            &&& k == 2 * found.nodes.len() + 7 * i + 6
            &&& stage_plan(brief, Stage::Replace, found).steps[k].task->CopyContents_to
                == found.nodes[i].storage_dir
        }),
{
    let steps = stage_plan(brief, Stage::Replace, found).steps;
    law_every_database_is_replaced(brief, found, 0);
    assert forall|i: int| 0 <= i < found.nodes.len() implies #[trigger] copies_in_its_place(
        steps,
        found.nodes,
        i,
    ) by {
        law_every_database_is_replaced(brief, found, i);
    }
    lemma_copies(steps, found.nodes, k);
}

/// The first validator whose database lies nowhere ends the replacing, once every validator is
/// stopped, the databases before it are replaced and both its databases are there.
pub proof fn law_an_unknown_directory_ends_the_replacing(
    brief: Brief,
    found: FindingsModel,
    bad: nat,
)
    requires
        bad < found.nodes.len(),
        forall|v: int| 0 <= v < bad ==> parent_of((#[trigger] found.nodes[v]).storage_dir) is Some,
        parent_of(found.nodes[bad as int].storage_dir) is None,
    ensures
        ({
            let plan = stage_plan(brief, Stage::Replace, found);
            &&& plan.steps.len() == 2 * found.nodes.len() + 7 * bad + 2
            &&& plan.end == Ending::Fault(Fault::NoParent)
        }),
{
    let nodes = found.nodes;
    let turns = clones(brief.db, nodes);
    assert forall|v: int| 0 <= v < bad implies (#[trigger] turns(v)).end is Complete && turns(
        v,
    ).steps.len() == 7 by {
        assert(parent_of(nodes[v].storage_dir) is Some);
    }
    lemma_in_turn(nodes.len(), halts(), 2);
    lemma_all_complete(nodes.len(), halts());
    lemma_in_turn(bad, turns, 7);
    lemma_all_complete(bad, turns);
    lemma_first_fault(nodes.len(), turns, bad);
}

/// The rescue blob is made in the database of the first validator, and copied from there into the
/// database of each of the others. Without a validator there is none.
pub proof fn law_steps_of_the_rescue(brief: Brief, found: FindingsModel, i: int)
    requires
        found.nodes.len() > 0 ==> 0 <= i < found.nodes.len(),
    ensures
        ({
            let plan = stage_plan(brief, Stage::Rescue, found);
            let first = found.nodes[0].storage_dir;
            if found.nodes.len() == 0 {
                plan.steps.len() == 0 && plan.end == Ending::Fault(Fault::NoValidators)
            } else {
                &&& plan.end == Ending::Complete
                &&& plan.steps.len() == found.nodes.len() + 2
                &&& plan.steps[0] == (Step {
                    task: Task::AddValidators(first),
                    on_failure: OnFailure::Return,
                })
                &&& plan.steps[1] == (Step {
                    task: Task::UnpackChangeSet,
                    on_failure: OnFailure::Return,
                })
                &&& plan.steps[2] == (Step {
                    task: Task::WriteFile(joined(first, "rescue.blob"@)),
                    on_failure: OnFailure::Return,
                })
                &&& i > 0 ==> plan.steps[i + 2] == (Step {
                    task: Task::CopyFile {
                        from: joined(first, "rescue.blob"@),
                        to: joined(found.nodes[i].storage_dir, "rescue.blob"@),
                    },
                    on_failure: OnFailure::Return,
                })
            }
        }),
{
    let nodes = found.nodes;
    if nodes.len() > 0 {
        let others = (nodes.len() - 1) as nat;
        let plan = stage_plan(brief, Stage::Rescue, found);
        lemma_in_turn(others, spreads(nodes), 1);
        lemma_all_complete(others, spreads(nodes));
        if i > 0 {
            lemma_turn(others, spreads(nodes), 1, i - 1, 0);
            assert(plan.steps[i + 2] == in_turn(others, spreads(nodes)).steps[(i - 1) * 1 + 0]);
        }
    }
}

/// Every database is bootstrapped with the blob in it: first to try it, and after a pause of ten
/// seconds for good. No waypoint is asked for in advance.
pub proof fn law_steps_of_the_bootstrap(brief: Brief, found: FindingsModel, i: int)
    requires
        0 <= i < found.nodes.len(),
    ensures
        ({
            let plan = stage_plan(brief, Stage::Bootstrap, found);
            let db = found.nodes[i].storage_dir;
            &&& plan.end == Ending::Complete
            &&& plan.steps.len() == 3 * found.nodes.len()
            &&& plan.steps[3 * i] == (Step {
                task: Task::Bootstrap {
                    db,
                    genesis: joined(db, "rescue.blob"@),
                    commit: false,
                    waypoint_to_verify: None,
                    info: false,
                },
                on_failure: OnFailure::Return,
            })
            &&& plan.steps[3 * i + 1] == (Step {
                task: Task::Pause { seconds: 10 },
                on_failure: OnFailure::Ignore,
            })
            &&& plan.steps[3 * i + 2] == (Step {
                task: Task::Bootstrap {
                    db,
                    genesis: joined(db, "rescue.blob"@),
                    commit: true,
                    waypoint_to_verify: None,
                    info: false,
                },
                on_failure: OnFailure::Unwrap,
            })
        }),
{
    let nodes = found.nodes;
    lemma_turn(nodes.len(), bootstraps(nodes), 3, i, 0);
    lemma_turn(nodes.len(), bootstraps(nodes), 3, i, 1);
    lemma_turn(nodes.len(), bootstraps(nodes), 3, i, 2);
}

/// Every validator is started on its own database: with its own waypoint, the blob in its own
/// database and the genesis transaction that was read from it; it waits for as many peers as there
/// are validators before it.
pub proof fn law_steps_of_the_restart(brief: Brief, found: FindingsModel, i: int)
    requires
        0 <= i < found.nodes.len() <= usize::MAX,
    ensures
        ({
            let plan = stage_plan(brief, Stage::Restart, found);
            let node = found.nodes[i];
            let blob = joined(node.storage_dir, "rescue.blob"@);
            &&& plan.end == Ending::Complete
            &&& plan.steps.len() == 8 * found.nodes.len()
            &&& plan.steps[8 * i] == (Step {
                task: Task::ReadFile(blob),
                on_failure: OnFailure::Unwrap,
            })
            &&& plan.steps[8 * i + 1] == (Step {
                task: Task::StopNode(i as usize),
                on_failure: OnFailure::Ignore,
            })
            &&& i < found.geneses.len() ==> plan.steps[8 * i + 2] == (Step {
                task: Task::SaveConfig {
                    node: i as usize,
                    file: node.config_path,
                    changes: NodeChanges {
                        waypoint: found.waypoints[i],
                        identity_blob: blob,
                        genesis: Some(found.geneses[i]),
                        sync_only: false,
                    },
                },
                on_failure: OnFailure::Return,
            })
            &&& plan.steps[8 * i + 3] == (Step {
                task: Task::StartNode(i as usize),
                on_failure: OnFailure::Return,
            })
            &&& plan.steps[8 * i + 4] == (Step {
                task: Task::SetDeadline(Deadline::Healthy),
                on_failure: OnFailure::Return,
            })
            &&& plan.steps[8 * i + 5] == (Step {
                task: Task::AwaitHealthy(i as usize),
                on_failure: OnFailure::Abort,
            })
            &&& plan.steps[8 * i + 6] == (Step {
                task: Task::SetDeadline(Deadline::Connectivity),
                on_failure: OnFailure::Return,
            })
            &&& plan.steps[8 * i + 7] == (Step {
                task: Task::AwaitConnectivity { node: i as usize, expected: i as usize },
                on_failure: OnFailure::Return,
            })
        }),
{
    lemma_turns(brief, Stage::Restart, found);
    let nodes = found.nodes;
    let plan = stage_plan(brief, Stage::Restart, found);
    let turns = rejoins(nodes, found.waypoints, found.geneses);
    assert forall|j: int| 0 <= j < 8 implies (#[trigger] plan.steps[8 * i + j]) == turns(
        i,
    ).steps[j] by {
        lemma_turn(nodes.len(), turns, 8, i, j);
    }
    assert(plan.steps[8 * i + 0] == turns(i).steps[0]);
}

/// Once the validators are running, the network has ten seconds to be live; whether it is does not
/// matter. Then the first validator's command line is configured in a scratch directory, and one
/// coin is sent to the second validator, signed with the swarm's key, between two readings of that
/// validator's balance.
pub proof fn law_steps_of_the_transfer(brief: Brief, found: FindingsModel)
    ensures
        ({
            let live = stage_plan(brief, Stage::Liveness, found);
            let plan = stage_plan(brief, Stage::Transfer, found);
            let recipient = found.nodes[1].peer_id;
            &&& live.end == Ending::Complete
            &&& live.steps.len() == 3
            &&& live.steps[0] == (Step {
                task: Task::SetDeadline(Deadline::Seconds(10)),
                on_failure: OnFailure::Unwrap,
            })
            &&& live.steps[1] == (Step {
                task: Task::CheckLiveness,
                on_failure: OnFailure::Ignore,
            })
            &&& live.steps[2] == (Step { task: Task::ScratchDir, on_failure: OnFailure::Ignore })
            &&& found.nodes.len() < 2 ==> plan.steps.len() == 1 && plan.end == Ending::Fault(
                Fault::NoRecipient,
            )
            &&& found.nodes.len() >= 2 ==> plan.steps.len() == 4 && plan.end == Ending::Complete
            &&& plan.steps[0].task is InitValidatorConfig
            &&& found.nodes.len() >= 2 ==> plan.steps[2].task is SendTransfer
            &&& found.scratch matches Some(scratch) ==> {
                &&& plan.steps[0] == (Step {
                    task: Task::InitValidatorConfig { node: 0, dir: scratch },
                    on_failure: OnFailure::Unwrap,
                })
                &&& found.nodes.len() >= 2 ==> {
                    &&& plan.steps[1] == (Step {
                        task: Task::ReadBalance(recipient),
                        on_failure: OnFailure::Return,
                    })
                    &&& found.signing_key is Some && found.api_endpoint is Some ==> plan.steps[2]
                        == (Step {
                        task: Task::SendTransfer {
                            recipient,
                            coins: 1,
                            config: joined(scratch, "libra-cli-config.yaml"@),
                            sending: TransferSettings {
                                signing_key: found.signing_key->0,
                                url: found.api_endpoint->0,
                                estimate_only: false,
                                legacy_address: false,
                            },
                        },
                        on_failure: OnFailure::Unwrap,
                    })
                    &&& plan.steps[3] == (Step {
                        task: Task::ReadBalance(recipient),
                        on_failure: OnFailure::Return,
                    })
                }
            }
        }),
{
}

/// A take-over finds out where it was started, and starts as many validators as it is asked for,
/// with the node binary that lies there.
pub proof fn law_steps_of_the_launch(brief: Brief, found: FindingsModel)
    ensures
        ({
            let locate = stage_plan(brief, Stage::Locate, found);
            let launch = stage_plan(brief, Stage::Launch, found);
            &&& locate.end == Ending::Complete
            &&& locate.steps.len() == 1
            &&& locate.steps[0] == (Step { task: Task::CurrentDir, on_failure: OnFailure::Return })
            &&& launch.end == Ending::Complete
            &&& launch.steps.len() == 1
            &&& found.current_dir matches Some(dir) ==> launch.steps[0] == (Step {
                task: Task::StartSwarm {
                    validators: brief.validators,
                    binary: Some(joined(dir, "tests/diem-proxy"@)),
                },
                on_failure: OnFailure::Return,
            })
        }),
{
}

/// A fresh validator is started on its own and has ten seconds to be alive; then it is stopped. Its
/// configuration must lie in a directory.
pub proof fn law_steps_of_a_hatching(brief: Brief, found: FindingsModel)
    ensures
        ({
            let hatch = stage_plan(brief, Stage::Hatch, found);
            let halt = stage_plan(brief, Stage::Halt, found);
            &&& hatch.end == Ending::Complete
            &&& hatch.steps.len() == 2
            &&& hatch.steps[0] == (Step {
                task: Task::StartSwarm { validators: 1, binary: None },
                on_failure: OnFailure::Return,
            })
            &&& hatch.steps[1] == (Step {
                task: Task::AwaitAllAlive { seconds: 10 },
                on_failure: OnFailure::Return,
            })
            &&& if found.nodes.len() == 0 {
                halt.steps.len() == 0 && halt.end == Ending::Fault(Fault::NoValidators)
            } else {
                &&& halt.steps.len() == 1
                &&& halt.steps[0] == (Step {
                    task: Task::StopNode(0),
                    on_failure: OnFailure::Ignore,
                })
                &&& halt.end == if parent_of(found.nodes[0].config_path) is Some {
                    Ending::Complete
                } else {
                    Ending::Fault(Fault::NoParent)
                }
            }
        }),
{
}

/// The archive of snapshots is brought up to date if it is there, and cloned if it is not; either
/// way its entries are listed.
pub proof fn law_steps_of_a_fetch(brief: Brief, found: FindingsModel)
    ensures
        ({
            let look = stage_plan(brief, Stage::Archive, found);
            let fetch = stage_plan(brief, Stage::Fetch, found);
            let archive = path_of("snapshots"@);
            let list = Step {
                task: Task::ListSnapshots(archive),
                on_failure: OnFailure::Unwrap,
            };
            &&& look.end == Ending::Complete
            &&& look.steps.len() == 1
            &&& look.steps[0] == (Step {
                task: Task::LookForArchive(archive),
                on_failure: OnFailure::Ignore,
            })
            &&& fetch.end == Ending::Complete
            &&& found.archive_found == Some(true) ==> {
                &&& fetch.steps.len() == 4
                &&& fetch.steps[0] == (Step {
                    task: Task::OpenRepository(archive),
                    on_failure: OnFailure::Unwrap,
                })
                &&& fetch.steps[1] == (Step {
                    task: Task::FindRemote("origin"),
                    on_failure: OnFailure::Unwrap,
                })
                &&& fetch.steps[2] == (Step {
                    task: Task::Fetch("refs/heads/v7.0.0"),
                    on_failure: OnFailure::Unwrap,
                })
                &&& fetch.steps[3] == list
            }
            &&& found.archive_found == Some(false) ==> {
                &&& fetch.steps.len() == 2
                &&& fetch.steps[0] == (Step {
                    task: Task::CloneRepository {
                        url: "https://github.com/0LNetworkCommunity/epoch-archive-mainnet.git",
                        into: archive,
                    },
                    on_failure: OnFailure::Unwrap,
                })
                &&& fetch.steps[1] == list
            }
        }),
{
}

/// The snapshot that was found to be the latest is the one that is restored: its manifest must be
/// there, a database in the way is removed, and the database is made, opened and restored from that
/// manifest and that snapshot.
pub proof fn law_steps_of_a_restore(
    brief: Brief,
    found: FindingsModel,
    latest: PathBuf,
    cleared: int,
)
    requires
        found.latest == Some(latest),
        found.db_found is Some,
        cleared == if found.db_found == Some(true) {
            1int
        } else {
            0
        },
    ensures
        ({
            let look = stage_plan(brief, Stage::Manifest, found);
            let plan = stage_plan(brief, Stage::Restore, found);
            let manifest = joined(latest, "epoch_ending.manifest"@);
            &&& look.end == Ending::Complete
            &&& look.steps.len() == 2
            &&& look.steps[0] == (Step {
                task: Task::RequireManifest(manifest),
                on_failure: OnFailure::Ignore,
            })
            &&& look.steps[1] == (Step {
                task: Task::LookForDatabase(brief.db),
                on_failure: OnFailure::Ignore,
            })
            &&& plan.end == Ending::Complete
            &&& plan.steps.len() == cleared + 3
            &&& cleared == 1 ==> plan.steps[0] == (Step {
                task: Task::RemoveDirAll(brief.db),
                on_failure: OnFailure::Unwrap,
            })
            &&& plan.steps[cleared] == (Step {
                task: Task::CreateDirAll(brief.db),
                on_failure: OnFailure::Unwrap,
            })
            &&& plan.steps[cleared + 1] == (Step {
                task: Task::OpenDatabase {
                    db: brief.db,
                    options: OpenSettings {
                        readonly: false,
                        enable_indexer: false,
                        buffered_state_target_items: 0,
                        max_nodes_per_cache_shard: 0,
                    },
                },
                on_failure: OnFailure::Unwrap,
            })
            &&& plan.steps[cleared + 2] == (Step {
                task: Task::RestoreSnapshot {
                    manifest,
                    storage: latest,
                    settings: RestoreSettings {
                        version: 0,
                        validate_modules: false,
                        target_version: 0,
                        concurrent_downloads: 4,
                        replay_concurrency_level: 0,
                    },
                },
                on_failure: OnFailure::Unwrap,
            })
        }),
{
}

/// What a run reports on is its own database, whatever comes of it; what it ends with, if it is to
/// leave the network running, is parking.
pub proof fn law_steps_around_a_run(brief: Brief, found: FindingsModel)
    ensures
        ({
            let inspect = stage_plan(brief, Stage::Inspect, found);
            let park = stage_plan(brief, Stage::Park, found);
            &&& inspect.end == Ending::Complete
            &&& inspect.steps.len() == 1
            &&& inspect.steps[0] == (Step {
                task: Task::ReportDatabase(brief.db),
                on_failure: OnFailure::Ignore,
            })
            &&& park.end == Ending::Complete
            &&& park.steps.len() == 1
            &&& park.steps[0] == (Step { task: Task::Park, on_failure: OnFailure::Ignore })
        }),
{
}

} // verus!
