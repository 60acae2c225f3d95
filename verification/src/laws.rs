//! What holds of runs as a whole.
use crate::credentials::{
    answer_digits, credentials_of, CredentialFault, CredentialsModel, IdentityModel,
};
use crate::errand::played;
use crate::findings::{assessed, nothing_found, FindingsModel};
use crate::outside::{decoding, encoding, genesis_of, hex_bytes, joined, parent_of};
use crate::plan::{
    fits, free, in_turn, lemma_all_complete, lemma_every_step, lemma_in_turn, placed, returning,
    unwrapped_step, unwrapping, Deadline, Fault, Node, NodeChanges, Reply, Step, Task,
    TransferSettings, TwinError, Verdict,
};
use crate::procedures::{
    blob_in, bootstrapping, changes_for, clone_db_plan, extract_plan, rescue_plan, restart_plan,
    wait_plan,
};
use crate::session::{
    advanced, begun, current, entered, lemma_advanced, lemma_settled, operator_path, settled,
    steady, stepped, SessionModel,
};
use crate::stages::{
    belongs, bootstraps, checks, clones, extracts, first_stage, genesis_at, halts, is_restore,
    is_upgrade, lemma_stage_steps, lemma_step_taken, lemma_turns, next_stage, on_route, rank,
    rejoins, same_so_far, spreads, stage_plan, Brief, Mission, Stage,
};
use crate::twin::{run_model, TwinOpts};
use diem_types::transaction::Transaction;
use std::path::PathBuf;
use vstd::prelude::*;

verus! {

/// The stage before a stage in a run that comes through both.
pub open spec fn previous_stage(mission: Mission, stage: Stage) -> Option<Stage> {
    match stage {
        Stage::Hatch => None,
        Stage::Halt => Some(Stage::Hatch),
        Stage::Inspect => None,
        Stage::Archive => Some(Stage::Inspect),
        Stage::Fetch => Some(Stage::Archive),
        Stage::Manifest => Some(Stage::Fetch),
        Stage::Restore => Some(Stage::Manifest),
        Stage::Locate => if mission matches Mission::Run { from_snapshot, .. } && !from_snapshot {
            Some(Stage::Inspect)
        } else {
            Some(Stage::Restore)
        },
        Stage::Launch => Some(Stage::Locate),
        Stage::Credentials => Some(Stage::Launch),
        Stage::Replace => Some(Stage::Credentials),
        Stage::Rescue => Some(Stage::Replace),
        Stage::Bootstrap => Some(Stage::Rescue),
        Stage::Restart => Some(Stage::Bootstrap),
        Stage::Liveness => Some(Stage::Restart),
        Stage::Transfer => Some(Stage::Liveness),
        Stage::Park => Some(Stage::Transfer),
    }
}

/// All steps of the stages from the first one of a run up to, and without, a stage.
pub open spec fn steps_before(
    brief: Brief,
    first: Stage,
    stage: Stage,
    found: FindingsModel,
) -> Seq<Step>
    decreases rank(stage),
{
    if rank(stage) <= rank(first) {
        seq![]
    } else {
        match previous_stage(brief.mission, stage) {
            Some(before) => steps_before(brief, first, before, found) + stage_plan(
                brief,
                before,
                found,
            ).steps,
            None => seq![],
        }
    }
}

/// The steps that a run has taken.
pub open spec fn taken<E>(first: Stage, m: SessionModel<E>) -> Seq<Step> {
    steps_before(m.brief, first, m.stage, m.found) + m.plan.steps.take(m.pos as int)
}

/// All steps of a take-over, from start to finish.
pub open spec fn upgrade_script(brief: Brief, found: FindingsModel) -> Seq<Step> {
    steps_before(brief, Stage::Locate, Stage::Park, found)
}

/// What a stage finds out does not change the plans of the stages before it.
proof fn lemma_plans_stay<E>(
    brief: Brief,
    first: Stage,
    stage: Stage,
    earlier: Stage,
    pos: nat,
    found: FindingsModel,
    reply: Reply<E>,
    after: FindingsModel,
)
    requires
        pos < stage_plan(brief, stage, found).steps.len(),
        fits(stage_plan(brief, stage, found).steps[pos as int].task, reply),
        assessed(found, stage_plan(brief, stage, found).steps[pos as int], reply) == Ok::<
            FindingsModel,
            Verdict<E>,
        >(after),
        rank(earlier) <= rank(stage),
        rank(stage) > 1 ==> rank(earlier) > 1,
    ensures
        steps_before(brief, first, earlier, after) == steps_before(brief, first, earlier, found),
    decreases rank(earlier),
{
    lemma_stage_steps(brief, stage, found);
    let step = stage_plan(brief, stage, found).steps[pos as int];
    assert(belongs(stage, step));
    if rank(earlier) > rank(first) {
        if let Some(before) = previous_stage(brief.mission, earlier) {
            lemma_plans_stay(brief, first, stage, before, pos, found, reply, after);
            assert(stage_plan(brief, before, after) == stage_plan(brief, before, found));
        }
    }
}

/// Going on to the next step leaves the steps that were taken as they are.
pub(crate) proof fn lemma_settled_taken<E>(first: Stage, m: SessionModel<E>)
    requires
        on_route(m.brief.mission, m.stage),
        m.plan == stage_plan(m.brief, m.stage, m.found),
        m.pos <= m.plan.steps.len(),
        rank(first) <= rank(m.stage),
    ensures
        taken(first, settled(m)) == taken(first, m),
        on_route(m.brief.mission, settled(m).stage),
        settled(m).found == m.found,
        settled(m).brief == m.brief,
        rank(m.stage) <= rank(settled(m).stage),
        settled(m).plan == stage_plan(m.brief, settled(m).stage, m.found),
        settled(m).pos <= settled(m).plan.steps.len(),
        m.verdict is None && settled(m).verdict == Some(Verdict::<E>::Completed) ==> {
            &&& settled(m).pos == settled(m).plan.steps.len()
            &&& settled(m).plan.end is Complete
            &&& next_stage(m.brief.mission, settled(m).stage) is None
        },
    decreases 17 - rank(m.stage),
{
    if m.pos >= m.plan.steps.len() && m.plan.end is Complete {
        if let Some(next) = next_stage(m.brief.mission, m.stage) {
            let n = entered::<E>(m.brief, next, m.found);
            lemma_settled_taken(first, n);
            assert(m.plan.steps.take(m.pos as int) =~= m.plan.steps);
            assert(n.plan.steps.take(0) =~= seq![]);
            assert(taken(first, n) =~= taken(first, m));
        }
    }
}

/// A reply that lets a run go on adds the current step to those that the run has taken; a reply
/// that ends the run adds nothing.
pub proof fn law_steps_are_taken_in_order<E>(first: Stage, m: SessionModel<E>, reply: Reply<E>)
    requires
        steady(m),
        m.verdict is None,
        fits(current(m).task, reply),
        rank(first) <= rank(m.stage),
        rank(m.stage) > 1 ==> rank(first) > 1,
    ensures
        assessed(m.found, current(m), reply) is Ok ==> taken(first, advanced(m, reply)) == taken(
            first,
            m,
        ).push(current(m)),
        assessed(m.found, current(m), reply) is Err && advanced(m, reply).verdict is Some ==> taken(
            first,
            advanced(m, reply),
        ) == taken(first, m),
{
    if let Ok(found) = assessed(m.found, current(m), reply) {
        lemma_step_taken(m.brief, m.stage, m.pos, m.found, reply, found);
        lemma_plans_stay(m.brief, first, m.stage, m.stage, m.pos, m.found, reply, found);
        let n = stepped(m, found);
        lemma_settled_taken(first, n);
        assert(n.plan.steps.take(n.pos as int) == m.plan.steps.take(n.pos as int));
        assert(m.plan.steps.take(m.pos as int + 1) =~= m.plan.steps.take(m.pos as int).push(
            current(m),
        ));
        assert(taken(first, n) =~= taken(first, m).push(current(m)));
    }
}

/// A take-over that completes has taken every step of its script, in order, and no other.
pub proof fn law_completed_upgrade_took_every_step<E>(m: SessionModel<E>, reply: Reply<E>)
    requires
        steady(m),
        m.verdict is None,
        fits(current(m).task, reply),
        m.brief.mission is Upgrade,
        advanced(m, reply).verdict == Some(Verdict::<E>::Completed),
    ensures
        taken(Stage::Locate, advanced(m, reply)) == upgrade_script(
            m.brief,
            advanced(m, reply).found,
        ),
{
    if let Ok(found) = assessed(m.found, current(m), reply) {
        lemma_step_taken(m.brief, m.stage, m.pos, m.found, reply, found);
        let n = stepped(m, found);
        lemma_settled_taken(Stage::Locate, n);
        let end = settled(n);
        assert(end.stage is Transfer);
        assert(end.plan.steps.take(end.pos as int) =~= end.plan.steps);
    } else {
        lemma_assessed_errors(m.found, current(m), reply);
    }
}

/// A run whose take-over was done without an error parks after every step of the take-over, in
/// order, and no other.
pub proof fn law_a_run_parks_after_every_step<E>(m: SessionModel<E>, reply: Reply<E>)
    requires
        steady(m),
        m.verdict is None,
        fits(current(m).task, reply),
        m.brief.mission is Run,
        !(m.stage is Park),
        assessed(m.found, current(m), reply) is Ok,
        advanced(m, reply).stage is Park,
    ensures
        is_upgrade(m.stage),
        taken(Stage::Locate, m).push(current(m)) == upgrade_script(
            m.brief,
            advanced(m, reply).found,
        ),
        taken(Stage::Locate, advanced(m, reply)) == upgrade_script(
            m.brief,
            advanced(m, reply).found,
        ),
        advanced(m, reply).verdict is None,
        current(advanced(m, reply)).task is Park,
{
    if let Ok(found) = assessed(m.found, current(m), reply) {
        lemma_step_taken(m.brief, m.stage, m.pos, m.found, reply, found);
        let n = stepped(m, found);
        if rank(m.stage) < rank(Stage::Locate) {
            lemma_stops_at_locate(n);
        }
        lemma_settled(n);
        lemma_settled_taken(Stage::Locate, n);
        law_steps_are_taken_in_order(Stage::Locate, m, reply);
        let end = settled(n);
        lemma_settled_at_park(n);
        assert(end.plan.steps.take(0) =~= seq![]);
        assert(taken(Stage::Locate, end) =~= upgrade_script(m.brief, end.found));
    }
}

/// A run that comes to the last stage parks.
proof fn lemma_settled_at_park<E>(m: SessionModel<E>)
    requires
        m.verdict is None,
        !(m.stage is Park),
        settled(m).stage is Park,
    ensures
        settled(m) == entered::<E>(m.brief, Stage::Park, m.found),
    decreases 17 - rank(m.stage),
{
    if m.pos >= m.plan.steps.len() && m.plan.end is Complete {
        if let Some(next) = next_stage(m.brief.mission, m.stage) {
            if next is Park {
                reveal_with_fuel(settled, 2);
            } else {
                lemma_settled_at_park(entered::<E>(m.brief, next, m.found));
            }
        }
    }
}

/// A run that has not started the take-over comes no further than to its first stage.
proof fn lemma_stops_at_locate<E>(m: SessionModel<E>)
    requires
        rank(m.stage) < rank(Stage::Locate),
    ensures
        rank(settled(m).stage) <= rank(Stage::Locate),
    decreases 17 - rank(m.stage),
{
    if m.pos >= m.plan.steps.len() && m.plan.end is Complete {
        if let Some(next) = next_stage(m.brief.mission, m.stage) {
            if next is Locate {
                reveal_with_fuel(settled, 2);
            } else {
                lemma_stops_at_locate(entered::<E>(m.brief, next, m.found));
            }
        }
    }
}

/// No reply makes a run complete before its steps are taken.
proof fn lemma_assessed_errors<E>(found: FindingsModel, step: Step, reply: Reply<E>)
    ensures
        assessed(found, step, reply) matches Err(verdict) ==> !(verdict is Completed),
{
}

/// Every reply ends a run or brings it forward: to a later stage, or to the next step of the plan,
/// whose length and former steps stay.
pub proof fn law_every_reply_brings_the_run_forward<E>(m: SessionModel<E>, reply: Reply<E>)
    requires
        steady(m),
        m.verdict is None,
        fits(current(m).task, reply),
    ensures
        ({
            let next = advanced(m, reply);
            ||| next.verdict is Some
            ||| rank(next.stage) > rank(m.stage)
            ||| next.stage == m.stage && same_so_far(m.plan, next.plan, next.pos) && next.pos
                == m.pos + 1
        }),
{
    match assessed(m.found, current(m), reply) {
        Ok(found) => {
            lemma_step_taken(m.brief, m.stage, m.pos, m.found, reply, found);
            lemma_later(stepped(m, found));
        },
        Err(_) => {
            lemma_later(entered::<E>(m.brief, Stage::Park, m.found));
        },
    }
}

/// Going on leads to the same place, to a later stage, or to an end.
pub(crate) proof fn lemma_later<E>(m: SessionModel<E>)
    ensures
        settled(m) == m || settled(m).verdict is Some || rank(settled(m).stage) > rank(m.stage),
        rank(settled(m).stage) >= rank(m.stage),
    decreases 17 - rank(m.stage),
{
    if m.pos >= m.plan.steps.len() && m.plan.end is Complete {
        if let Some(next) = next_stage(m.brief.mission, m.stage) {
            lemma_later(entered::<E>(m.brief, next, m.found));
        }
    }
}

/// Going on never ends a run with an error, and never aborts the process.
proof fn lemma_settled_verdict<E>(m: SessionModel<E>)
    requires
        m.verdict is None,
    ensures
        settled(m).verdict matches Some(verdict) ==> verdict is Completed || verdict is Panicked,
    decreases 17 - rank(m.stage),
{
    if m.pos >= m.plan.steps.len() && m.plan.end is Complete {
        if let Some(next) = next_stage(m.brief.mission, m.stage) {
            lemma_settled_verdict(entered::<E>(m.brief, next, m.found));
        }
    }
}

/// The run of a twin never ends with an error: what goes wrong while the database is restored is
/// a panic, and an error of the take-over is passed over.
pub proof fn law_a_run_never_returns_an_error<E>(m: SessionModel<E>, reply: Reply<E>)
    requires
        steady(m),
        m.verdict is None,
        fits(current(m).task, reply),
        m.brief.mission is Run,
    ensures
        !(advanced(m, reply).verdict matches Some(Verdict::Returned(_))),
{
    lemma_stage_steps(m.brief, m.stage, m.found);
    assert(belongs(m.stage, current(m)));
    match assessed(m.found, current(m), reply) {
        Ok(found) => {
            lemma_settled_verdict(stepped(m, found));
        },
        Err(_) => {
            lemma_settled_verdict(entered::<E>(m.brief, Stage::Park, m.found));
        },
    }
}

/// An error of the take-over leaves the network running: parking is what a twin's run does next.
pub proof fn law_a_run_parks_after_an_error<E>(
    m: SessionModel<E>,
    reply: Reply<E>,
    error: TwinError<E>,
)
    requires
        steady(m),
        m.verdict is None,
        m.brief.mission is Run,
        is_upgrade(m.stage),
        assessed(m.found, current(m), reply) == Err::<FindingsModel, Verdict<E>>(
            Verdict::Returned(error),
        ),
    ensures
        advanced(m, reply).verdict is None,
        advanced(m, reply).stage is Park,
        current(advanced(m, reply)).task is Park,
{
}

/// Restoring a database completes or panics; it neither returns an error nor aborts.
pub proof fn law_a_restore_completes_or_panics<E>(m: SessionModel<E>, reply: Reply<E>)
    requires
        steady(m),
        m.verdict is None,
        fits(current(m).task, reply),
        m.brief.mission is Load,
    ensures
        advanced(m, reply).verdict matches Some(verdict) ==> {
            ||| verdict is Completed
            ||| verdict is Panicked
            ||| verdict is Unwrapped
        },
{
    lemma_stage_steps(m.brief, m.stage, m.found);
    assert(belongs(m.stage, current(m)));
    if let Ok(found) = assessed(m.found, current(m), reply) {
        lemma_settled_verdict(stepped(m, found));
    }
}

/// A reply that ends a run leaves its findings as they were.
pub proof fn law_an_ending_reply_adds_nothing<E>(
    m: SessionModel<E>,
    reply: Reply<E>,
    verdict: Verdict<E>,
)
    requires
        m.verdict is None,
        assessed(m.found, current(m), reply) == Err::<FindingsModel, Verdict<E>>(verdict),
        !(verdict is Returned && m.brief.mission is Run && is_upgrade(m.stage)),
    ensures
        advanced(m, reply) == (SessionModel { verdict: Some(verdict), ..m }),
{
}

/// What a twin does depends on its database, on the wish for information and on whether a snapshot
/// is named: not on which one, or on the operator file.
pub proof fn law_which_snapshot_does_not_matter<E>(a: TwinOpts, b: TwinOpts)
    requires
        a.db_dir == b.db_dir,
        a.info == b.info,
        a.snapshot_path is Some <==> b.snapshot_path is Some,
    ensures
        run_model::<E>(a.db_dir, a.info, a.snapshot_path is Some) == run_model::<E>(
            b.db_dir,
            b.info,
            b.snapshot_path is Some,
        ),
{
}

/// A run that is asked for information starts with a report on the database. Whatever comes of it,
/// the run then goes on as one that is not asked.
pub proof fn law_information_is_given_first<E>(
    db_dir: PathBuf,
    from_snapshot: bool,
    reply: Reply<E>,
)
    requires
        fits(Task::ReportDatabase(db_dir), reply),
    ensures
        ({
            let asked = run_model::<E>(db_dir, true, from_snapshot);
            let plain = run_model::<E>(db_dir, false, from_snapshot);
            let next = advanced(asked, reply);
            &&& asked.verdict is None
            &&& current(asked).task == Task::ReportDatabase(db_dir)
            &&& next == (SessionModel { brief: asked.brief, ..plain })
        }),
{
    reveal_with_fuel(settled, 2);
}

/// Without a snapshot nothing is restored: a run that is not asked for information starts with the
/// take-over. With one it starts by looking for the archive.
pub proof fn law_a_run_restores_only_from_a_snapshot<E>(db_dir: PathBuf)
    ensures
        current(run_model::<E>(db_dir, false, false)).task is CurrentDir,
        current(run_model::<E>(db_dir, false, true)).task is LookForArchive,
        run_model::<E>(db_dir, false, false).verdict is None,
        run_model::<E>(db_dir, false, true).verdict is None,
{
}

/// A run restores a database only if a snapshot is named, and reports on one only if information
/// is asked for.
pub proof fn law_a_run_does_what_is_asked<E>(m: SessionModel<E>, info: bool, from_snapshot: bool)
    requires
        steady(m),
        m.verdict is None,
        m.brief.mission == (Mission::Run { info, from_snapshot }),
    ensures
        !from_snapshot ==> !is_restore(m.stage) && !(current(m).task is RestoreSnapshot)
            && !(current(m).task is RemoveDirAll),
        !info ==> !(current(m).task is ReportDatabase),
{
    lemma_stage_steps(m.brief, m.stage, m.found);
    assert(belongs(m.stage, current(m)));
}

/// A database is bootstrapped for good only after the same blob was tried on it, and after a
/// pause; the databases have their turns in the order of the swarm.
pub proof fn law_every_bootstrap_is_tried_first(brief: Brief, found: FindingsModel, i: int)
    requires
        0 <= i < found.nodes.len(),
    ensures
        ({
            let steps = stage_plan(brief, Stage::Bootstrap, found).steps;
            let db = found.nodes[i].storage_dir;
            &&& steps.len() == 3 * found.nodes.len()
            &&& steps[3 * i] == returning(bootstrapping(db, false))
            &&& steps[3 * i + 1] == free(Task::Pause { seconds: 10 })
            &&& steps[3 * i + 2] == unwrapping(bootstrapping(db, true))
        }),
{
    lemma_turns(brief, Stage::Bootstrap, found);
    let steps = stage_plan(brief, Stage::Bootstrap, found).steps;
    let nodes = found.nodes;
    assert(placed(steps[3 * i], 3 * i, nodes.len(), bootstraps(nodes), 3));
    assert(placed(steps[3 * i + 1], 3 * i + 1, nodes.len(), bootstraps(nodes), 3));
    assert(placed(steps[3 * i + 2], 3 * i + 2, nodes.len(), bootstraps(nodes), 3));
}

/// The waypoint that a committed bootstrap of the validator at place `i` gives becomes the
/// waypoint at place `i`.
pub proof fn law_a_waypoint_goes_to_its_validator<E>(
    m: SessionModel<E>,
    i: int,
    waypoint: diem_types::waypoint::Waypoint,
)
    requires
        steady(m),
        m.verdict is None,
        m.stage is Bootstrap,
        m.pos == 3 * i + 2,
    ensures
        current(m) == unwrapping(bootstrapping(m.found.nodes[i].storage_dir, true)),
        advanced(m, Reply::<E>::Waypoint(Some(waypoint))).found.waypoints
            == m.found.waypoints.push(waypoint),
        m.found.waypoints.len() == i,
{
    lemma_turns(m.brief, m.stage, m.found);
    law_every_bootstrap_is_tried_first(m.brief, m.found, i);
    let reply = Reply::<E>::Waypoint(Some(waypoint));
    if let Ok(found) = assessed(m.found, current(m), reply) {
        lemma_step_taken(m.brief, m.stage, m.pos, m.found, reply, found);
        lemma_settled_taken(Stage::Locate, stepped(m, found));
    }
}

/// Every validator restarts with the waypoint and the blob of its own database and the genesis
/// transaction that was read from it, out of synchronisation-only mode, and waits for as many peers
/// as were restarted before it.
pub proof fn law_every_validator_restarts_with_its_own(brief: Brief, found: FindingsModel, i: int)
    requires
        0 <= i < found.nodes.len() <= usize::MAX,
    ensures
        ({
            let steps = stage_plan(brief, Stage::Restart, found).steps;
            let node = found.nodes[i];
            let place = i as usize;
            let blob = blob_in(node.storage_dir);
            &&& steps.len() == 8 * found.nodes.len()
            &&& steps[8 * i] == unwrapping(Task::ReadFile(blob))
            &&& steps[8 * i + 1] == free(Task::StopNode(place))
            &&& steps[8 * i + 2] == returning(
                Task::SaveConfig {
                    node: place,
                    file: node.config_path,
                    changes: NodeChanges {
                        waypoint: found.waypoints[i],
                        identity_blob: blob,
                        genesis: genesis_at(found.geneses, i),
                        sync_only: false,
                    },
                },
            )
            &&& steps[8 * i + 3] == returning(Task::StartNode(place))
            &&& steps[8 * i + 4] == returning(Task::SetDeadline(Deadline::Healthy))
            &&& steps[8 * i + 5].task == Task::AwaitHealthy(place)
            &&& steps[8 * i + 5].on_failure is Abort
            &&& steps[8 * i + 6] == returning(Task::SetDeadline(Deadline::Connectivity))
            &&& steps[8 * i + 7] == returning(
                Task::AwaitConnectivity { node: place, expected: place },
            )
        }),
{
    lemma_turns(brief, Stage::Restart, found);
    let steps = stage_plan(brief, Stage::Restart, found).steps;
    let nodes = found.nodes;
    let turns = rejoins(nodes, found.waypoints, found.geneses);
    assert forall|j: int| 0 <= j < 8 implies (#[trigger] steps[8 * i + j]) == turns(i).steps[j] by {
        assert(placed(steps[8 * i + j], 8 * i + j, nodes.len(), turns, 8));
        assert((8 * i + j) / 8 == i && (8 * i + j) % 8 == j);
    }
    assert(steps[8 * i + 0] == turns(i).steps[0]);
}

/// The genesis transaction that is read from a validator's blob is the one that the validator's
/// configuration is saved with, two steps later.
pub proof fn law_a_validator_gets_the_genesis_it_read<E>(
    m: SessionModel<E>,
    i: int,
    bytes: Vec<u8>,
    genesis: Transaction,
)
    requires
        steady(m),
        m.verdict is None,
        m.stage is Restart,
        m.pos == 8 * i,
        m.found.nodes.len() <= usize::MAX,
        decoding(bytes@) == Ok::<Transaction, bcs::Error>(genesis),
    ensures
        current(m) == unwrapping(Task::ReadFile(blob_in(m.found.nodes[i].storage_dir))),
        ({
            let next = advanced(m, Reply::<E>::Bytes(bytes));
            &&& next.verdict is None
            &&& next.stage is Restart
            &&& next.pos == 8 * i + 1
            &&& next.plan.steps[8 * i + 2] == returning(
                Task::SaveConfig {
                    node: i as usize,
                    file: m.found.nodes[i].config_path,
                    changes: changes_for(
                        m.found.nodes[i],
                        m.found.waypoints[i],
                        Some(genesis),
                    ),
                },
            )
        }),
{
    lemma_turns(m.brief, m.stage, m.found);
    law_every_validator_restarts_with_its_own(m.brief, m.found, i);
    let reply = Reply::<E>::Bytes(bytes);
    let found = FindingsModel { geneses: m.found.geneses.push(genesis), ..m.found };
    assert(assessed(m.found, current(m), reply) == Ok::<FindingsModel, Verdict<E>>(found));
    law_every_validator_restarts_with_its_own(m.brief, found, i);
    assert(genesis_at(found.geneses, i) == Some(genesis));
}

/// No validator is configured anew before every database has been bootstrapped for good and
/// every validator's credentials have been collected. It is configured with the genesis transaction
/// that was read for it.
pub proof fn law_no_restart_before_every_bootstrap<E>(m: SessionModel<E>)
    requires
        steady(m),
        m.verdict is None,
        current(m).task is SaveConfig,
        m.found.nodes.len() <= usize::MAX,
    ensures
        m.found.waypoints.len() == m.found.nodes.len(),
        m.found.credentials.len() == m.found.nodes.len(),
        ({
            let node = current(m).task->SaveConfig_node as int;
            &&& node < m.found.geneses.len() <= m.found.nodes.len()
            &&& current(m).task == Task::SaveConfig {
                node: node as usize,
                file: m.found.nodes[node].config_path,
                changes: changes_for(
                    m.found.nodes[node],
                    m.found.waypoints[node],
                    Some(m.found.geneses[node]),
                ),
            }
        }),
{
    lemma_stage_steps(m.brief, m.stage, m.found);
    assert(belongs(m.stage, current(m)));
    assert(m.stage is Restart);
    lemma_turns(m.brief, m.stage, m.found);
    let nodes = m.found.nodes;
    let turns = rejoins(nodes, m.found.waypoints, m.found.geneses);
    assert(placed(current(m), m.pos as int, nodes.len(), turns, 8));
}

/// The rescue session registers all validators: it is run when there are credentials for every
/// one of them, each with the account of its validator. The blob is written when there are bytes to
/// be written.
pub proof fn law_a_rescue_registers_every_validator<E>(m: SessionModel<E>)
    requires
        steady(m),
        m.verdict is None,
    ensures
        current(m).task is AddValidators ==> {
            &&& m.found.credentials.len() == m.found.nodes.len()
            &&& forall|j: int|
                0 <= j < m.found.nodes.len() ==> (#[trigger] m.found.nodes[j]).config_account
                    == Some(m.found.credentials[j].account)
        },
        current(m).task is WriteFile ==> m.found.blob is Some,
{
    lemma_stage_steps(m.brief, m.stage, m.found);
    assert(belongs(m.stage, current(m)));
    if current(m).task is AddValidators {
        assert forall|j: int| 0 <= j < m.found.nodes.len() implies (
        #[trigger] m.found.nodes[j]).config_account == Some(m.found.credentials[j].account) by {
            assert(m.found.credentials[j] == m.found.credentials[j]);
        }
    }
    if current(m).task is WriteFile {
        assert(m.stage is Rescue);
        let first = rescue_plan(m.found.nodes[0].storage_dir);
        assert(m.plan.steps[0] == first.steps[0]);
        assert(m.plan.steps[1] == first.steps[1]);
    }
}

/// A take-over is done with the second reading of the recipient's balance, if it is higher than the
/// first, and panics if it is not. What is done completes, or is left running.
pub proof fn law_a_take_over_needs_a_higher_balance<E>(m: SessionModel<E>, balance: u64)
    requires
        steady(m),
        m.verdict is None,
        m.stage is Transfer,
        m.pos == 3,
    ensures
        m.found.balance is Some,
        ({
            let next = advanced(m, Reply::<E>::Balance(balance));
            if balance <= m.found.balance->0 {
                next.verdict == Some(Verdict::<E>::Panicked(Fault::BalanceUnchanged))
            } else if m.brief.mission is Run {
                next.verdict is None && next.stage is Park && current(next).task is Park
            } else {
                next.verdict == Some(Verdict::<E>::Completed)
            }
        }),
{
    reveal_with_fuel(settled, 2);
}

/// A caller that panics on what a procedure returns never sees an error returned.
pub proof fn law_unwrapping_leaves_no_error<E>(
    found: FindingsModel,
    step: Step,
    reply: Reply<E>,
)
    ensures
        match (assessed(found, step, reply), assessed(found, unwrapped_step(step), reply)) {
            (Err(Verdict::Returned(error)), unwrapped) => unwrapped == Err::<
                FindingsModel,
                Verdict<E>,
            >(Verdict::Unwrapped(error)),
            (plain, unwrapped) => plain == unwrapped,
        },
{
}

/// When replacing a database ends well: both databases were there, the old one was moved away and
/// is gone, and the copy was made. Whether the directories could be created does not matter.
pub proof fn law_when_a_database_is_replaced<E>(
    prod_db: PathBuf,
    swarm_db: PathBuf,
    replies: Seq<Reply<E>>,
)
    requires
        parent_of(swarm_db) is Some,
        replies.len() == 7,
        forall|k: int|
            0 <= k < 7 ==> fits(
                (#[trigger] clone_db_plan(prod_db, swarm_db).steps[k]).task,
                replies[k],
            ),
    ensures
        played(clone_db_plan(prod_db, swarm_db), 0, nothing_found(), replies) == Verdict::<
            E,
        >::Completed <==> {
            &&& replies[0] == Reply::<E>::Found(true)
            &&& replies[1] == Reply::<E>::Found(true)
            &&& replies[3] is Done
            &&& replies[4] == Reply::<E>::Found(false)
            &&& replies[6] is Done
        },
{
    reveal_with_fuel(played, 8);
    let steps = clone_db_plan(prod_db, swarm_db).steps;
    assert(fits(steps[0].task, replies[0]));
    assert(fits(steps[1].task, replies[1]));
    assert(fits(steps[2].task, replies[2]));
    assert(fits(steps[3].task, replies[3]));
    assert(fits(steps[4].task, replies[4]));
    assert(fits(steps[5].task, replies[5]));
    assert(fits(steps[6].task, replies[6]));
}

/// Whether the move of a directory meets a file whose place is taken. `within` says which files
/// lie in a directory, and `target` where a file of a directory goes when the directory is moved.
pub open spec fn meets_a_taken_place(
    files: Map<PathBuf, Seq<u8>>,
    from: PathBuf,
    to: PathBuf,
    within: spec_fn(PathBuf, PathBuf) -> bool,
    target: spec_fn(PathBuf, PathBuf, PathBuf) -> PathBuf,
) -> bool {
    exists|file: PathBuf|
        #[trigger] files.contains_key(file) && within(file, from) && files.contains_key(
            target(file, from, to),
        )
}

/// Whether every file keeps its content, but for those that are left out.
pub open spec fn files_stay(
    before: Map<PathBuf, Seq<u8>>,
    after: Map<PathBuf, Seq<u8>>,
    left_out: spec_fn(PathBuf) -> bool,
) -> bool {
    forall|file: PathBuf|
        #[trigger] before.contains_key(file) && !left_out(file) ==> after.contains_key(file)
            && after[file] == before[file]
}

/// Whether a step of replacing a database does to the files what its task and its settings say: a
/// move takes files only out of its source, and neither a move nor a copy changes a file that is
/// there unless it may overwrite; a move that may neither overwrite nor skip fails where a place is
/// taken. The other tasks leave the files alone.
pub open spec fn carried_out<E>(
    task: Task,
    reply: Reply<E>,
    before: Map<PathBuf, Seq<u8>>,
    after: Map<PathBuf, Seq<u8>>,
    within: spec_fn(PathBuf, PathBuf) -> bool,
    target: spec_fn(PathBuf, PathBuf, PathBuf) -> PathBuf,
) -> bool {
    match task {
        Task::MoveDir { from, to, copying } => {
            &&& !copying.overwrite ==> files_stay(before, after, |file: PathBuf| within(file, from))
            &&& !copying.overwrite && !copying.skip_exist && meets_a_taken_place(
                before,
                from,
                to,
                within,
                target,
            ) ==> reply is Failed
        },
        Task::CopyContents { copying, .. } => !copying.overwrite ==> files_stay(
            before,
            after,
            |file: PathBuf| false,
        ),
        _ => after == before,
    }
}

/// Replacing a database overwrites nothing: however far it comes, every file outside the node's own
/// database keeps its content. So an earlier backup stays as it is, and so does the production
/// database.
pub proof fn law_a_replacement_overwrites_nothing<E>(
    prod_db: PathBuf,
    swarm_db: PathBuf,
    replies: Seq<Reply<E>>,
    files: Seq<Map<PathBuf, Seq<u8>>>,
    within: spec_fn(PathBuf, PathBuf) -> bool,
    target: spec_fn(PathBuf, PathBuf, PathBuf) -> PathBuf,
)
    requires
        0 < files.len() <= clone_db_plan(prod_db, swarm_db).steps.len() + 1,
        forall|k: int|
            0 <= k < files.len() - 1 ==> carried_out(
                (#[trigger] clone_db_plan(prod_db, swarm_db).steps[k]).task,
                replies[k],
                files[k],
                files[k + 1],
                within,
                target,
            ),
    ensures
        files_stay(files[0], files.last(), |file: PathBuf| within(file, swarm_db)),
    decreases files.len(),
{
    let steps = clone_db_plan(prod_db, swarm_db).steps;
    if files.len() > 1 {
        let count = files.len() - 1;
        let earlier = files.drop_last();
        assert forall|k: int| 0 <= k < earlier.len() - 1 implies carried_out(
            (#[trigger] steps[k]).task,
            replies[k],
            earlier[k],
            earlier[k + 1],
            within,
            target,
        ) by {
            assert(earlier[k] == files[k] && earlier[k + 1] == files[k + 1]);
        }
        law_a_replacement_overwrites_nothing(
            prod_db,
            swarm_db,
            replies,
            earlier,
            within,
            target,
        );
        assert(carried_out(
            steps[count - 1].task,
            replies[count - 1],
            files[count - 1],
            files[count],
            within,
            target,
        ));
        assert(earlier.last() == files[count - 1]);
        let last = files[count];
        assert forall|file: PathBuf|
            #[trigger] files[0].contains_key(file) && !within(file, swarm_db) implies
            last.contains_key(file) && last[file] == files[0][file] by {
            assert(earlier.last().contains_key(file));
        }
    }
}

/// A database is not replaced a second time over a backup that has a file of the same place: the
/// error of the move is returned, and every file of the backup keeps its content.
pub proof fn law_a_backup_is_not_replaced<E>(
    prod_db: PathBuf,
    swarm_db: PathBuf,
    replies: Seq<Reply<E>>,
    files: Seq<Map<PathBuf, Seq<u8>>>,
    within: spec_fn(PathBuf, PathBuf) -> bool,
    target: spec_fn(PathBuf, PathBuf, PathBuf) -> PathBuf,
)
    requires
        parent_of(swarm_db) is Some,
        replies.len() == 7,
        forall|k: int|
            0 <= k < 7 ==> fits(
                (#[trigger] clone_db_plan(prod_db, swarm_db).steps[k]).task,
                replies[k],
            ),
        files.len() == 5,
        forall|k: int|
            0 <= k < 4 ==> carried_out(
                (#[trigger] clone_db_plan(prod_db, swarm_db).steps[k]).task,
                replies[k],
                files[k],
                files[k + 1],
                within,
                target,
            ),
        replies[0] == Reply::<E>::Found(true),
        replies[1] == Reply::<E>::Found(true),
        meets_a_taken_place(
            files[0],
            swarm_db,
            joined(parent_of(swarm_db)->0, "db-old"@),
            within,
            target,
        ),
    ensures
        replies[3] matches Reply::Failed(error) && played(
            clone_db_plan(prod_db, swarm_db),
            0,
            nothing_found(),
            replies,
        ) == Verdict::<E>::Returned(TwinError::Outside(error)),
        files_stay(files[0], files[4], |file: PathBuf| within(file, swarm_db)),
{
    let steps = clone_db_plan(prod_db, swarm_db).steps;
    law_a_replacement_overwrites_nothing(prod_db, swarm_db, replies, files, within, target);
    assert(carried_out(steps[0].task, replies[0], files[0], files[1], within, target));
    assert(carried_out(steps[1].task, replies[1], files[1], files[2], within, target));
    assert(carried_out(steps[2].task, replies[2], files[2], files[3], within, target));
    assert(carried_out(steps[3].task, replies[3], files[3], files[4], within, target));
    reveal_with_fuel(played, 5);
    assert(fits(steps[2].task, replies[2]));
    assert(fits(steps[3].task, replies[3]));
}

/// When a wait for a node ends well: both deadlines could be set, and the node became healthy and
/// connected. A node that does not become healthy ends the process.
pub proof fn law_when_a_wait_ends<E>(node: usize, expected: usize, replies: Seq<Reply<E>>)
    requires
        replies.len() == 4,
        forall|k: int|
            0 <= k < 4 ==> fits((#[trigger] wait_plan(node, expected).steps[k]).task, replies[k]),
    ensures
        ({
            let verdict = played(wait_plan(node, expected), 0, nothing_found(), replies);
            &&& verdict == Verdict::<E>::Completed <==> replies[0] is Done && replies[1] is Done
                && replies[2] is Done && replies[3] is Done
            &&& verdict is Aborted <==> replies[0] is Done && replies[1] is Failed
            &&& verdict == Verdict::<E>::Returned(TwinError::NoDeadline)
                <==> replies[0] is NoDeadline
            &&& verdict == Verdict::<E>::Returned(TwinError::NoConnectivityDeadline)
                <==> replies[0] is Done && replies[1] is Done && replies[2] is NoDeadline
        }),
{
    reveal_with_fuel(played, 5);
    let steps = wait_plan(node, expected).steps;
    assert(fits(steps[0].task, replies[0]));
    assert(fits(steps[1].task, replies[1]));
    assert(fits(steps[2].task, replies[2]));
    assert(fits(steps[3].task, replies[3]));
}

/// When a rescue blob is made: the session ran, its change set could be taken out and encoded, and
/// the blob was written. An error on the way is returned.
pub proof fn law_when_a_rescue_blob_is_made<E>(
    db: PathBuf,
    found: FindingsModel,
    replies: Seq<Reply<E>>,
)
    requires
        replies.len() == 3,
        forall|k: int| 0 <= k < 3 ==> fits((#[trigger] rescue_plan(db).steps[k]).task, replies[k]),
    ensures
        ({
            let verdict = played(rescue_plan(db), 0, found, replies);
            &&& verdict is Completed || verdict is Returned
            &&& verdict is Completed <==> {
                &&& replies[0] is Done
                &&& replies[1] matches Reply::Changes(changes) && encoding(
                    genesis_of(changes),
                ) is Ok
                &&& replies[2] is Done
            }
        }),
{
    reveal_with_fuel(played, 4);
    let steps = rescue_plan(db).steps;
    assert(fits(steps[0].task, replies[0]));
    assert(fits(steps[1].task, replies[1]));
    assert(fits(steps[2].task, replies[2]));
}

/// When a node is restarted: its configuration was saved and it was started. An error on the way
/// is returned, and a node whose configuration was not saved is not started.
pub proof fn law_when_a_node_is_restarted<E>(
    node: usize,
    config_path: PathBuf,
    changes: NodeChanges,
    replies: Seq<Reply<E>>,
)
    requires
        replies.len() == 3,
        forall|k: int|
            0 <= k < 3 ==> fits(
                (#[trigger] restart_plan(node, config_path, changes).steps[k]).task,
                replies[k],
            ),
    ensures
        ({
            let plan = restart_plan(node, config_path, changes);
            let verdict = played(plan, 0, nothing_found(), replies);
            match (replies[1], replies[2]) {
                (Reply::Failed(error), _) => verdict == Verdict::<E>::Returned(
                    TwinError::Outside(error),
                ),
                (_, Reply::Failed(error)) => verdict == Verdict::<E>::Returned(
                    TwinError::Outside(error),
                ),
                _ => verdict is Completed,
            }
        }),
{
    reveal_with_fuel(played, 4);
    let steps = restart_plan(node, config_path, changes).steps;
    assert(fits(steps[0].task, replies[0]));
    assert(fits(steps[1].task, replies[1]));
    assert(fits(steps[2].task, replies[2]));
}

/// When credentials are collected: the identity file was read, the chain answered, and the two can
/// be put together.
pub proof fn law_when_credentials_are_collected<E>(
    index: usize,
    node: Node,
    replies: Seq<Reply<E>>,
)
    requires
        node.config_account is Some,
        parent_of(node.config_path) is Some,
        replies.len() == 2,
        forall|k: int|
            0 <= k < 2 ==> fits((#[trigger] extract_plan(index, node).steps[k]).task, replies[k]),
    ensures
        played(extract_plan(index, node), 0, nothing_found(), replies) == Verdict::<
            E,
        >::Completed <==> {
            &&& replies[0] matches Reply::Identity(identity)
            &&& replies[1] matches Reply::Answers(answers)
            &&& credentials_of(node.config_account->0, identity@, answers@) is Ok
        },
{
    reveal_with_fuel(played, 3);
    let steps = extract_plan(index, node).steps;
    assert(fits(steps[0].task, replies[0]));
    assert(fits(steps[1].task, replies[1]));
}

/// Every validator is stopped and its storage cleared before any database is replaced.
pub proof fn law_every_validator_halts_first(brief: Brief, found: FindingsModel, i: int)
    requires
        0 <= i < found.nodes.len() <= usize::MAX,
    ensures
        ({
            let steps = stage_plan(brief, Stage::Replace, found).steps;
            &&& 2 * found.nodes.len() <= steps.len()
            &&& steps[2 * i] == free(Task::StopNode(i as usize))
            &&& steps[2 * i + 1] == free(Task::ClearStorage(i as usize))
            &&& forall|k: int|
                2 * found.nodes.len() <= k < steps.len() ==> {
                    let task = (#[trigger] steps[k]).task;
                    !(task is StopNode) && !(task is ClearStorage)
                }
        }),
{
    let nodes = found.nodes;
    let n = nodes.len();
    let steps = stage_plan(brief, Stage::Replace, found).steps;
    let halting = in_turn(n, halts());
    lemma_in_turn(n, halts(), 2);
    lemma_all_complete(n, halts());
    assert(placed(halting.steps[2 * i], 2 * i, n, halts(), 2));
    assert(placed(halting.steps[2 * i + 1], 2 * i + 1, n, halts(), 2));
    assert(steps[2 * i] == halting.steps[2 * i]);
    assert(steps[2 * i + 1] == halting.steps[2 * i + 1]);
    let holds = |step: Step| !(step.task is StopNode) && !(step.task is ClearStorage);
    let cloning = in_turn(n, clones(brief.db, nodes));
    let checking = in_turn(n, checks(nodes));
    lemma_every_step(n, clones(brief.db, nodes), holds);
    lemma_every_step(n, checks(nodes), holds);
    assert forall|k: int| 2 * n <= k < steps.len() implies holds(#[trigger] steps[k]) by {
        if k < 2 * n + cloning.steps.len() {
            assert(steps[k] == cloning.steps[k - 2 * n]);
        } else {
            assert(steps[k] == checking.steps[k - 2 * n - cloning.steps.len()]);
        }
    }
}

/// The blob that is made in the first validator's database is the one that every other validator
/// gets, each in its own database.
pub proof fn law_every_validator_gets_the_same_blob(brief: Brief, found: FindingsModel, i: int)
    requires
        1 <= i < found.nodes.len(),
    ensures
        ({
            let steps = stage_plan(brief, Stage::Rescue, found).steps;
            let made = blob_in(found.nodes[0].storage_dir);
            &&& steps.len() == found.nodes.len() + 2
            &&& steps[2] == returning(Task::WriteFile(made))
            &&& steps[i + 2] == returning(
                Task::CopyFile { from: made, to: blob_in(found.nodes[i].storage_dir) },
            )
        }),
{
    let nodes = found.nodes;
    let others = (nodes.len() - 1) as nat;
    let steps = stage_plan(brief, Stage::Rescue, found).steps;
    lemma_in_turn(others, spreads(nodes), 1);
    lemma_all_complete(others, spreads(nodes));
    let spreading = in_turn(others, spreads(nodes));
    assert(placed(spreading.steps[i - 1], i - 1, others, spreads(nodes), 1));
    assert(steps[i + 2] == spreading.steps[i - 1]);
}

/// Credentials that are put together name the key that both the chain and the identity file name.
pub proof fn law_credentials_name_one_key(
    account: move_core_types::account_address::AccountAddress,
    identity: IdentityModel,
    answers: Seq<Option<String>>,
    found: CredentialsModel,
)
    requires
        credentials_of(account, identity, answers) == Ok::<CredentialsModel, CredentialFault>(
            found,
        ),
    ensures
        found.account == account,
        found.consensus_pubkey == hex_bytes(answer_digits(answers, 0)->0),
        found.consensus_pubkey == hex_bytes(identity.key->0),
        Some(found.proof_of_possession) == identity.proof,
{
}

/// A validator that has been made has an operator file, beside its configuration: the run that
/// makes it does not complete without a validator and the directory of its configuration.
pub proof fn law_a_made_validator_has_an_operator_file<E>(m: SessionModel<E>, reply: Reply<E>)
    requires
        steady(m),
        m.verdict is None,
        fits(current(m).task, reply),
        m.brief.mission is Initialize,
        advanced(m, reply).verdict == Some(Verdict::<E>::Completed),
    ensures
        ({
            let config_path = advanced(m, reply).found.nodes[0].config_path;
            &&& parent_of(config_path) is Some
            &&& operator_path(advanced(m, reply)) == Some(
                joined(parent_of(config_path)->0, "operator.yaml"@),
            )
        }),
{
    lemma_stage_steps(m.brief, m.stage, m.found);
    assert(belongs(m.stage, current(m)));
    lemma_assessed_errors(m.found, current(m), reply);
    reveal_with_fuel(settled, 3);
}

/// Whether a swarm has at least two validators, all with known accounts and directories.
pub open spec fn sound(nodes: Seq<Node>) -> bool {
    &&& nodes.len() >= 2
    &&& forall|i: int|
        0 <= i < nodes.len() ==> {
            let node = #[trigger] nodes[i];
            &&& node.config_account is Some
            &&& parent_of(node.config_path) is Some
            &&& parent_of(node.storage_dir) is Some
        }
}

/// How many steps a take-over has when every validator's account and directories are known.
pub proof fn law_length_of_a_take_over(brief: Brief, found: FindingsModel)
    requires
        sound(found.nodes),
    ensures
        upgrade_script(brief, found).len() == 24 * found.nodes.len() + 11,
{
    let nodes = found.nodes;
    let n = nodes.len();
    lemma_turns(brief, Stage::Credentials, found);
    lemma_turns(brief, Stage::Bootstrap, found);
    lemma_turns(brief, Stage::Restart, found);
    assert forall|i: int| 0 <= i < n implies (#[trigger] extracts(nodes)(i)).end is Complete by {
        assert(nodes[i].config_account is Some);
    }
    lemma_all_complete(n, extracts(nodes));
    lemma_in_turn(n, halts(), 2);
    lemma_all_complete(n, halts());
    assert forall|i: int| 0 <= i < n implies (#[trigger] clones(brief.db, nodes)(i)).end is Complete
        && clones(brief.db, nodes)(i).steps.len() == 7 by {
        assert(nodes[i].config_account is Some);
    }
    lemma_in_turn(n, clones(brief.db, nodes), 7);
    lemma_all_complete(n, clones(brief.db, nodes));
    lemma_in_turn(n, checks(nodes), 1);
    lemma_all_complete(n, checks(nodes));
    lemma_in_turn((n - 1) as nat, spreads(nodes), 1);
    lemma_all_complete((n - 1) as nat, spreads(nodes));
    reveal_with_fuel(steps_before, 11);
}

/// All steps of a run that takes a database over, from start to finish.
pub open spec fn run_script(brief: Brief, found: FindingsModel) -> Seq<Step> {
    steps_before(brief, first_stage(brief.mission), Stage::Park, found) + if brief.mission is Run {
        stage_plan(brief, Stage::Park, found).steps
    } else {
        seq![]
    }
}

/// How many steps restoring a database takes.
pub open spec fn restore_length(found: FindingsModel) -> int {
    let fetching: int = if found.archive_found->0 {
        4
    } else {
        2
    };
    let restoring: int = if found.db_found->0 {
        4
    } else {
        3
    };
    1 + fetching + 2 + restoring
}

/// The script of a take-over on its own is that of the whole run. A twin's run has one more step
/// for parking, one if it is asked for information, and those of a restore if a snapshot is named.
pub proof fn law_length_of_a_run(brief: Brief, found: FindingsModel)
    requires
        brief.mission is Upgrade || brief.mission is Run,
    ensures
        brief.mission is Upgrade ==> run_script(brief, found) == upgrade_script(brief, found),
        brief.mission matches Mission::Run { info, from_snapshot } ==> run_script(
            brief,
            found,
        ).len() == upgrade_script(brief, found).len() + 1 + (if info {
            1int
        } else {
            0
        }) + (if from_snapshot {
            restore_length(found)
        } else {
            0
        }),
{
    assert(brief.mission is Upgrade ==> run_script(brief, found) =~= upgrade_script(brief, found));
    lemma_split_at_locate(brief, Stage::Park, found);
    reveal_with_fuel(steps_before, 7);
}

/// The steps of a run up to a stage of its take-over are those before the take-over and those of
/// the take-over.
proof fn lemma_split_at_locate(brief: Brief, stage: Stage, found: FindingsModel)
    requires
        brief.mission is Upgrade || brief.mission is Run,
        rank(stage) >= rank(Stage::Locate),
    ensures
        ({
            let first = first_stage(brief.mission);
            steps_before(brief, first, stage, found).len() == steps_before(
                brief,
                first,
                Stage::Locate,
                found,
            ).len() + steps_before(brief, Stage::Locate, stage, found).len()
        }),
    decreases rank(stage),
{
    if rank(stage) > rank(Stage::Locate) {
        if let Some(before) = previous_stage(brief.mission, stage) {
            lemma_split_at_locate(brief, before, found);
        }
    }
}

/// With a sound swarm no stage of a run that takes a database over ends in a fault.
proof fn lemma_sound_stages(brief: Brief, stage: Stage, found: FindingsModel)
    requires
        sound(found.nodes),
        rank(stage) >= rank(Stage::Inspect),
    ensures
        stage_plan(brief, stage, found).end is Complete,
{
    let nodes = found.nodes;
    let n = nodes.len();
    lemma_turns(brief, stage, found);
    match stage {
        Stage::Credentials => {
            assert forall|i: int| 0 <= i < n implies (#[trigger] extracts(
                nodes,
            )(i)).end is Complete by {
                assert(nodes[i].config_account is Some);
            }
            lemma_all_complete(n, extracts(nodes));
        },
        Stage::Replace => {
            lemma_all_complete(n, halts());
            assert forall|i: int| 0 <= i < n implies (#[trigger] clones(
                brief.db,
                nodes,
            )(i)).end is Complete by {
                assert(nodes[i].config_account is Some);
            }
            lemma_all_complete(n, clones(brief.db, nodes));
            lemma_all_complete(n, checks(nodes));
        },
        Stage::Rescue => {
            lemma_all_complete((n - 1) as nat, spreads(nodes));
        },
        _ => {},
    }
}

/// With a sound swarm a run that goes on comes to a step or completes.
proof fn lemma_sound_settled<E>(m: SessionModel<E>)
    requires
        sound(m.found.nodes),
        m.brief.mission is Upgrade || m.brief.mission is Run,
        on_route(m.brief.mission, m.stage),
        m.verdict is None,
        m.plan == stage_plan(m.brief, m.stage, m.found),
    ensures
        settled(m).verdict is None || settled(m).verdict == Some(Verdict::<E>::Completed),
        settled(m).verdict is None ==> settled(m).pos < settled(m).plan.steps.len(),
    decreases 17 - rank(m.stage),
{
    lemma_sound_stages(m.brief, m.stage, m.found);
    if m.pos >= m.plan.steps.len() {
        if let Some(next) = next_stage(m.brief.mission, m.stage) {
            lemma_sound_settled(entered::<E>(m.brief, next, m.found));
        }
    }
}

/// The steps up to the end of a stage of a run are no more than those of all its stages.
pub(crate) proof fn lemma_script_covers(brief: Brief, stage: Stage, found: FindingsModel)
    requires
        brief.mission is Upgrade || brief.mission is Run,
        on_route(brief.mission, stage),
    ensures
        steps_before(brief, first_stage(brief.mission), stage, found).len() + stage_plan(
            brief,
            stage,
            found,
        ).steps.len() <= run_script(brief, found).len(),
    decreases 17 - rank(stage),
{
    if stage is Transfer && brief.mission is Upgrade {
        assert(previous_stage(brief.mission, Stage::Park) == Some(stage));
    } else {
        if let Some(next) = next_stage(brief.mission, stage) {
            lemma_script_covers(brief, next, found);
            assert(previous_stage(brief.mission, next) == Some(stage));
        }
    }
}

/// A step of a stage stands in the script behind the steps of the stages before it.
pub(crate) proof fn lemma_script_at(brief: Brief, stage: Stage, found: FindingsModel, k: int)
    requires
        brief.mission is Upgrade || brief.mission is Run,
        on_route(brief.mission, stage),
        0 <= k < stage_plan(brief, stage, found).steps.len(),
    ensures
        ({
            let before = steps_before(brief, first_stage(brief.mission), stage, found).len();
            &&& before + k < run_script(brief, found).len()
            &&& run_script(brief, found)[before + k] == stage_plan(brief, stage, found).steps[k]
        }),
{
    lemma_script_covers(brief, stage, found);
    lemma_script_starts(brief, stage, found);
    let first = first_stage(brief.mission);
    let front = steps_before(brief, first, stage, found);
    let here = front + stage_plan(brief, stage, found).steps;
    assert(here[front.len() + k] == stage_plan(brief, stage, found).steps[k]);
    assert(run_script(brief, found).take(here.len() as int)[front.len() + k] == run_script(
        brief,
        found,
    )[front.len() + k]);
}

/// The steps up to the end of a stage of a run are the first ones of its script.
proof fn lemma_script_starts(brief: Brief, stage: Stage, found: FindingsModel)
    requires
        brief.mission is Upgrade || brief.mission is Run,
        on_route(brief.mission, stage),
    ensures
        ({
            let here = steps_before(brief, first_stage(brief.mission), stage, found) + stage_plan(
                brief,
                stage,
                found,
            ).steps;
            &&& here.len() <= run_script(brief, found).len()
            &&& run_script(brief, found).take(here.len() as int) == here
        }),
    decreases 17 - rank(stage),
{
    let first = first_stage(brief.mission);
    let script = run_script(brief, found);
    let here = steps_before(brief, first, stage, found) + stage_plan(brief, stage, found).steps;
    if stage is Transfer && brief.mission is Upgrade {
        assert(previous_stage(brief.mission, Stage::Park) == Some(stage));
        assert(script =~= here);
        assert(script.take(here.len() as int) =~= here);
    } else if stage is Park {
        assert(script.take(here.len() as int) =~= here);
    } else {
        if let Some(next) = next_stage(brief.mission, stage) {
            lemma_script_starts(brief, next, found);
            assert(previous_stage(brief.mission, next) == Some(stage));
            let there = steps_before(brief, first, next, found) + stage_plan(
                brief,
                next,
                found,
            ).steps;
            assert(there.take(here.len() as int) =~= here);
            assert(script.take(here.len() as int) =~= script.take(there.len() as int).take(
                here.len() as int,
            ));
        }
    }
}

/// Where a run stands after some replies.
pub open spec fn followed<E>(start: SessionModel<E>, replies: Seq<Reply<E>>) -> SessionModel<E>
    decreases replies.len(),
{
    if replies.len() == 0 {
        start
    } else {
        advanced(followed(start, replies.drop_last()), replies.last())
    }
}

/// Whether each of some replies answers the task that is then pending, and lets the run go on.
pub open spec fn all_go_on<E>(start: SessionModel<E>, replies: Seq<Reply<E>>) -> bool
    decreases replies.len(),
{
    replies.len() > 0 ==> {
        let before = followed(start, replies.drop_last());
        &&& all_go_on(start, replies.drop_last())
        &&& before.verdict is None
        &&& fits(current(before).task, replies.last())
        &&& assessed(before.found, current(before), replies.last()) is Ok
    }
}

/// As many steps have been taken as there were replies.
pub(crate) proof fn lemma_followed<E>(brief: Brief, replies: Seq<Reply<E>>)
    requires
        brief.mission is Upgrade || brief.mission is Run,
        all_go_on(begun::<E>(brief), replies),
    ensures
        ({
            let end = followed(begun::<E>(brief), replies);
            &&& steady(end)
            &&& end.brief == brief
            &&& taken(first_stage(brief.mission), end).len() == replies.len()
        }),
    decreases replies.len(),
{
    let first = first_stage(brief.mission);
    if replies.len() == 0 {
        let start = entered::<E>(brief, first, nothing_found());
        lemma_settled(start);
        assert(start.plan.steps.take(0) =~= seq![]);
        assert(taken(first, start) =~= seq![]);
    } else {
        lemma_followed(brief, replies.drop_last());
        let before = followed(begun::<E>(brief), replies.drop_last());
        lemma_advanced(before, replies.last());
        law_steps_are_taken_in_order(first, before, replies.last());
        if let Ok(found) = assessed(before.found, current(before), replies.last()) {
            lemma_step_taken(
                before.brief,
                before.stage,
                before.pos,
                before.found,
                replies.last(),
                found,
            );
            lemma_settled_taken(first, stepped(before, found));
        }
    }
}

/// A run by a sound swarm whose replies all let it go on completes, be it a take-over on its own or
/// the run of a twin: after as many replies as its script has steps, and not before. The steps that
/// it has then taken are those of its script.
pub proof fn law_a_take_over_completes<E>(brief: Brief, replies: Seq<Reply<E>>)
    requires
        brief.mission is Upgrade || brief.mission is Run,
        all_go_on(begun::<E>(brief), replies),
        sound(followed(begun::<E>(brief), replies).found.nodes),
    ensures
        ({
            let end = followed(begun::<E>(brief), replies);
            let script = run_script(brief, end.found);
            &&& replies.len() <= script.len()
            &&& end.verdict == if replies.len() == script.len() {
                Some(Verdict::<E>::Completed)
            } else {
                None
            }
            &&& replies.len() == script.len() ==> taken(first_stage(brief.mission), end) == script
            &&& brief.mission is Upgrade ==> script.len() == 24 * end.found.nodes.len() + 11
        }),
{
    let first = first_stage(brief.mission);
    let start = begun::<E>(brief);
    let end = followed(start, replies);
    lemma_followed(brief, replies);
    law_length_of_a_take_over(brief, end.found);
    law_length_of_a_run(brief, end.found);
    if replies.len() > 0 {
        let before = followed(start, replies.drop_last());
        lemma_followed(brief, replies.drop_last());
        if let Ok(found) = assessed(before.found, current(before), replies.last()) {
            lemma_step_taken(
                before.brief,
                before.stage,
                before.pos,
                before.found,
                replies.last(),
                found,
            );
            let n = stepped(before, found);
            lemma_settled_taken(first, n);
            lemma_sound_settled(n);
            if end.verdict is Some {
                assert(end.stage is Transfer || end.stage is Park);
                assert(end.plan.steps.take(end.pos as int) =~= end.plan.steps);
                assert(previous_stage(brief.mission, Stage::Park) == Some(Stage::Transfer));
                assert(taken(first, end) =~= run_script(brief, end.found));
            } else {
                lemma_script_covers(brief, end.stage, end.found);
            }
        }
    }
}

/// A take-over by two validators or more sends one transfer: of one coin to the second of them,
/// signed with the key of the swarm, and not only estimated. The recipient's balance is read right
/// before and right after it.
pub proof fn law_one_transfer_is_sent(brief: Brief, found: FindingsModel)
    requires
        found.nodes.len() >= 2,
    ensures
        ({
            let script = upgrade_script(brief, found);
            let last = script.len() - 1;
            let recipient = found.nodes[1].peer_id;
            &&& last >= 3
            &&& forall|k: int|
                0 <= k < script.len() ==> ((#[trigger] script[k]).task is SendTransfer <==> k
                    == last - 1)
            &&& script[last - 2] == returning(Task::ReadBalance(recipient))
            &&& script[last - 1] == unwrapping(
                Task::SendTransfer {
                    recipient,
                    coins: 1,
                    config: joined(found.scratch->0, "libra-cli-config.yaml"@),
                    sending: TransferSettings {
                        signing_key: found.signing_key->0,
                        url: found.api_endpoint->0,
                        estimate_only: false,
                        legacy_address: false,
                    },
                },
            )
            &&& script[last] == returning(Task::ReadBalance(recipient))
        }),
{
    let front = steps_before(brief, Stage::Locate, Stage::Transfer, found);
    let back = stage_plan(brief, Stage::Transfer, found).steps;
    let script = upgrade_script(brief, found);
    assert(previous_stage(brief.mission, Stage::Park) == Some(Stage::Transfer));
    assert(script == front + back);
    lemma_no_transfer_before(brief, Stage::Transfer, found);
    assert forall|k: int| 0 <= k < script.len() implies ((#[trigger] script[k]).task is SendTransfer
        <==> k == script.len() - 2) by {
        if k < front.len() {
            assert(script[k] == front[k]);
        } else {
            assert(script[k] == back[k - front.len()]);
        }
    }
}

/// No stage before the last one of a take-over sends a transfer.
proof fn lemma_no_transfer_before(brief: Brief, stage: Stage, found: FindingsModel)
    requires
        is_upgrade(stage),
    ensures
        forall|k: int|
            0 <= k < steps_before(brief, Stage::Locate, stage, found).len() ==> !((
            #[trigger] steps_before(brief, Stage::Locate, stage, found)[k]).task is SendTransfer),
    decreases rank(stage),
{
    if rank(stage) > rank(Stage::Locate) {
        if let Some(before) = previous_stage(brief.mission, stage) {
            lemma_no_transfer_before(brief, before, found);
            lemma_stage_steps(brief, before, found);
            let front = steps_before(brief, Stage::Locate, before, found);
            let back = stage_plan(brief, before, found).steps;
            let all = steps_before(brief, Stage::Locate, stage, found);
            assert forall|k: int| 0 <= k < all.len() implies !((
            #[trigger] all[k]).task is SendTransfer) by {
                if k < front.len() {
                    assert(all[k] == front[k]);
                } else {
                    assert(all[k] == back[k - front.len()]);
                    assert(belongs(before, back[k - front.len()]));
                }
            }
        }
    }
}

/// Whether a task of a take-over may write, create, move or remove what lies at a path. A swarm
/// that is started makes directories of its own, which are those of its validators.
pub open spec fn alters(task: Task, nodes: Seq<Node>, path: PathBuf) -> bool {
    match task {
        Task::CreateDir(dir) => path == dir,
        Task::MoveDir { from, to, .. } => path == from || path == to,
        Task::CopyContents { to, .. } => path == to,
        Task::CopyFile { to, .. } => path == to,
        Task::WriteFile(file) => path == file,
        Task::SaveConfig { file, .. } => path == file,
        Task::AddValidators(db) => path == db,
        Task::Bootstrap { db, .. } => path == db,
        Task::ClearStorage(node) => path == nodes[node as int].storage_dir,
        Task::StartNode(node) => path == nodes[node as int].storage_dir,
        Task::InitValidatorConfig { dir, .. } => path == dir,
        _ => false,
    }
}

/// Whether a path is one of a validator's own: its database, the rescue blob in it, the directory
/// that its former database is moved to, or its configuration.
pub open spec fn own_path(node: Node, path: PathBuf) -> bool {
    ||| path == node.storage_dir
    ||| path == blob_in(node.storage_dir)
    ||| path == node.config_path
    ||| parent_of(node.storage_dir) matches Some(above) && path == joined(above, "db-old"@)
}

/// Whether a path belongs to the swarm, or is the directory for what is not kept.
pub open spec fn swarm_path(found: FindingsModel, path: PathBuf) -> bool {
    ||| exists|i: int| 0 <= i < found.nodes.len() && own_path(#[trigger] found.nodes[i], path)
    ||| found.scratch == Some(path)
}

/// Whether a step alters only what belongs to the swarm.
pub open spec fn keeps_to_the_swarm(step: Step, found: FindingsModel) -> bool {
    forall|path: PathBuf|
        #[trigger] alters(step.task, found.nodes, path) ==> swarm_path(found, path)
}

/// Every step of a take-over alters only what belongs to the swarm.
pub proof fn law_a_take_over_alters_only_the_swarm(
    brief: Brief,
    stage: Stage,
    found: FindingsModel,
    k: int,
)
    requires
        is_upgrade(stage),
        stage is Transfer ==> found.scratch is Some,
        found.nodes.len() <= usize::MAX,
        0 <= k < stage_plan(brief, stage, found).steps.len(),
    ensures
        keeps_to_the_swarm(stage_plan(brief, stage, found).steps[k], found),
{
    let holds = |step: Step| keeps_to_the_swarm(step, found);
    let nodes = found.nodes;
    let n = nodes.len();
    let plan = stage_plan(brief, stage, found);
    match stage {
        Stage::Credentials => {
            lemma_every_step(n, extracts(nodes), holds);
        },
        Stage::Replace => {
            assert forall|i: int, j: int|
                0 <= i < n && 0 <= j < halts()(i).steps.len() implies holds(
                #[trigger] halts()(i).steps[j],
            ) by {
                assert(own_path(nodes[i], nodes[i].storage_dir));
            }
            lemma_every_step(n, halts(), holds);
            assert forall|i: int, j: int|
                0 <= i < n && 0 <= j < clones(brief.db, nodes)(i).steps.len() implies holds(
                #[trigger] clones(brief.db, nodes)(i).steps[j],
            ) by {
                let step = clones(brief.db, nodes)(i).steps[j];
                assert forall|path: PathBuf| #[trigger] alters(step.task, nodes, path) implies
                    swarm_path(found, path) by {
                    assert(own_path(nodes[i], path));
                }
            }
            lemma_every_step(n, clones(brief.db, nodes), holds);
            lemma_every_step(n, checks(nodes), holds);
        },
        Stage::Rescue => {
            if n > 0 {
                assert(own_path(nodes[0], nodes[0].storage_dir));
                assert(own_path(nodes[0], blob_in(nodes[0].storage_dir)));
                let others = (n - 1) as nat;
                assert forall|i: int, j: int|
                    0 <= i < others && 0 <= j < spreads(nodes)(i).steps.len() implies holds(
                    #[trigger] spreads(nodes)(i).steps[j],
                ) by {
                    assert(own_path(nodes[i + 1], blob_in(nodes[i + 1].storage_dir)));
                }
                lemma_every_step(others, spreads(nodes), holds);
                let first = rescue_plan(nodes[0].storage_dir).steps;
                assert(holds(first[0]) && holds(first[1]) && holds(first[2]));
            }
        },
        Stage::Bootstrap => {
            assert forall|i: int, j: int|
                0 <= i < n && 0 <= j < bootstraps(nodes)(i).steps.len() implies holds(
                #[trigger] bootstraps(nodes)(i).steps[j],
            ) by {
                assert(own_path(nodes[i], nodes[i].storage_dir));
            }
            lemma_every_step(n, bootstraps(nodes), holds);
        },
        Stage::Restart => {
            let turns = rejoins(nodes, found.waypoints, found.geneses);
            assert forall|i: int, j: int|
                0 <= i < n && 0 <= j < turns(i).steps.len() implies holds(
                #[trigger] turns(i).steps[j],
            ) by {
                assert(own_path(nodes[i], nodes[i].storage_dir));
                assert(own_path(nodes[i], nodes[i].config_path));
            }
            lemma_every_step(n, turns, holds);
        },
        _ => {},
    }
    assert(holds(plan.steps[k]));
}

/// A take-over only reads the production database. Where nothing that belongs to the swarm lies in
/// a region, no task of a take-over, whether it ends well or not, alters anything in it.
pub proof fn law_the_production_database_is_only_read<E>(
    m: SessionModel<E>,
    region: spec_fn(PathBuf) -> bool,
    path: PathBuf,
)
    requires
        steady(m),
        m.verdict is None,
        is_upgrade(m.stage),
        m.found.nodes.len() <= usize::MAX,
        region(m.brief.db),
        forall|p: PathBuf| #[trigger] swarm_path(m.found, p) ==> !region(p),
        region(path),
    ensures
        !alters(current(m).task, m.found.nodes, path),
        !alters(current(m).task, m.found.nodes, m.brief.db),
{
    law_a_take_over_alters_only_the_swarm(m.brief, m.stage, m.found, m.pos as int);
    assert(keeps_to_the_swarm(current(m), m.found));
}

} // verus!
