//! The course of runs and errands: where they start, what comes after what, where they end, and
//! which task is pending after how many replies.
use crate::errand::{at, moved_on, set_out, under_way, ErrandModel};
use crate::findings::{assessed, nothing_found, FindingsModel};
use crate::laws::{
    all_go_on, followed, lemma_followed, lemma_later, lemma_script_at, lemma_settled_taken,
    run_script, sound, steps_before, upgrade_script,
};
use crate::outside::{joined, parent_of};
use crate::plan::{
    fits, CopySettings, Deadline, Ending, Fault, NodeChanges, OnFailure, PlanModel, Reply, Step,
    SwarmInfo, Task, TransferSettings, Verdict,
};
use crate::replies::{law_nothing_is_known_at_first, law_what_a_listing_leads_to, newest};
use crate::scripts::{
    law_every_database_is_replaced, law_every_validator_shows_its_own_identity,
    law_steps_around_a_run, law_steps_of_a_fetch, law_steps_of_a_restore,
    law_steps_of_the_bootstrap, law_steps_of_the_launch, law_steps_of_the_rescue,
    law_steps_of_the_restart, law_steps_of_the_transfer,
};
use crate::session::{
    advanced, begun, current, entered, lemma_advanced, operator_path, settled, steady, stepped,
    SessionModel,
};
use crate::snapshot::SnapshotEntry;
use crate::stages::{
    belongs, lemma_stage_steps, lemma_step_taken, rank, stage_plan, Brief, Mission, Stage,
};
use crate::twin::run_model;
use std::path::PathBuf;
use vstd::prelude::*;

verus! {

/// The step that is pending is the one at the place that a run or an errand has come to.
pub proof fn law_the_pending_step<E>(m: SessionModel<E>, errand: ErrandModel<E>)
    ensures
        current(m) == m.plan.steps[m.pos as int],
        at(errand) == errand.plan.steps[errand.pos as int],
{
}

/// A run starts, knowing nothing, with the first step of what it is for: making a validator,
/// restoring a database, or taking one over; a twin's run reports first if it is asked to, and
/// restores before it takes over if a snapshot is named.
pub proof fn law_where_a_run_starts<E>(brief: Brief)
    ensures
        ({
            let m = begun::<E>(brief);
            let stage = match brief.mission {
                Mission::Initialize => Stage::Hatch,
                Mission::Load => Stage::Archive,
                Mission::Upgrade => Stage::Locate,
                Mission::Run { info: true, .. } => Stage::Inspect,
                Mission::Run { info: false, from_snapshot: true } => Stage::Archive,
                Mission::Run { info: false, from_snapshot: false } => Stage::Locate,
            };
            &&& m == (SessionModel::<E> {
                brief,
                stage,
                plan: stage_plan(brief, stage, m.found),
                pos: 0,
                found: m.found,
                verdict: None,
            })
            &&& m.found.nodes.len() == 0 && m.found.credentials.len() == 0
            &&& m.found.waypoints.len() == 0 && m.found.geneses.len() == 0
            &&& m.found.identity is None && m.found.blob is None && m.found.latest is None
            &&& m.found.balance is None && m.found.scratch is None && m.found.current_dir is None
        }),
{
    law_nothing_is_known_at_first();
}

/// A twin runs with three validators, on its own database, as it is asked to.
pub proof fn law_what_a_twin_runs<E>(db_dir: PathBuf, info: bool, from_snapshot: bool)
    ensures
        run_model::<E>(db_dir, info, from_snapshot).brief == (Brief {
            mission: Mission::Run { info, from_snapshot },
            db: db_dir,
            validators: 3,
        }),
        run_model::<E>(db_dir, info, from_snapshot) == begun::<E>(
            Brief { mission: Mission::Run { info, from_snapshot }, db: db_dir, validators: 3 },
        ),
{
}

/// A reply that lets a run go on leads to the next step of the stage, where there is one, with what
/// the reply added.
pub proof fn law_a_step_leads_to_the_next<E>(
    m: SessionModel<E>,
    reply: Reply<E>,
    found: FindingsModel,
)
    requires
        steady(m),
        m.verdict is None,
        fits(current(m).task, reply),
        assessed(m.found, current(m), reply) == Ok::<FindingsModel, Verdict<E>>(found),
        m.pos + 1 < m.plan.steps.len(),
    ensures
        advanced(m, reply) == (SessionModel {
            plan: stage_plan(m.brief, m.stage, found),
            pos: m.pos + 1,
            found,
            ..m
        }),
{
    lemma_step_taken(m.brief, m.stage, m.pos, m.found, reply, found);
}

/// After the last step of a stage comes the first step of the stage that follows, or the end. A
/// fault at the end of a stage, or of one that has no step, is a panic.
pub proof fn law_a_stage_leads_to_the_next<E>(
    m: SessionModel<E>,
    reply: Reply<E>,
    found: FindingsModel,
)
    requires
        steady(m),
        m.verdict is None,
        fits(current(m).task, reply),
        assessed(m.found, current(m), reply) == Ok::<FindingsModel, Verdict<E>>(found),
        m.pos + 1 == m.plan.steps.len(),
    ensures
        ({
            let last = SessionModel {
                plan: stage_plan(m.brief, m.stage, found),
                pos: m.pos + 1,
                found,
                ..m
            };
            let next = match m.stage {
                Stage::Hatch => Some(Stage::Halt),
                Stage::Halt => None,
                Stage::Inspect => match m.brief.mission {
                    Mission::Run { from_snapshot: true, .. } => Some(Stage::Archive),
                    _ => Some(Stage::Locate),
                },
                Stage::Archive => Some(Stage::Fetch),
                Stage::Fetch => Some(Stage::Manifest),
                Stage::Manifest => Some(Stage::Restore),
                Stage::Restore => match m.brief.mission {
                    Mission::Run { .. } => Some(Stage::Locate),
                    _ => None,
                },
                Stage::Locate => Some(Stage::Launch),
                Stage::Launch => Some(Stage::Credentials),
                Stage::Credentials => Some(Stage::Replace),
                Stage::Replace => Some(Stage::Rescue),
                Stage::Rescue => Some(Stage::Bootstrap),
                Stage::Bootstrap => Some(Stage::Restart),
                Stage::Restart => Some(Stage::Liveness),
                Stage::Liveness => Some(Stage::Transfer),
                Stage::Transfer => match m.brief.mission {
                    Mission::Run { .. } => Some(Stage::Park),
                    _ => None,
                },
                Stage::Park => None,
            };
            match (last.plan.end, next) {
                (Ending::Fault(fault), _) => advanced(m, reply) == (SessionModel {
                    verdict: Some(Verdict::Panicked(fault)),
                    ..last
                }),
                (Ending::Complete, None) => advanced(m, reply) == (SessionModel {
                    verdict: Some(Verdict::Completed),
                    ..last
                }),
                (Ending::Complete, Some(stage)) => {
                    let plan = stage_plan(m.brief, stage, found);
                    let first = SessionModel { stage, plan, pos: 0, found, ..m };
                    &&& plan.steps.len() > 0 ==> advanced(m, reply) == first
                    &&& plan.steps.len() == 0 ==> (plan.end matches Ending::Fault(fault)
                        ==> advanced(m, reply) == (SessionModel {
                        verdict: Some(Verdict::Panicked(fault)),
                        ..first
                    }))
                },
            }
        }),
{
    lemma_step_taken(m.brief, m.stage, m.pos, m.found, reply, found);
    reveal_with_fuel(settled, 2);
}

/// A take-over cannot be made without validators: a swarm that has none ends it.
pub proof fn law_a_swarm_must_have_validators<E>(m: SessionModel<E>, swarm: SwarmInfo)
    requires
        steady(m),
        m.verdict is None,
        m.stage is Launch,
        swarm.nodes@.len() == 0,
    ensures
        advanced(m, Reply::<E>::Swarm(swarm)).verdict == Some(
            Verdict::<E>::Panicked(Fault::NoValidators),
        ),
{
    let reply = Reply::<E>::Swarm(swarm);
    if let Ok(found) = assessed(m.found, current(m), reply) {
        let n = stepped(m, found);
        let collecting = entered::<E>(m.brief, Stage::Credentials, found);
        let replacing = entered::<E>(m.brief, Stage::Replace, found);
        let rescuing = entered::<E>(m.brief, Stage::Rescue, found);
        assert(found.nodes.len() == 0);
        assert(replacing.plan.steps.len() == 0 && replacing.plan.end is Complete);
        assert(settled(n) == settled(collecting));
        assert(settled(collecting) == settled(replacing));
        assert(settled(replacing) == settled(rescuing));
    }
}

/// A reply that does not let a run go on ends it, and nothing else changes. Only an error that a
/// twin's take-over returns, from finding out where it was started to the last reading of the
/// balance, leaves the network running instead.
pub proof fn law_how_a_run_ends<E>(m: SessionModel<E>, reply: Reply<E>, verdict: Verdict<E>)
    requires
        m.verdict is None,
        assessed(m.found, current(m), reply) == Err::<FindingsModel, Verdict<E>>(verdict),
    ensures
        ({
            let takes_over = match m.stage {
                Stage::Locate | Stage::Launch | Stage::Credentials | Stage::Replace => true,
                Stage::Rescue | Stage::Bootstrap | Stage::Restart => true,
                Stage::Liveness | Stage::Transfer => true,
                _ => false,
            };
            advanced(m, reply) == if verdict is Returned && m.brief.mission is Run && takes_over {
                SessionModel {
                    stage: Stage::Park,
                    plan: stage_plan(m.brief, Stage::Park, m.found),
                    pos: 0,
                    ..m
                }
            } else {
                SessionModel { verdict: Some(verdict), ..m }
            }
        }),
{
}

/// An errand follows its plan from the first step on: a reply that lets it go on leads to the next
/// step, with what the reply added, and after the last one to the end of the plan; any other reply
/// ends it, and nothing else changes.
pub proof fn law_the_course_of_an_errand<E>(
    plan: PlanModel,
    found: FindingsModel,
    m: ErrandModel<E>,
    reply: Reply<E>,
)
    ensures
        under_way::<E>(plan, 0, found).plan == plan,
        under_way::<E>(plan, 0, found).pos == 0,
        under_way::<E>(plan, 0, found).found == found,
        plan.steps.len() > 0 ==> under_way::<E>(plan, 0, found).verdict is None,
        set_out::<E>(plan) == under_way::<E>(plan, 0, nothing_found()),
        match assessed(m.found, at(m), reply) {
            Ok(after) => {
                let next = moved_on(m, reply);
                &&& next.plan == m.plan && next.pos == m.pos + 1 && next.found == after
                &&& m.pos + 1 < m.plan.steps.len() ==> next.verdict is None
                &&& m.pos + 1 >= m.plan.steps.len() ==> next.verdict == Some(
                    match m.plan.end {
                        Ending::Complete => Verdict::<E>::Completed,
                        Ending::Fault(fault) => Verdict::<E>::Panicked(fault),
                    },
                )
            },
            Err(verdict) => moved_on(m, reply) == (ErrandModel { verdict: Some(verdict), ..m }),
        },
        plan.steps.len() == 0 ==> under_way::<E>(plan, 0, found).verdict == Some(
            match plan.end {
                Ending::Complete => Verdict::<E>::Completed,
                Ending::Fault(fault) => Verdict::<E>::Panicked(fault),
            },
        ),
{
}

/// The operator file of a validator that was made lies beside its configuration; no other run, and
/// none that has not completed, has one.
pub proof fn law_where_the_operator_file_lies<E>(m: SessionModel<E>)
    ensures
        m.brief.mission is Initialize && m.verdict == Some(Verdict::<E>::Completed)
            && m.found.nodes.len() > 0 && parent_of(m.found.nodes[0].config_path) is Some
            ==> operator_path(m) == Some(
            joined(parent_of(m.found.nodes[0].config_path)->0, "operator.yaml"@),
        ),
        !(m.brief.mission is Initialize) || m.verdict != Some(Verdict::<E>::Completed)
            || m.found.nodes.len() == 0 || parent_of(m.found.nodes[0].config_path) is None
            ==> operator_path(m) is None,
{
}

/// The latest snapshot that was listed is the one that is restored, whatever happens in between:
/// where a run that had its entries listed comes to the restoring, it is of an entry that no other
/// was modified after, and from the manifest of that entry.
pub proof fn law_the_latest_snapshot_is_restored<E>(
    m: SessionModel<E>,
    entries: Vec<SnapshotEntry>,
    replies: Seq<Reply<E>>,
)
    requires
        steady(m),
        m.verdict is None,
        current(m).task is ListSnapshots,
        assessed(m.found, current(m), Reply::<E>::Entries(entries)) is Ok,
        advanced(m, Reply::<E>::Entries(entries)).verdict is None,
        all_go_on(advanced(m, Reply::<E>::Entries(entries)), replies),
        ({
            let end = followed(advanced(m, Reply::<E>::Entries(entries)), replies);
            end.verdict is None && current(end).task is RestoreSnapshot
        }),
    ensures
        ({
            let task = current(
                followed(advanced(m, Reply::<E>::Entries(entries)), replies),
            ).task;
            exists|p: int|
                {
                    &&& #[trigger] newest(entries@, p)
                    &&& task->RestoreSnapshot_storage == entries@[p].path
                    &&& task->RestoreSnapshot_manifest == joined(
                        entries@[p].path,
                        "epoch_ending.manifest"@,
                    )
                }
        }),
{
    let start = advanced(m, Reply::<E>::Entries(entries));
    lemma_listed(m, entries);
    lemma_after_listing(start, replies);
    let end = followed(start, replies);
    lemma_restoring(end);
    let p = choose|p: int| #[trigger]
        newest(entries@, p) && start.found.latest == Some(entries@[p].path);
    assert(newest(entries@, p));
}

/// A listing that lets a run go on leaves the newest entry as the latest snapshot.
proof fn lemma_listed<E>(m: SessionModel<E>, entries: Vec<SnapshotEntry>)
    requires
        steady(m),
        m.verdict is None,
        current(m).task is ListSnapshots,
        assessed(m.found, current(m), Reply::<E>::Entries(entries)) is Ok,
    ensures
        ({
            let start = advanced(m, Reply::<E>::Entries(entries));
            &&& steady(start)
            &&& start.stage is Manifest
            &&& exists|p: int| #[trigger]
                newest(entries@, p) && start.found.latest == Some(entries@[p].path)
        }),
{
    let reply = Reply::<E>::Entries(entries);
    lemma_stage_steps(m.brief, m.stage, m.found);
    assert(belongs(m.stage, current(m)));
    assert(m.stage is Fetch);
    lemma_advanced(m, reply);
    law_what_a_listing_leads_to::<E>(m.found, current(m), entries);
    if let Ok(found) = assessed(m.found, current(m), reply) {
        law_steps_of_a_fetch(m.brief, m.found);
        assert(m.pos + 1 == m.plan.steps.len());
        law_a_stage_leads_to_the_next(m, reply, found);
    }
}

/// What is restored is the latest snapshot.
proof fn lemma_restoring<E>(m: SessionModel<E>)
    requires
        steady(m),
        m.verdict is None,
        current(m).task is RestoreSnapshot,
    ensures
        m.found.latest is Some,
        current(m).task->RestoreSnapshot_storage == m.found.latest->0,
        current(m).task->RestoreSnapshot_manifest == joined(
            m.found.latest->0,
            "epoch_ending.manifest"@,
        ),
{
    lemma_stage_steps(m.brief, m.stage, m.found);
    assert(belongs(m.stage, current(m)));
    assert(m.stage is Restore);
    let cleared: int = if m.found.db_found == Some(true) {
        1
    } else {
        0
    };
    law_steps_of_a_restore(m.brief, m.found, m.found.latest->0, cleared);
}

/// Once the snapshots are listed, the latest one stays the same.
proof fn lemma_after_listing<E>(start: SessionModel<E>, replies: Seq<Reply<E>>)
    requires
        steady(start),
        start.verdict is None,
        rank(start.stage) > rank(Stage::Fetch),
        all_go_on(start, replies),
    ensures
        ({
            let end = followed(start, replies);
            &&& steady(end)
            &&& end.found.latest == start.found.latest
            &&& rank(end.stage) > rank(Stage::Fetch)
        }),
    decreases replies.len(),
{
    if replies.len() > 0 {
        lemma_after_listing(start, replies.drop_last());
        let before = followed(start, replies.drop_last());
        let reply = replies.last();
        lemma_advanced(before, reply);
        lemma_stage_steps(before.brief, before.stage, before.found);
        assert(belongs(before.stage, current(before)));
        if let Ok(found) = assessed(before.found, current(before), reply) {
            lemma_step_taken(before.brief, before.stage, before.pos, before.found, reply, found);
            lemma_later(stepped(before, found));
            lemma_settled_taken(before.stage, stepped(before, found));
        }
    }
}

/// The task that is pending after some replies that all let a run go on is the one that stands at
/// their number in the script of the run.
pub proof fn law_the_task_after_some_replies<E>(brief: Brief, replies: Seq<Reply<E>>)
    requires
        brief.mission is Upgrade || brief.mission is Run,
        all_go_on(begun::<E>(brief), replies),
        followed(begun::<E>(brief), replies).verdict is None,
    ensures
        ({
            let end = followed(begun::<E>(brief), replies);
            &&& end.brief == brief
            &&& replies.len() < run_script(brief, end.found).len()
            &&& current(end) == run_script(brief, end.found)[replies.len() as int]
        }),
{
    lemma_followed(brief, replies);
    let end = followed(begun::<E>(brief), replies);
    lemma_script_at(brief, end.stage, end.found, end.pos as int);
}

/// The script of a twin's run: the report if it is asked for, the restore if a snapshot is named,
/// the take-over, and parking.
pub proof fn law_script_of_a_run(
    brief: Brief,
    found: FindingsModel,
    info: bool,
    from_snapshot: bool,
)
    requires
        brief.mission == (Mission::Run { info, from_snapshot }),
    ensures
        ({
            let report = if info {
                stage_plan(brief, Stage::Inspect, found).steps
            } else {
                seq![]
            };
            let restore = if from_snapshot {
                stage_plan(brief, Stage::Archive, found).steps + stage_plan(
                    brief,
                    Stage::Fetch,
                    found,
                ).steps + stage_plan(brief, Stage::Manifest, found).steps + stage_plan(
                    brief,
                    Stage::Restore,
                    found,
                ).steps
            } else {
                seq![]
            };
            run_script(brief, found) == report + restore + upgrade_script(brief, found) + seq![
                Step { task: Task::Park, on_failure: OnFailure::Ignore },
            ]
        }),
{
    law_steps_around_a_run(brief, found);
    lemma_split(brief, Stage::Park, found);
    reveal_with_fuel(steps_before, 7);
    let park = stage_plan(brief, Stage::Park, found).steps;
    assert(park =~= seq![Step { task: Task::Park, on_failure: OnFailure::Ignore }]);
    let report: Seq<Step> = if info {
        stage_plan(brief, Stage::Inspect, found).steps
    } else {
        seq![]
    };
    let restore: Seq<Step> = if from_snapshot {
        stage_plan(brief, Stage::Archive, found).steps + stage_plan(
            brief,
            Stage::Fetch,
            found,
        ).steps + stage_plan(brief, Stage::Manifest, found).steps + stage_plan(
            brief,
            Stage::Restore,
            found,
        ).steps
    } else {
        seq![]
    };
    let first = crate::stages::first_stage(brief.mission);
    assert(steps_before(brief, first, Stage::Locate, found) =~= report + restore);
}

/// The steps of a twin's run are those before the take-over and those of the take-over.
proof fn lemma_split(brief: Brief, stage: Stage, found: FindingsModel)
    requires
        brief.mission is Run,
        rank(stage) >= rank(Stage::Locate),
    ensures
        ({
            let first = crate::stages::first_stage(brief.mission);
            steps_before(brief, first, stage, found) == steps_before(
                brief,
                first,
                Stage::Locate,
                found,
            ) + steps_before(brief, Stage::Locate, stage, found)
        }),
    decreases rank(stage),
{
    let first = crate::stages::first_stage(brief.mission);
    if rank(stage) > rank(Stage::Locate) {
        if let Some(before) = crate::laws::previous_stage(brief.mission, stage) {
            lemma_split(brief, before, found);
            assert(steps_before(brief, first, stage, found) =~= steps_before(
                brief,
                first,
                Stage::Locate,
                found,
            ) + steps_before(brief, Stage::Locate, stage, found));
        }
    } else {
        assert(stage is Locate);
        assert(steps_before(brief, Stage::Locate, stage, found) =~= seq![]);
        assert(steps_before(brief, first, stage, found) =~= steps_before(
            brief,
            first,
            Stage::Locate,
            found,
        ) + steps_before(brief, Stage::Locate, stage, found));
    }
}

/// How many steps the stages of a take-over have, by the number of validators.
proof fn lemma_lengths(brief: Brief, found: FindingsModel)
    requires
        sound(found.nodes),
        found.nodes.len() <= usize::MAX,
    ensures
        ({
            let n = found.nodes.len();
            &&& stage_plan(brief, Stage::Locate, found).steps.len() == 1
            &&& stage_plan(brief, Stage::Launch, found).steps.len() == 1
            &&& stage_plan(brief, Stage::Credentials, found).steps.len() == 2 * n
            &&& stage_plan(brief, Stage::Replace, found).steps.len() == 10 * n
            &&& stage_plan(brief, Stage::Rescue, found).steps.len() == n + 2
            &&& stage_plan(brief, Stage::Bootstrap, found).steps.len() == 3 * n
            &&& stage_plan(brief, Stage::Restart, found).steps.len() == 8 * n
            &&& stage_plan(brief, Stage::Liveness, found).steps.len() == 3
            &&& stage_plan(brief, Stage::Transfer, found).steps.len() == 4
        }),
{
    assert forall|v: int| 0 <= v < found.nodes.len() implies (
    #[trigger] found.nodes[v]).config_account is Some && parent_of(found.nodes[v].config_path)
        is Some && parent_of(found.nodes[v].storage_dir) is Some by {}
    law_steps_of_the_launch(brief, found);
    law_every_validator_shows_its_own_identity(brief, found, 0);
    law_every_database_is_replaced(brief, found, 0);
    law_steps_of_the_rescue(brief, found, 0);
    law_steps_of_the_bootstrap(brief, found, 0);
    law_steps_of_the_restart(brief, found, 0);
    law_steps_of_the_transfer(brief, found);
}

/// Where the stages of a take-over stand in its script, by the number of validators.
proof fn lemma_offsets(brief: Brief, found: FindingsModel)
    requires
        sound(found.nodes),
        found.nodes.len() <= usize::MAX,
    ensures
        ({
            let n = found.nodes.len();
            let first = Stage::Locate;
            &&& steps_before(brief, first, Stage::Locate, found).len() == 0
            &&& steps_before(brief, first, Stage::Launch, found).len() == 1
            &&& steps_before(brief, first, Stage::Credentials, found).len() == 2
            &&& steps_before(brief, first, Stage::Replace, found).len() == 2 + 2 * n
            &&& steps_before(brief, first, Stage::Rescue, found).len() == 2 + 12 * n
            &&& steps_before(brief, first, Stage::Bootstrap, found).len() == 4 + 13 * n
            &&& steps_before(brief, first, Stage::Restart, found).len() == 4 + 16 * n
            &&& steps_before(brief, first, Stage::Liveness, found).len() == 4 + 24 * n
            &&& steps_before(brief, first, Stage::Transfer, found).len() == 7 + 24 * n
        }),
{
    lemma_lengths(brief, found);
    let n = found.nodes.len();
    let first = Stage::Locate;
    assert(steps_before(brief, first, Stage::Locate, found).len() == 0);
    assert(steps_before(brief, first, Stage::Launch, found).len() == 1);
    assert(steps_before(brief, first, Stage::Credentials, found).len() == 2);
    assert(steps_before(brief, first, Stage::Replace, found).len() == 2 + 2 * n);
    assert(steps_before(brief, first, Stage::Rescue, found).len() == 2 + 12 * n);
    assert(steps_before(brief, first, Stage::Bootstrap, found).len() == 4 + 13 * n);
    assert(steps_before(brief, first, Stage::Restart, found).len() == 4 + 16 * n);
    assert(steps_before(brief, first, Stage::Liveness, found).len() == 4 + 24 * n);
    assert(steps_before(brief, first, Stage::Transfer, found).len() == 7 + 24 * n);
}

/// Whether a take-over by a sound swarm is under way after some replies that all let it go on, and
/// a place is that of a validator.
pub open spec fn on_course<E>(brief: Brief, replies: Seq<Reply<E>>, i: int) -> bool {
    let end = followed(begun::<E>(brief), replies);
    &&& brief.mission is Upgrade
    &&& all_go_on(begun::<E>(brief), replies)
    &&& end.verdict is None
    &&& sound(end.found.nodes)
    &&& 0 <= i < end.found.nodes.len() <= usize::MAX
}

/// The step that is pending after some replies, by its place in a stage.
proof fn lemma_task_at<E>(brief: Brief, replies: Seq<Reply<E>>, stage: Stage, j: int)
    requires
        brief.mission is Upgrade,
        all_go_on(begun::<E>(brief), replies),
        followed(begun::<E>(brief), replies).verdict is None,
        rank(Stage::Locate) <= rank(stage) <= rank(Stage::Transfer),
        ({
            let found = followed(begun::<E>(brief), replies).found;
            &&& 0 <= j < stage_plan(brief, stage, found).steps.len()
            &&& replies.len() == steps_before(brief, Stage::Locate, stage, found).len() + j
        }),
    ensures
        ({
            let end = followed(begun::<E>(brief), replies);
            current(end) == stage_plan(brief, stage, end.found).steps[j]
        }),
{
    law_the_task_after_some_replies(brief, replies);
    lemma_script_at(brief, stage, followed(begun::<E>(brief), replies).found, j);
}

/// The course of a take-over by `n` validators, first part: after the start, the validator at place
/// `i` shows the identity beside its own configuration, and the chain is asked for its own account.
pub proof fn law_the_course_of_collecting<E>(brief: Brief, replies: Seq<Reply<E>>, i: int)
    requires
        on_course::<E>(brief, replies, i),
    ensures
        ({
            let end = followed(begun::<E>(brief), replies);
            let task = current(end).task;
            let k = replies.len();
            let node = end.found.nodes[i];
            let place = i as usize;
            &&& k == 2 + 2 * i ==> task == (Task::ReadIdentity {
                node: place,
                file: joined(parent_of(node.config_path)->0, "public-identity.yaml"@),
            })
            &&& k == 3 + 2 * i ==> task == (Task::QueryView {
                node: place,
                function: "0x1::stake::get_validator_config",
                account: node.config_account->0,
            })
        }),
{
    let end = followed(begun::<E>(brief), replies);
    let found = end.found;
    let n = found.nodes.len();
    let k = replies.len() as int;
    lemma_offsets(brief, found);
    assert forall|v: int| 0 <= v < n implies (#[trigger] found.nodes[v]).config_account is Some
        && parent_of(found.nodes[v].config_path) is Some && parent_of(found.nodes[v].storage_dir)
        is Some by {}
    law_every_validator_shows_its_own_identity(brief, found, i);
    if 2 + 2 * i <= k < 2 + 2 * i + 2 {
        lemma_task_at(brief, replies, Stage::Credentials, k - (2));
    }
}

/// The course of a take-over by `n` validators, second part: all validators are stopped and
/// cleared; then the validator at place `i` has its own database moved away and replaced by a copy
/// of the production database; last all databases must be there.
pub proof fn law_the_course_of_replacing<E>(brief: Brief, replies: Seq<Reply<E>>, i: int)
    requires
        on_course::<E>(brief, replies, i),
    ensures
        ({
            let end = followed(begun::<E>(brief), replies);
            let task = current(end).task;
            let k = replies.len();
            let n = end.found.nodes.len();
            let node = end.found.nodes[i];
            let place = i as usize;
            let db = node.storage_dir;
            let old_db = joined(parent_of(db)->0, "db-old"@);
            let keep = CopySettings { overwrite: false, skip_exist: false };
            &&& k == 2 + 2 * n + 2 * i ==> task == Task::StopNode(place)
            &&& k == 3 + 2 * n + 2 * i ==> task == Task::ClearStorage(place)
            &&& k == 2 + 4 * n + 7 * i ==> task == Task::RequirePresent(brief.db)
            &&& k == 3 + 4 * n + 7 * i ==> task == Task::RequirePresent(db)
            &&& k == 4 + 4 * n + 7 * i ==> task == Task::CreateDir(old_db)
            &&& k == 5 + 4 * n + 7 * i ==> task == (Task::MoveDir {
                from: db,
                to: old_db,
                copying: keep,
            })
            &&& k == 6 + 4 * n + 7 * i ==> task == Task::RequireAbsent(db)
            &&& k == 7 + 4 * n + 7 * i ==> task == Task::CreateDir(db)
            &&& k == 8 + 4 * n + 7 * i ==> task == (Task::CopyContents {
                from: brief.db,
                to: db,
                copying: keep,
            })
            &&& k == 2 + 11 * n + i ==> task == Task::RequirePresent(db)
        }),
{
    let end = followed(begun::<E>(brief), replies);
    let found = end.found;
    let n = found.nodes.len();
    let k = replies.len() as int;
    lemma_offsets(brief, found);
    assert forall|v: int| 0 <= v < n implies (#[trigger] found.nodes[v]).config_account is Some
        && parent_of(found.nodes[v].config_path) is Some && parent_of(found.nodes[v].storage_dir)
        is Some by {}
    law_every_database_is_replaced(brief, found, i);
    if 2 + 2 * n <= k < 2 + 12 * n {
        lemma_task_at(brief, replies, Stage::Replace, k - (2 + 2 * n));
    }
}

/// The course of a take-over by `n` validators, third part: the rescue blob is made in the database
/// of the first validator and copied into that of each other; then the database at place `i` is
/// bootstrapped with the blob in it, on trial and, after a pause, for good.
pub proof fn law_the_course_of_rescuing<E>(brief: Brief, replies: Seq<Reply<E>>, i: int)
    requires
        on_course::<E>(brief, replies, i),
    ensures
        ({
            let end = followed(begun::<E>(brief), replies);
            let task = current(end).task;
            let k = replies.len();
            let n = end.found.nodes.len();
            let node = end.found.nodes[i];
            let db = node.storage_dir;
            let blob = joined(db, "rescue.blob"@);
            let first_db = end.found.nodes[0].storage_dir;
            &&& k == 2 + 12 * n ==> task == Task::AddValidators(first_db)
            &&& k == 3 + 12 * n ==> task == Task::UnpackChangeSet
            &&& k == 4 + 12 * n ==> task == Task::WriteFile(joined(first_db, "rescue.blob"@))
            &&& i > 0 && k == 4 + 12 * n + i ==> task == (Task::CopyFile {
                from: joined(first_db, "rescue.blob"@),
                to: blob,
            })
            &&& k == 4 + 13 * n + 3 * i ==> task == (Task::Bootstrap {
                db,
                genesis: blob,
                commit: false,
                waypoint_to_verify: None,
                info: false,
            })
            &&& k == 5 + 13 * n + 3 * i ==> task == (Task::Pause { seconds: 10 })
            &&& k == 6 + 13 * n + 3 * i ==> task == (Task::Bootstrap {
                db,
                genesis: blob,
                commit: true,
                waypoint_to_verify: None,
                info: false,
            })
        }),
{
    let end = followed(begun::<E>(brief), replies);
    let found = end.found;
    let n = found.nodes.len();
    let k = replies.len() as int;
    lemma_offsets(brief, found);
    law_steps_of_the_rescue(brief, found, i);
    law_steps_of_the_bootstrap(brief, found, i);
    if 2 + 12 * n <= k < 4 + 13 * n {
        lemma_task_at(brief, replies, Stage::Rescue, k - (2 + 12 * n));
    }
    if 4 + 13 * n <= k < 4 + 16 * n {
        lemma_task_at(brief, replies, Stage::Bootstrap, k - (4 + 13 * n));
    }
}

/// The course of a take-over by `n` validators, fourth part: the validator at place `i` is started
/// with its own waypoint, the blob in its own database and the genesis that was read from it, and
/// waits for the validators before it.
pub proof fn law_the_course_of_restarting<E>(brief: Brief, replies: Seq<Reply<E>>, i: int)
    requires
        on_course::<E>(brief, replies, i),
    ensures
        ({
            let end = followed(begun::<E>(brief), replies);
            let task = current(end).task;
            let k = replies.len();
            let n = end.found.nodes.len();
            let node = end.found.nodes[i];
            let place = i as usize;
            let db = node.storage_dir;
            let blob = joined(db, "rescue.blob"@);
            &&& k == 4 + 16 * n + 8 * i ==> task == Task::ReadFile(blob)
            &&& k == 5 + 16 * n + 8 * i ==> task == Task::StopNode(place)
            &&& k == 6 + 16 * n + 8 * i ==> task == (Task::SaveConfig {
                node: place,
                file: node.config_path,
                changes: NodeChanges {
                    waypoint: end.found.waypoints[i],
                    identity_blob: blob,
                    genesis: Some(end.found.geneses[i]),
                    sync_only: false,
                },
            })
            &&& k == 7 + 16 * n + 8 * i ==> task == Task::StartNode(place)
            &&& k == 8 + 16 * n + 8 * i ==> task == Task::SetDeadline(Deadline::Healthy)
            &&& k == 9 + 16 * n + 8 * i ==> task == Task::AwaitHealthy(place)
            &&& k == 10 + 16 * n + 8 * i ==> task == Task::SetDeadline(Deadline::Connectivity)
            &&& k == 11 + 16 * n + 8 * i ==> task == (Task::AwaitConnectivity {
                node: place,
                expected: place,
            })
        }),
{
    let end = followed(begun::<E>(brief), replies);
    let found = end.found;
    let n = found.nodes.len();
    let k = replies.len() as int;
    lemma_offsets(brief, found);
    law_steps_of_the_restart(brief, found, i);
    if 4 + 16 * n <= k < 4 + 24 * n {
        lemma_task_at(brief, replies, Stage::Restart, k - (4 + 16 * n));
        lemma_followed(brief, replies);
        if k == 6 + 16 * n + 8 * i {
            crate::laws::law_no_restart_before_every_bootstrap(end);
        }
    }
}

/// The course of a take-over by `n` validators, last part: the network has ten seconds to be live,
/// a command line is configured, and one coin is sent to the second validator between two readings
/// of its balance.
pub proof fn law_the_course_of_checking<E>(brief: Brief, replies: Seq<Reply<E>>, i: int)
    requires
        on_course::<E>(brief, replies, i),
    ensures
        ({
            let end = followed(begun::<E>(brief), replies);
            let task = current(end).task;
            let k = replies.len();
            let n = end.found.nodes.len();
            let recipient = end.found.nodes[1].peer_id;
            &&& k == 4 + 24 * n ==> task == Task::SetDeadline(Deadline::Seconds(10))
            &&& k == 5 + 24 * n ==> task == Task::CheckLiveness
            &&& k == 6 + 24 * n ==> task == Task::ScratchDir
            &&& k == 7 + 24 * n ==> task == (Task::InitValidatorConfig {
                node: 0,
                dir: end.found.scratch->0,
            })
            &&& k == 8 + 24 * n ==> task == Task::ReadBalance(recipient)
            &&& k == 9 + 24 * n ==> task == (Task::SendTransfer {
                recipient,
                coins: 1,
                config: joined(end.found.scratch->0, "libra-cli-config.yaml"@),
                sending: TransferSettings {
                    signing_key: end.found.signing_key->0,
                    url: end.found.api_endpoint->0,
                    estimate_only: false,
                    legacy_address: false,
                },
            })
            &&& k == 10 + 24 * n ==> task == Task::ReadBalance(recipient)
        }),
{
    let end = followed(begun::<E>(brief), replies);
    let found = end.found;
    let n = found.nodes.len();
    let k = replies.len() as int;
    lemma_offsets(brief, found);
    law_steps_of_the_transfer(brief, found);
    lemma_followed(brief, replies);
    if 4 + 24 * n <= k < 7 + 24 * n {
        lemma_task_at(brief, replies, Stage::Liveness, k - (4 + 24 * n));
    }
    if 7 + 24 * n <= k < 11 + 24 * n {
        lemma_at_transfer(brief, replies);
        lemma_task_at(brief, replies, Stage::Transfer, k - (7 + 24 * n));
    }
}

/// Once all other stages are done, a take-over is in its last one.
proof fn lemma_at_transfer<E>(brief: Brief, replies: Seq<Reply<E>>)
    requires
        on_course::<E>(brief, replies, 0),
        ({
            let n = followed(begun::<E>(brief), replies).found.nodes.len();
            7 + 24 * n <= replies.len() < 11 + 24 * n
        }),
    ensures
        followed(begun::<E>(brief), replies).stage is Transfer,
        followed(begun::<E>(brief), replies).found.scratch is Some,
{
    let end = followed(begun::<E>(brief), replies);
    let n = end.found.nodes.len();
    lemma_followed(brief, replies);
    lemma_offsets(brief, end.found);
    law_steps_of_the_transfer(brief, end.found);
    lemma_task_at(brief, replies, Stage::Transfer, replies.len() - (7 + 24 * n));
    lemma_stage_steps(brief, Stage::Transfer, end.found);
    assert(belongs(Stage::Transfer, current(end)));
    lemma_stage_steps(end.brief, end.stage, end.found);
    assert(belongs(end.stage, current(end)));
}

/// The first two tasks of a take-over: it finds out where it was started, and starts its swarm with
/// the node binary that lies there.
pub proof fn law_the_start_of_a_take_over<E>(brief: Brief, dir: PathBuf)
    requires
        brief.mission is Upgrade,
    ensures
        ({
            let start = begun::<E>(brief);
            let next = advanced(start, Reply::<E>::Folder(dir));
            &&& start.verdict is None && current(start).task == Task::CurrentDir
            &&& next.verdict is None && current(next).task == (Task::StartSwarm {
                validators: brief.validators,
                binary: Some(joined(dir, "tests/diem-proxy"@)),
            })
        }),
{
    reveal_with_fuel(settled, 3);
}

} // verus!
