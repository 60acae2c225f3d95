//! The vocabulary of the set-up: the tasks that a run consists of, what each failure leads to,
//! and the plans that put tasks in order.
use crate::credentials::{CredentialFault, Identity};
use crate::snapshot::SnapshotEntry;
use diem_types::transaction::{ChangeSet, Transaction};
use diem_types::waypoint::Waypoint;
use move_core_types::account_address::AccountAddress;
use std::path::PathBuf;
use vstd::prelude::*;

verus! {

/// How long a wait may take.
#[derive(Debug, Clone, Copy, PartialEq, Eq)]
pub enum Deadline {
    /// As long as a node may take to become healthy.
    Healthy,
    /// As long as a node may take to connect.
    Connectivity,
    /// A number of seconds.
    Seconds(u64),
}

/// How a database is restored from a snapshot.
#[derive(Debug, Clone, Copy, PartialEq, Eq)]
pub struct RestoreSettings {
    pub version: u64,
    pub validate_modules: bool,
    pub target_version: u64,
    pub concurrent_downloads: usize,
    pub replay_concurrency_level: usize,
}

/// How a database is opened.
#[derive(Debug, Clone, Copy, PartialEq, Eq)]
pub struct OpenSettings {
    pub readonly: bool,
    pub enable_indexer: bool,
    pub buffered_state_target_items: usize,
    pub max_nodes_per_cache_shard: usize,
}

/// How directories are moved and copied.
#[derive(Debug, Clone, Copy, PartialEq, Eq)]
pub struct CopySettings {
    /// Whether a file takes the place of one that is already there.
    pub overwrite: bool,
    /// Whether a file is passed over whose place is taken. If it is neither written over nor passed
    /// over, a taken place is a failure.
    pub skip_exist: bool,
}

/// What a node's configuration is changed to before the node is started again.
#[derive(Debug, PartialEq, Eq)]
pub struct NodeChanges {
    /// The waypoint of the node, and of its safety rules.
    pub waypoint: Waypoint,
    /// The file that the safety rules take the identity from.
    pub identity_blob: PathBuf,
    /// The genesis transaction to be executed.
    pub genesis: Option<Transaction>,
    /// Whether the node only synchronises.
    pub sync_only: bool,
}

/// How a transfer is sent.
#[derive(Debug, PartialEq, Eq)]
pub struct TransferSettings {
    /// The encoded private key that signs the transfer.
    pub signing_key: String,
    /// Where the chain takes transactions.
    pub url: String,
    /// Whether the cost of the transfer is only estimated.
    pub estimate_only: bool,
    pub legacy_address: bool,
}

/// One thing to be done outside the library. Validators of the swarm go by their place in it.
#[derive(Debug, PartialEq, Eq)]
pub enum Task {
    /// Give information about the state of a database, such as its version.
    ReportDatabase(PathBuf),
    /// Find out whether the archive of snapshots is there.
    LookForArchive(PathBuf),
    /// Find out whether a database is there.
    LookForDatabase(PathBuf),
    /// Make sure that a path is there.
    RequirePresent(PathBuf),
    /// Make sure that a path is not there.
    RequireAbsent(PathBuf),
    /// Make sure that the manifest of a snapshot is there.
    RequireManifest(PathBuf),
    CreateDir(PathBuf),
    /// Create a directory and those above it.
    CreateDirAll(PathBuf),
    /// Remove a directory and what it holds.
    RemoveDirAll(PathBuf),
    /// Move a directory into another one.
    MoveDir { from: PathBuf, to: PathBuf, copying: CopySettings },
    /// Copy what a directory holds into another one.
    CopyContents { from: PathBuf, to: PathBuf, copying: CopySettings },
    CopyFile { from: PathBuf, to: PathBuf },
    /// Read the genesis transaction's bytes from a file.
    ReadFile(PathBuf),
    /// Write the rescue transaction's bytes to a file.
    WriteFile(PathBuf),
    OpenRepository(PathBuf),
    FindRemote(&'static str),
    Fetch(&'static str),
    CloneRepository { url: &'static str, into: PathBuf },
    ListSnapshots(PathBuf),
    OpenDatabase { db: PathBuf, options: OpenSettings },
    /// Restore the open database from the snapshot that a manifest describes.
    RestoreSnapshot { manifest: PathBuf, storage: PathBuf, settings: RestoreSettings },
    CurrentDir,
    /// Start a swarm of fresh validators, with a node binary of its own if one is named.
    StartSwarm { validators: u8, binary: Option<PathBuf> },
    AwaitAllAlive { seconds: u64 },
    ReadIdentity { node: usize, file: PathBuf },
    /// Ask the chain for the registered configuration of an account.
    QueryView { node: usize, function: &'static str, account: AccountAddress },
    StopNode(usize),
    ClearStorage(usize),
    /// Change the configuration of a node and save it to a file.
    SaveConfig { node: usize, file: PathBuf, changes: NodeChanges },
    StartNode(usize),
    /// Run a session on a database that registers all validators with their credentials.
    AddValidators(PathBuf),
    /// Take the change set out of what the session left.
    UnpackChangeSet,
    /// Bootstrap a database with a genesis transaction, for good or only to try it.
    Bootstrap {
        db: PathBuf,
        genesis: PathBuf,
        commit: bool,
        waypoint_to_verify: Option<Waypoint>,
        info: bool,
    },
    Pause { seconds: u64 },
    /// Set the deadline of the waits that follow.
    SetDeadline(Deadline),
    /// Wait, up to the deadline that was set last, for a node to become healthy.
    AwaitHealthy(usize),
    /// Wait, up to the deadline that was set last, for a node to be connected to some peers.
    AwaitConnectivity { node: usize, expected: usize },
    /// Wait, up to the deadline that was set last, for the network to be live.
    CheckLiveness,
    ScratchDir,
    /// Write the command line's configuration for a node into a directory.
    InitValidatorConfig { node: usize, dir: PathBuf },
    ReadBalance(AccountAddress),
    /// Send coins, at the baseline cost of the production network.
    SendTransfer {
        recipient: AccountAddress,
        coins: u64,
        config: PathBuf,
        sending: TransferSettings,
    },
    /// Leave the network running.
    Park,
}

/// What the failure of a task leads to.
#[derive(Debug, Clone, Copy, PartialEq, Eq)]
pub enum OnFailure {
    /// The run ends with the error.
    Return,
    /// The run panics with the error.
    Unwrap,
    /// The process is aborted.
    Abort,
    /// The run goes on.
    Ignore,
}

/// A task, and what its failure leads to.
#[derive(Debug, PartialEq, Eq)]
pub struct Step {
    pub task: Task,
    pub on_failure: OnFailure,
}

/// What a run panics on without an outside error.
#[derive(Debug, Clone, Copy, PartialEq, Eq)]
pub enum Fault {
    /// A path that must be there is not.
    NotFound,
    /// A path that must not be there is.
    StillThere,
    /// The latest snapshot has no manifest.
    NoManifest,
    /// A path has no parent.
    NoParent,
    /// The configuration of a node names no account.
    NoAccount,
    /// The swarm has no validator.
    NoValidators,
    /// The swarm has no second validator.
    NoRecipient,
    /// No credentials can be put together for a validator.
    Credential(CredentialFault),
    /// A committed bootstrap gave no waypoint.
    NoWaypoint,
    /// A transfer did not raise the balance of its recipient.
    BalanceUnchanged,
    /// An entry of the archive was modified before the Unix epoch.
    BeforeEpoch,
    /// The archive holds no snapshot.
    NoSnapshots,
}

/// An error that a run can end with.
#[derive(Debug, PartialEq, Eq)]
pub enum TwinError<E> {
    /// A task failed with this error.
    Outside(E),
    /// A transaction could not be encoded or decoded.
    Bcs(bcs::Error),
    /// The clock has no such deadline.
    NoDeadline,
    /// The clock has no deadline for the connection of a node.
    NoConnectivityDeadline,
    /// A payload that must be an entry function is none.
    NotAnEntryFunction,
}

impl<E> TwinError<E> {
    /// The error in words, where it does not come from outside.
    pub fn message(&self) -> (r: Option<&'static str>)
        ensures
            r == match *self {
                TwinError::NoDeadline => Some("no deadline"),
                TwinError::NoConnectivityDeadline => Some("can't get new deadline"),
                TwinError::NotAnEntryFunction => Some("function did not return an entry function"),
                _ => None,
            },
    {
        match self {
            TwinError::NoDeadline => Some("no deadline"),
            TwinError::NoConnectivityDeadline => Some("can't get new deadline"),
            TwinError::NotAnEntryFunction => Some("function did not return an entry function"),
            _ => None,
        }
    }
}

/// How a run has ended.
#[derive(Debug, PartialEq, Eq)]
pub enum Verdict<E> {
    /// Everything was done.
    Completed,
    /// With an error.
    Returned(TwinError<E>),
    /// With a panic on an error.
    Unwrapped(TwinError<E>),
    /// With a panic on a fault.
    Panicked(Fault),
    /// With the end of the process.
    Aborted(TwinError<E>),
}

/// A validator of the swarm, as the logic sees it.
#[derive(Debug, PartialEq, Eq)]
pub struct Node {
    pub peer_id: AccountAddress,
    /// The account that the node's configuration names.
    pub config_account: Option<AccountAddress>,
    /// The file that holds the node's configuration.
    pub config_path: PathBuf,
    /// The directory of the node's database.
    pub storage_dir: PathBuf,
}

/// A swarm that has been started.
#[derive(Debug, PartialEq, Eq)]
pub struct SwarmInfo {
    /// Its validators, in their order.
    pub nodes: Vec<Node>,
    /// The encoded private key that the swarm's transactions are signed with.
    pub signing_key: String,
    /// Where the swarm's chain takes transactions.
    pub api_endpoint: String,
}

/// What came of a task.
#[derive(Debug, PartialEq, Eq)]
pub enum Reply<E> {
    Done,
    Failed(E),
    /// The clock cannot hold the deadline.
    NoDeadline,
    /// Whether the path is there.
    Found(bool),
    Folder(PathBuf),
    Swarm(SwarmInfo),
    Identity(Identity),
    /// What the chain answered, place by place, where it is a text.
    Answers(Vec<Option<String>>),
    Changes(ChangeSet),
    Bytes(Vec<u8>),
    Waypoint(Option<Waypoint>),
    Balance(u64),
    Entries(Vec<SnapshotEntry>),
}

/// Whether a task can fail with an outside error.
pub open spec fn can_fail(task: Task) -> bool {
    match task {
        Task::LookForArchive(_) => false,
        Task::LookForDatabase(_) => false,
        Task::RequirePresent(_) => false,
        Task::RequireAbsent(_) => false,
        Task::RequireManifest(_) => false,
        Task::StopNode(_) => false,
        Task::Pause { .. } => false,
        Task::SetDeadline(_) => false,
        Task::ScratchDir => false,
        Task::Park => false,
        _ => true,
    }
}

/// A kind of reply.
#[derive(Debug, Clone, Copy, PartialEq, Eq)]
pub enum ReplyKind {
    Done,
    Found,
    Folder,
    Swarm,
    Identity,
    Answers,
    Changes,
    Bytes,
    Waypoint,
    Balance,
    Entries,
}

/// The kind of reply that a task has when it does not fail.
pub open spec fn kind(task: Task) -> ReplyKind {
    match task {
        Task::LookForArchive(_) => ReplyKind::Found,
        Task::LookForDatabase(_) => ReplyKind::Found,
        Task::RequirePresent(_) => ReplyKind::Found,
        Task::RequireAbsent(_) => ReplyKind::Found,
        Task::RequireManifest(_) => ReplyKind::Found,
        Task::CurrentDir => ReplyKind::Folder,
        Task::ScratchDir => ReplyKind::Folder,
        Task::StartSwarm { .. } => ReplyKind::Swarm,
        Task::ReadIdentity { .. } => ReplyKind::Identity,
        Task::QueryView { .. } => ReplyKind::Answers,
        Task::UnpackChangeSet => ReplyKind::Changes,
        Task::ReadFile(_) => ReplyKind::Bytes,
        Task::Bootstrap { .. } => ReplyKind::Waypoint,
        Task::ReadBalance(_) => ReplyKind::Balance,
        Task::ListSnapshots(_) => ReplyKind::Entries,
        _ => ReplyKind::Done,
    }
}

/// Whether a reply is one that the task can have.
pub open spec fn fits<E>(task: Task, reply: Reply<E>) -> bool {
    match reply {
        Reply::Failed(_) => can_fail(task),
        Reply::NoDeadline => task is SetDeadline,
        Reply::Found(_) => kind(task) is Found,
        Reply::Folder(_) => kind(task) is Folder,
        Reply::Swarm(_) => kind(task) is Swarm,
        Reply::Identity(_) => kind(task) is Identity,
        Reply::Answers(_) => kind(task) is Answers,
        Reply::Changes(_) => kind(task) is Changes,
        Reply::Bytes(_) => kind(task) is Bytes,
        Reply::Waypoint(_) => kind(task) is Waypoint,
        Reply::Balance(_) => kind(task) is Balance,
        Reply::Entries(_) => kind(task) is Entries,
        Reply::Done => kind(task) is Done,
    }
}

/// The kind of reply that a task has when it does not fail.
fn kind_of(task: &Task) -> (r: ReplyKind)
    ensures
        r == kind(*task),
{
    match task {
        Task::LookForArchive(_) | Task::LookForDatabase(_) => ReplyKind::Found,
        Task::RequirePresent(_) | Task::RequireAbsent(_) => ReplyKind::Found,
        Task::RequireManifest(_) => ReplyKind::Found,
        Task::CurrentDir | Task::ScratchDir => ReplyKind::Folder,
        Task::StartSwarm { .. } => ReplyKind::Swarm,
        Task::ReadIdentity { .. } => ReplyKind::Identity,
        Task::QueryView { .. } => ReplyKind::Answers,
        Task::UnpackChangeSet => ReplyKind::Changes,
        Task::ReadFile(_) => ReplyKind::Bytes,
        Task::Bootstrap { .. } => ReplyKind::Waypoint,
        Task::ReadBalance(_) => ReplyKind::Balance,
        Task::ListSnapshots(_) => ReplyKind::Entries,
        _ => ReplyKind::Done,
    }
}

/// Whether a reply is one that the task can have.
pub(crate) fn reply_fits<E>(task: &Task, reply: &Reply<E>) -> (r: bool)
    ensures
        r == fits(*task, *reply),
{
    match reply {
        Reply::Failed(_) => match task {
            Task::LookForArchive(_) | Task::LookForDatabase(_) => false,
            Task::RequirePresent(_) | Task::RequireAbsent(_) | Task::RequireManifest(_) => false,
            Task::StopNode(_) | Task::Pause { .. } => false,
            Task::SetDeadline(_) | Task::ScratchDir | Task::Park => false,
            _ => true,
        },
        Reply::NoDeadline => matches!(task, Task::SetDeadline(_)),
        Reply::Found(_) => matches!(kind_of(task), ReplyKind::Found),
        Reply::Folder(_) => matches!(kind_of(task), ReplyKind::Folder),
        Reply::Swarm(_) => matches!(kind_of(task), ReplyKind::Swarm),
        Reply::Identity(_) => matches!(kind_of(task), ReplyKind::Identity),
        Reply::Answers(_) => matches!(kind_of(task), ReplyKind::Answers),
        Reply::Changes(_) => matches!(kind_of(task), ReplyKind::Changes),
        Reply::Bytes(_) => matches!(kind_of(task), ReplyKind::Bytes),
        Reply::Waypoint(_) => matches!(kind_of(task), ReplyKind::Waypoint),
        Reply::Balance(_) => matches!(kind_of(task), ReplyKind::Balance),
        Reply::Entries(_) => matches!(kind_of(task), ReplyKind::Entries),
        Reply::Done => matches!(kind_of(task), ReplyKind::Done),
    }
}

/// What stands at the end of a plan.
#[derive(Debug, Clone, Copy, PartialEq, Eq)]
pub enum Ending {
    /// Everything that was to be done has been done.
    Complete,
    /// The run panics.
    Fault(Fault),
}

/// Steps in the order in which they are taken, and what stands at their end.
#[derive(Debug, PartialEq, Eq)]
pub struct Plan {
    pub steps: Vec<Step>,
    pub end: Ending,
}

/// The contents of a [`Plan`].
#[verifier::ext_equal]
pub struct PlanModel {
    pub steps: Seq<Step>,
    pub end: Ending,
}

impl View for Plan {
    type V = PlanModel;

    open spec fn view(&self) -> PlanModel {
        PlanModel { steps: self.steps@, end: self.end }
    }
}

/// A step whose task cannot fail, or may.
pub open spec fn free(task: Task) -> Step {
    Step { task, on_failure: OnFailure::Ignore }
}

/// A step whose failure ends the run with the error.
pub open spec fn returning(task: Task) -> Step {
    Step { task, on_failure: OnFailure::Return }
}

/// A step whose failure is a panic.
pub open spec fn unwrapping(task: Task) -> Step {
    Step { task, on_failure: OnFailure::Unwrap }
}

/// A plan that takes some steps and is done.
pub open spec fn whole(steps: Seq<Step>) -> PlanModel {
    PlanModel { steps, end: Ending::Complete }
}

/// A plan that takes some steps and then panics.
pub open spec fn broken(steps: Seq<Step>, fault: Fault) -> PlanModel {
    PlanModel { steps, end: Ending::Fault(fault) }
}

/// One plan after another. A panic of the first is the end of both.
pub open spec fn then_plan(first: PlanModel, second: PlanModel) -> PlanModel {
    if first.end is Complete {
        PlanModel { steps: first.steps + second.steps, end: second.end }
    } else {
        first
    }
}

/// The plans of a number of validators, one after another.
pub open spec fn in_turn(count: nat, plan_for: spec_fn(int) -> PlanModel) -> PlanModel
    decreases count,
{
    if count == 0 {
        whole(seq![])
    } else {
        then_plan(in_turn((count - 1) as nat, plan_for), plan_for(count - 1))
    }
}

/// A step for a caller that panics on the error which the step would end with.
pub open spec fn unwrapped_step(step: Step) -> Step {
    if step.on_failure is Return {
        unwrapping(step.task)
    } else {
        step
    }
}

/// A plan for a caller that panics on the error which the plan would end with.
pub open spec fn unwrapped(plan: PlanModel) -> PlanModel {
    PlanModel { steps: plan.steps.map_values(|step: Step| unwrapped_step(step)), end: plan.end }
}

/// Adds a step to those of a plan.
pub(crate) fn add_step(plan: &mut Plan, task: Task, on_failure: OnFailure)
    ensures
        final(plan)@ == (PlanModel {
            steps: old(plan)@.steps.push(Step { task, on_failure }),
            end: old(plan)@.end,
        }),
{
    plan.steps.push(Step { task, on_failure });
}

/// A plan without a step.
pub(crate) fn empty_plan() -> (r: Plan)
    ensures
        r@ == whole(seq![]),
{
    let r = Plan { steps: Vec::new(), end: Ending::Complete };
    assert(r@.steps =~= seq![]);
    r
}

/// Lets one plan follow another.
pub(crate) fn follow(first: &mut Plan, second: Plan)
    ensures
        final(first)@ == then_plan(old(first)@, second@),
{
    if let Ending::Complete = first.end {
        let mut more: Vec<Step> = second.steps;
        first.steps.append(&mut more);
        first.end = second.end;
    }
}

/// The plan for a caller that panics on the error which the plan would end with.
pub(crate) fn unwrap_plan(plan: Plan) -> (r: Plan)
    ensures
        r@ == unwrapped(plan@),
{
    let mut steps: Vec<Step> = plan.steps;
    let ghost before = steps@;
    let mut i: usize = 0;
    while i < steps.len()
        invariant
            i <= steps.len(),
            steps@.len() == before.len(),
            forall|j: int| 0 <= j < i ==> steps@[j] == unwrapped_step(before[j]),
            forall|j: int| i <= j < steps@.len() ==> steps@[j] == before[j],
        decreases steps.len() - i,
    {
        if let OnFailure::Return = steps[i].on_failure {
            steps[i].on_failure = OnFailure::Unwrap;
        }
        i += 1;
    }
    let r = Plan { steps, end: plan.end };
    assert(r@.steps =~= unwrapped(plan@).steps);
    r
}

/// Whether a step is the one that stands at a place when each of a number of validators takes
/// `size` steps.
pub open spec fn placed(
    step: Step,
    place: int,
    count: nat,
    plan_for: spec_fn(int) -> PlanModel,
    size: nat,
) -> bool {
    &&& 0 <= place / (size as int) < count
    &&& plan_for(place / (size as int)).end is Complete
    &&& step == plan_for(place / (size as int)).steps[place % (size as int)]
}

/// Where the steps of the validators stand when each has a number of them or, by a fault, none.
pub proof fn lemma_in_turn(count: nat, plan_for: spec_fn(int) -> PlanModel, size: nat)
    requires
        size > 0,
        forall|i: int|
            0 <= i < count ==> {
                let p = #[trigger] plan_for(i);
                if p.end is Complete {
                    p.steps.len() == size
                } else {
                    p.steps.len() == 0
                }
            },
    ensures
        in_turn(count, plan_for).steps.len() <= count * size,
        in_turn(count, plan_for).end is Complete ==> in_turn(count, plan_for).steps.len() == count
            * size,
        forall|k: int|
            0 <= k < in_turn(count, plan_for).steps.len() ==> placed(
                #[trigger] in_turn(count, plan_for).steps[k],
                k,
                count,
                plan_for,
                size,
            ),
    decreases count,
{
    if count == 0 {
        assert(count * size == 0) by (nonlinear_arith)
            requires
                count == 0,
        ;
    } else {
        let before = (count - 1) as nat;
        lemma_in_turn(before, plan_for, size);
        let p = in_turn(before, plan_for);
        let q = plan_for(count - 1);
        assert(count * size == before * size + size) by (nonlinear_arith)
            requires
                count == before + 1,
        ;
        let r = in_turn(count, plan_for);
        assert forall|k: int| 0 <= k < r.steps.len() implies placed(
            #[trigger] r.steps[k],
            k,
            count,
            plan_for,
            size,
        ) by {
            if k < p.steps.len() {
                assert(placed(p.steps[k], k, before, plan_for, size));
                assert(r.steps[k] == p.steps[k]);
            } else {
                let j = k - before * size;
                vstd::arithmetic::div_mod::lemma_fundamental_div_mod_converse(
                    k,
                    size as int,
                    before as int,
                    j,
                );
                assert(r.steps[k] == q.steps[j]);
            }
        }
    }
}

/// What holds of every step of every validator holds of all their steps.
pub proof fn lemma_every_step(
    count: nat,
    plan_for: spec_fn(int) -> PlanModel,
    holds: spec_fn(Step) -> bool,
)
    requires
        forall|i: int, k: int|
            0 <= i < count && 0 <= k < plan_for(i).steps.len() ==> holds(
                #[trigger] plan_for(i).steps[k],
            ),
    ensures
        forall|k: int|
            0 <= k < in_turn(count, plan_for).steps.len() ==> holds(
                #[trigger] in_turn(count, plan_for).steps[k],
            ),
    decreases count,
{
    if count > 0 {
        let before = (count - 1) as nat;
        lemma_every_step(before, plan_for, holds);
        let p = in_turn(before, plan_for);
        let q = plan_for(count - 1);
        let r = in_turn(count, plan_for);
        assert forall|k: int| 0 <= k < r.steps.len() implies holds(#[trigger] r.steps[k]) by {
            if k < p.steps.len() {
                assert(r.steps[k] == p.steps[k]);
            } else {
                assert(r.steps[k] == q.steps[k - p.steps.len()]);
            }
        }
    }
}

/// If no validator's plan has a fault, all of them together have none.
pub proof fn lemma_all_complete(count: nat, plan_for: spec_fn(int) -> PlanModel)
    requires
        forall|i: int| 0 <= i < count ==> (#[trigger] plan_for(i)).end is Complete,
    ensures
        in_turn(count, plan_for).end is Complete,
    decreases count,
{
    if count > 0 {
        lemma_all_complete((count - 1) as nat, plan_for);
    }
}

} // verus!
