//! The twin of a network: what it is asked for, and how each of its procedures starts.
use crate::credentials::ValCredentials;
use crate::errand::{set_out, under_way, Errand};
use crate::findings::{only_credentials, Findings};
use crate::outside::{entry_function_in, into_entry_function, path_from, path_of};
use crate::plan::{Node, NodeChanges, TwinError};
use crate::procedures::{
    clone_db_plan, extract_plan, plan_clone_db, plan_extract, plan_rescue, plan_restart, plan_wait,
    rescue_plan, restart_plan, wait_plan,
};
use crate::session::{begun, Session, SessionModel};
use crate::stages::{Brief, Mission};
use diem_types::transaction::{ScriptFunction, TransactionPayload};
use std::path::PathBuf;
use vstd::prelude::*;

verus! {

/// What a twin of the network, with a synced database, is asked for with.
#[derive(Debug, PartialEq, Eq)]
pub struct TwinOpts {
    /// The database that the twin is to drive.
    pub db_dir: PathBuf,
    /// The operator.yaml file which contains registration information.
    pub oper_file: Option<PathBuf>,
    /// Whether information about the state of the database is asked for.
    pub info: bool,
    /// Whether, and from where, the database is to be restored first.
    pub snapshot_path: Option<PathBuf>,
}

/// A twin of the network.
#[derive(Debug, PartialEq, Eq)]
pub struct Twin {
    pub db_dir: PathBuf,
    pub oper_file: Option<PathBuf>,
    pub info: bool,
    pub snapshot_path: Option<PathBuf>,
}

/// The start of a twin's run: of three validators, after the database has been reported on if
/// information is asked for, and restored if a snapshot is named.
pub open spec fn run_model<E>(db_dir: PathBuf, info: bool, from_snapshot: bool) -> SessionModel<E> {
    begun(Brief { mission: Mission::Run { info, from_snapshot }, db: db_dir, validators: 3 })
}

/// The entry function that a payload must call.
pub open spec fn entry_function_or_error<E>(call: Option<ScriptFunction>) -> Result<
    ScriptFunction,
    TwinError<E>,
> {
    match call {
        Some(call) => Ok(call),
        None => Err(TwinError::NotAnEntryFunction),
    }
}

/// The same path once more, if there is one.
fn copy_path(path: &Option<PathBuf>) -> (r: Option<PathBuf>)
    ensures
        r == *path,
{
    match path {
        Some(path) => Some(path.clone()),
        None => None,
    }
}

/// Takes the entry function that a payload must call.
pub fn expect_entry_function<E>(call: Option<ScriptFunction>) -> (r: Result<
    ScriptFunction,
    TwinError<E>,
>)
    ensures
        r == entry_function_or_error::<E>(call),
{
    match call {
        Some(call) => Ok(call),
        None => Err(TwinError::NotAnEntryFunction),
    }
}

impl TwinOpts {
    /// The twin that is asked for.
    pub fn twin(&self) -> (r: Twin)
        ensures
            r == (Twin {
                db_dir: self.db_dir,
                oper_file: self.oper_file,
                info: self.info,
                snapshot_path: self.snapshot_path,
            }),
    {
        Twin {
            db_dir: self.db_dir.clone(),
            oper_file: copy_path(&self.oper_file),
            info: self.info,
            snapshot_path: copy_path(&self.snapshot_path),
        }
    }

    /// Starts the run of the twin that is asked for.
    pub fn run<E>(&self) -> (r: Session<E>)
        ensures
            r@ == run_model::<E>(self.db_dir, self.info, self.snapshot_path is Some),
            r.wf(),
    {
        self.twin().run()
    }
}

impl Twin {
    /// Starts the run of the twin: it reports on the database if information is asked for, restores
    /// it if a snapshot is named, lets a swarm of three validators take it over, and leaves the
    /// network running.
    pub fn run<E>(&self) -> (r: Session<E>)
        ensures
            r@ == run_model::<E>(self.db_dir, self.info, self.snapshot_path is Some),
            r.wf(),
    {
        let mission = Mission::Run { info: self.info, from_snapshot: self.snapshot_path.is_some() };
        Session::start(Brief { mission, db: self.db_dir.clone(), validators: 3 })
    }
}

/// The procedures that set a twin network up.
///
/// A procedure whose steps depend on what it finds out is a [`Session`]; one whose steps are
/// known from the start is an [`Errand`].
pub trait TwinSetup {
    /// Makes the files of one fresh validator. There is no database to be restored or copied.
    fn initialize_marlon_the_val<E>() -> (r: Session<E>)
        ensures
            r@ == begun::<E>(
                Brief { mission: Mission::Initialize, db: path_of(""@), validators: 1 },
            ),
            r.wf(),
    ;

    /// Takes the entry function out of the encoded registration of a validator.
    fn register_marlon_tx<E>(encoded: Result<TransactionPayload, E>) -> (r: Result<
        ScriptFunction,
        TwinError<E>,
    >)
        ensures
            match encoded {
                Ok(payload) => r == entry_function_or_error::<E>(entry_function_in(payload)),
                Err(error) => r == Err::<ScriptFunction, TwinError<E>>(TwinError::Outside(error)),
            },
    ;

    /// Makes the rescue blob of a database, which registers one validator.
    fn recue_blob_with_one_val<E>(db_path: &PathBuf, cred: ValCredentials) -> (r: Errand<E>)
        ensures
            r@ == under_way::<E>(rescue_plan(*db_path), 0, only_credentials(seq![cred])),
            r.wf(),
    ;

    /// Makes the rescue blob of a database, which registers validators with their credentials.
    fn make_rescue_twin_blob<E>(db_path: &PathBuf, creds: Vec<ValCredentials>) -> (r: Errand<E>)
        ensures
            r@ == under_way::<E>(rescue_plan(*db_path), 0, only_credentials(creds@)),
            r.wf(),
    ;

    /// Restarts a node with a changed configuration.
    fn update_node_config_restart<E>(
        node: usize,
        config_path: &PathBuf,
        changes: NodeChanges,
    ) -> (r: Errand<E>)
        ensures
            r@ == set_out::<E>(restart_plan(node, *config_path, changes)),
            r.wf(),
    ;

    /// Lets a swarm of fresh validators take over a copy of a database.
    fn apply_with_rando_e2e<E>(prod_db: PathBuf, num_validators: u8) -> (r: Session<E>)
        ensures
            r@ == begun::<E>(
                Brief { mission: Mission::Upgrade, db: prod_db, validators: num_validators },
            ),
            r.wf(),
    ;

    /// Collects what the credentials of a validator are put together from.
    fn extract_credentials<E>(index: usize, node: &Node) -> (r: Errand<E>)
        ensures
            r@ == set_out::<E>(extract_plan(index, *node)),
            r.wf(),
    ;

    /// Puts a copy of the production database in the place of a node's own.
    fn clone_db<E>(prod_db: &PathBuf, swarm_db: &PathBuf) -> (r: Errand<E>)
        ensures
            r@ == set_out::<E>(clone_db_plan(*prod_db, *swarm_db)),
            r.wf(),
    ;

    /// Waits for a node to become healthy and connected.
    fn wait_for_node<E>(node: usize, expected_to_connect: usize) -> (r: Errand<E>)
        ensures
            r@ == set_out::<E>(wait_plan(node, expected_to_connect)),
            r.wf(),
    ;

    /// Restores a database from the latest snapshot of the archive, whatever snapshot is named.
    fn load_snapshot_into_db<E>(snapshot_path: &PathBuf, db_path: &PathBuf) -> (r: Session<E>)
        ensures
            r@ == begun::<E>(Brief { mission: Mission::Load, db: *db_path, validators: 0 }),
            r.wf(),
    ;
}

impl TwinSetup for Twin {
    fn initialize_marlon_the_val<E>() -> (r: Session<E>) {
        let brief = Brief { mission: Mission::Initialize, db: path_from(""), validators: 1 };
        Session::start(brief)
    }

    fn register_marlon_tx<E>(encoded: Result<TransactionPayload, E>) -> (r: Result<
        ScriptFunction,
        TwinError<E>,
    >) {
        match encoded {
            Ok(payload) => expect_entry_function(into_entry_function(payload)),
            Err(error) => Err(TwinError::Outside(error)),
        }
    }

    fn recue_blob_with_one_val<E>(db_path: &PathBuf, cred: ValCredentials) -> (r: Errand<E>) {
        let creds: Vec<ValCredentials> = vec![cred];
        assert(creds@ =~= seq![cred]);
        Self::make_rescue_twin_blob(db_path, creds)
    }

    fn make_rescue_twin_blob<E>(db_path: &PathBuf, creds: Vec<ValCredentials>) -> (r: Errand<E>) {
        Errand::start(plan_rescue(db_path), Findings::of_credentials(creds))
    }

    fn update_node_config_restart<E>(
        node: usize,
        config_path: &PathBuf,
        changes: NodeChanges,
    ) -> (r: Errand<E>) {
        Errand::start(plan_restart(node, config_path, changes), Findings::new())
    }

    fn apply_with_rando_e2e<E>(prod_db: PathBuf, num_validators: u8) -> (r: Session<E>) {
        let brief = Brief { mission: Mission::Upgrade, db: prod_db, validators: num_validators };
        Session::start(brief)
    }

    fn extract_credentials<E>(index: usize, node: &Node) -> (r: Errand<E>) {
        Errand::start(plan_extract(index, node), Findings::new())
    }

    fn clone_db<E>(prod_db: &PathBuf, swarm_db: &PathBuf) -> (r: Errand<E>) {
        Errand::start(plan_clone_db(prod_db, swarm_db), Findings::new())
    }

    fn wait_for_node<E>(node: usize, expected_to_connect: usize) -> (r: Errand<E>) {
        Errand::start(plan_wait(node, expected_to_connect), Findings::new())
    }

    fn load_snapshot_into_db<E>(snapshot_path: &PathBuf, db_path: &PathBuf) -> (r: Session<E>) {
        let brief = Brief { mission: Mission::Load, db: db_path.clone(), validators: 0 };
        Session::start(brief)
    }
}

} // verus!
