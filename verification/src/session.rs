//! A run: the stage it is in, the step it has come to, and how it goes on after each reply.
use crate::findings::{assessed, nothing_found, Findings, FindingsModel};
use crate::outside::{join, joined, parent, parent_of};
use crate::plan::{fits, reply_fits, Ending, Plan, PlanModel, Reply, Step, Task, Verdict};
use crate::stages::{
    first_stage, following, in_upgrade, is_upgrade, known, lemma_stage_done, lemma_stage_steps,
    lemma_step_taken, lemma_turns, next_stage, on_route, opening, plan_rejoins, plan_stage, rank,
    stage_plan, Brief, Mission, Stage,
};
use std::path::PathBuf;
use vstd::prelude::*;

verus! {

/// The state of a run.
pub struct SessionModel<E> {
    pub brief: Brief,
    /// The stage that the run is in.
    pub stage: Stage,
    /// The plan of that stage.
    pub plan: PlanModel,
    /// How many steps of the plan have been taken.
    pub pos: nat,
    /// What has been found out so far.
    pub found: FindingsModel,
    /// How the run has ended, once it has.
    pub verdict: Option<Verdict<E>>,
}

/// The start of a stage.
pub open spec fn entered<E>(brief: Brief, stage: Stage, found: FindingsModel) -> SessionModel<E> {
    SessionModel {
        brief,
        stage,
        plan: stage_plan(brief, stage, found),
        pos: 0,
        found,
        verdict: None,
    }
}

/// Goes on to the next step that there is, in this stage or a later one, or to the end.
pub open spec fn settled<E>(m: SessionModel<E>) -> SessionModel<E>
    decreases 17 - rank(m.stage),
{
    if m.pos < m.plan.steps.len() {
        m
    } else {
        match m.plan.end {
            Ending::Fault(fault) => SessionModel { verdict: Some(Verdict::Panicked(fault)), ..m },
            Ending::Complete => match next_stage(m.brief.mission, m.stage) {
                Some(next) => settled(entered(m.brief, next, m.found)),
                None => SessionModel { verdict: Some(Verdict::Completed), ..m },
            },
        }
    }
}

/// The step that a run has come to.
pub open spec fn current<E>(m: SessionModel<E>) -> Step {
    m.plan.steps[m.pos as int]
}

/// A run that has taken its current step and found out some things: its plan is drawn up from them.
pub open spec fn stepped<E>(m: SessionModel<E>, found: FindingsModel) -> SessionModel<E> {
    SessionModel {
        plan: stage_plan(m.brief, m.stage, found),
        pos: m.pos + 1,
        found,
        ..m
    }
}

/// How a run goes on after the reply to its current step. A run that is to leave the network
/// running does so even if the swarm's take-over ended with an error.
pub open spec fn advanced<E>(m: SessionModel<E>, reply: Reply<E>) -> SessionModel<E> {
    match assessed(m.found, current(m), reply) {
        Ok(found) => settled(stepped(m, found)),
        Err(verdict) => if verdict is Returned && m.brief.mission is Run && is_upgrade(m.stage) {
            settled(entered(m.brief, Stage::Park, m.found))
        } else {
            SessionModel { verdict: Some(verdict), ..m }
        },
    }
}

/// The start of a run.
pub open spec fn begun<E>(brief: Brief) -> SessionModel<E> {
    settled(entered(brief, first_stage(brief.mission), nothing_found()))
}

/// Where the operator file of the validator lies that a run has made: in the directory of the
/// validator's configuration.
pub open spec fn operator_path<E>(m: SessionModel<E>) -> Option<PathBuf> {
    if m.brief.mission is Initialize && m.verdict == Some(Verdict::<E>::Completed)
        && m.found.nodes.len() > 0 {
        match parent_of(m.found.nodes[0].config_path) {
            Some(above) => Some(joined(above, "operator.yaml"@)),
            None => None,
        }
    } else {
        None
    }
}

/// Whether a run that has not ended stands at a step of a stage on its route, knowing what it must.
pub open spec fn steady<E>(m: SessionModel<E>) -> bool {
    m.verdict is None ==> {
        &&& on_route(m.brief.mission, m.stage)
        &&& m.plan == stage_plan(m.brief, m.stage, m.found)
        &&& m.pos < m.plan.steps.len()
        &&& known(m.stage, m.pos, m.found)
    }
}

/// Going on from a step whose predecessor has been taken leads to a step, or to the end.
pub proof fn lemma_settled<E>(m: SessionModel<E>)
    requires
        m.verdict is None,
        on_route(m.brief.mission, m.stage),
        m.plan == stage_plan(m.brief, m.stage, m.found),
        m.pos <= m.plan.steps.len(),
        known(m.stage, m.pos, m.found),
    ensures
        steady(settled(m)),
    decreases 17 - rank(m.stage),
{
    if m.pos >= m.plan.steps.len() && m.plan.end is Complete {
        lemma_stage_done(m.brief, m.stage, m.found);
        if let Some(next) = next_stage(m.brief.mission, m.stage) {
            lemma_settled(entered::<E>(m.brief, next, m.found));
        }
    }
}

/// After every reply a run stands at a step again, or has ended.
pub proof fn lemma_advanced<E>(m: SessionModel<E>, reply: Reply<E>)
    requires
        steady(m),
        m.verdict is None,
        fits(current(m).task, reply),
    ensures
        steady(advanced(m, reply)),
{
    match assessed(m.found, current(m), reply) {
        Ok(found) => {
            lemma_step_taken(m.brief, m.stage, m.pos, m.found, reply, found);
            lemma_settled(stepped(m, found));
        },
        Err(_) => {
            if m.brief.mission is Run {
                lemma_settled(entered::<E>(m.brief, Stage::Park, m.found));
            }
        },
    }
}

/// A run in progress.
///
/// The program around the library carries out the pending task and reports what came of it,
/// until there is a verdict. `E` is the type of the errors that its tasks fail with.
pub struct Session<E> {
    brief: Brief,
    stage: Stage,
    plan: Plan,
    pos: usize,
    found: Findings,
    verdict: Option<Verdict<E>>,
}

impl<E> View for Session<E> {
    type V = SessionModel<E>;

    closed spec fn view(&self) -> SessionModel<E> {
        SessionModel {
            brief: self.brief,
            stage: self.stage,
            plan: self.plan@,
            pos: self.pos as nat,
            found: self.found@,
            verdict: self.verdict,
        }
    }
}

impl<E> Session<E> {
    /// Whether the run stands at a step of its stage, or has ended.
    pub open spec fn wf(&self) -> bool {
        steady(self@)
    }

    /// Starts a run.
    pub(crate) fn start(brief: Brief) -> (r: Session<E>)
        ensures
            r@ == begun::<E>(brief),
            r.wf(),
    {
        let found = Findings::new();
        let first = opening(brief.mission);
        let plan = plan_stage(&brief, first, &found);
        let mut session = Session { brief, stage: first, plan, pos: 0, found, verdict: None };
        proof {
            lemma_settled(entered::<E>(brief, first, nothing_found()));
        }
        session.settle();
        session
    }

    /// Goes on to the next step that there is, or to the end.
    fn settle(&mut self)
        requires
            old(self).verdict is None,
            old(self)@.plan == stage_plan(old(self)@.brief, old(self)@.stage, old(self)@.found),
            old(self)@.pos <= old(self)@.plan.steps.len(),
            known(old(self)@.stage, old(self)@.pos, old(self)@.found),
        ensures
            final(self)@ == settled(old(self)@),
    {
        let ghost start = self@;
        while self.verdict.is_none() && self.pos >= self.plan.steps.len()
            invariant
                self.verdict is None ==> {
                    &&& self@.plan == stage_plan(self@.brief, self@.stage, self@.found)
                    &&& self@.pos <= self@.plan.steps.len()
                    &&& known(self@.stage, self@.pos, self@.found)
                    &&& settled(self@) == settled(start)
                },
                self.verdict is Some ==> self@ == settled(start),
            decreases
                    if self.verdict is None {
                        18 - rank(self.stage)
                    } else {
                        0
                    },
        {
            match self.plan.end {
                Ending::Fault(fault) => {
                    self.verdict = Some(Verdict::Panicked(fault));
                },
                Ending::Complete => match following(self.brief.mission, self.stage) {
                    Some(next) => {
                        proof {
                            lemma_stage_done(self@.brief, self@.stage, self@.found);
                        }
                        self.plan = plan_stage(&self.brief, next, &self.found);
                        self.stage = next;
                        self.pos = 0;
                    },
                    None => {
                        self.verdict = Some(Verdict::Completed);
                    },
                },
            }
        }
    }

    /// The task to be carried out next. There is none once the run has ended.
    pub fn pending(&self) -> (r: Option<&Task>)
        requires
            self.wf(),
        ensures
            match r {
                Some(task) => self@.verdict is None && *task == current(self@).task,
                None => self@.verdict is Some,
            },
    {
        if self.verdict.is_none() {
            Some(&self.plan.steps[self.pos].task)
        } else {
            None
        }
    }

    /// The stage that the run is in, or ended in.
    pub fn stage(&self) -> (r: Stage)
        ensures
            r == self@.stage,
    {
        self.stage
    }

    /// What the run has found out.
    pub fn findings(&self) -> (r: &Findings)
        ensures
            r@ == self@.found,
    {
        &self.found
    }

    /// How the run has ended, once it has.
    pub fn verdict(&self) -> (r: Option<&Verdict<E>>)
        ensures
            match r {
                Some(verdict) => self@.verdict == Some(*verdict),
                None => self@.verdict is None,
            },
    {
        match &self.verdict {
            Some(verdict) => Some(verdict),
            None => None,
        }
    }

    /// How the run has ended, once it has, for good.
    pub fn into_verdict(self) -> (r: Option<Verdict<E>>)
        ensures
            r == self@.verdict,
    {
        self.verdict
    }

    /// Whether a reply is one that the pending task can have.
    pub fn accepts(&self, reply: &Reply<E>) -> (r: bool)
        requires
            self.wf(),
        ensures
            r == (self@.verdict is None && fits(current(self@).task, *reply)),
    {
        if self.verdict.is_some() {
            return false;
        }
        reply_fits(&self.plan.steps[self.pos].task, reply)
    }

    /// The operator file of the validator that the run has made, once it has made one.
    pub fn operator_file(&self) -> (r: Option<PathBuf>)
        ensures
            r == operator_path(self@),
    {
        match (self.brief.mission, &self.verdict) {
            (Mission::Initialize, Some(Verdict::Completed)) => if self.found.nodes.len() > 0 {
                match parent(&self.found.nodes[0].config_path) {
                    Some(above) => Some(join(&above, "operator.yaml")),
                    None => None,
                }
            } else {
                None
            },
            _ => None,
        }
    }

    /// Takes the reply to the pending task and goes on.
    pub fn report(&mut self, reply: Reply<E>)
        requires
            old(self).wf(),
            old(self)@.verdict is None,
            fits(current(old(self)@).task, reply),
        ensures
            final(self)@ == advanced(old(self)@, reply),
            final(self).wf(),
    {
        let ghost before = self@;
        proof {
            lemma_advanced(before, reply);
            lemma_turns(before.brief, before.stage, before.found);
            lemma_stage_steps(before.brief, before.stage, before.found);
        }
        let draws_up = matches!(&self.plan.steps[self.pos].task, Task::ReadFile(_));
        let outcome = self.found.assess(&self.plan.steps[self.pos], reply);
        match outcome {
            Ok(_) => {
                proof {
                    lemma_step_taken(
                        before.brief,
                        before.stage,
                        before.pos,
                        before.found,
                        reply,
                        self.found@,
                    );
                }
                assert(self.pos < self.plan.steps.len());
                if draws_up {
                    let found = &self.found;
                    self.plan = plan_rejoins(&found.nodes, &found.waypoints, &found.geneses);
                }
                self.pos = self.pos + 1;
                self.settle();
            },
            Err(verdict) => {
                let goes_on = match (&verdict, self.brief.mission) {
                    (Verdict::Returned(_), Mission::Run { .. }) => in_upgrade(self.stage),
                    _ => false,
                };
                if goes_on {
                    self.plan = plan_stage(&self.brief, Stage::Park, &self.found);
                    self.stage = Stage::Park;
                    self.pos = 0;
                    self.settle();
                } else {
                    self.verdict = Some(verdict);
                }
            },
        }
    }
}

} // verus!
