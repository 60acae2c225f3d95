//! A single procedure on its own: a plan that is followed from its first step to its end.
use crate::findings::{assessed, nothing_found, Findings, FindingsModel};
use crate::plan::{fits, reply_fits, Ending, Plan, PlanModel, Reply, Step, Task, Verdict};
use vstd::prelude::*;

verus! {

/// The state of an errand.
pub struct ErrandModel<E> {
    pub plan: PlanModel,
    /// How many steps of the plan have been taken.
    pub pos: nat,
    /// What has been found out so far.
    pub found: FindingsModel,
    /// How the errand has ended, once it has.
    pub verdict: Option<Verdict<E>>,
}

/// How an errand ends whose steps have all been taken.
pub open spec fn ended<E>(end: Ending) -> Verdict<E> {
    match end {
        Ending::Complete => Verdict::Completed,
        Ending::Fault(fault) => Verdict::Panicked(fault),
    }
}

/// An errand some steps of which have been taken.
pub open spec fn under_way<E>(plan: PlanModel, pos: nat, found: FindingsModel) -> ErrandModel<E> {
    ErrandModel {
        plan,
        pos,
        found,
        verdict: if pos < plan.steps.len() {
            None
        } else {
            Some(ended(plan.end))
        },
    }
}

/// The start of an errand of which nothing is known yet.
pub open spec fn set_out<E>(plan: PlanModel) -> ErrandModel<E> {
    under_way(plan, 0, nothing_found())
}

/// The step that an errand has come to.
pub open spec fn at<E>(m: ErrandModel<E>) -> Step {
    m.plan.steps[m.pos as int]
}

/// How an errand goes on after the reply to its current step.
pub open spec fn moved_on<E>(m: ErrandModel<E>, reply: Reply<E>) -> ErrandModel<E> {
    match assessed(m.found, at(m), reply) {
        Ok(found) => under_way(m.plan, m.pos + 1, found),
        Err(verdict) => ErrandModel { verdict: Some(verdict), ..m },
    }
}

/// How an errand ends that gets one reply after another from a step on.
pub open spec fn played<E>(
    plan: PlanModel,
    pos: nat,
    found: FindingsModel,
    replies: Seq<Reply<E>>,
) -> Verdict<E>
    decreases plan.steps.len() - pos,
{
    if pos >= plan.steps.len() {
        ended(plan.end)
    } else {
        match assessed(found, plan.steps[pos as int], replies[pos as int]) {
            Ok(after) => played(plan, pos + 1, after, replies),
            Err(verdict) => verdict,
        }
    }
}

/// An errand that has not ended goes on, reply by reply, as the replies as a whole say.
pub proof fn law_errand_plays_its_replies<E>(m: ErrandModel<E>, replies: Seq<Reply<E>>)
    requires
        m == under_way::<E>(m.plan, m.pos, m.found),
        m.verdict is None,
    ensures
        ({
            let next = moved_on(m, replies[m.pos as int]);
            played(m.plan, m.pos, m.found, replies) == match next.verdict {
                Some(verdict) => verdict,
                None => played(next.plan, next.pos, next.found, replies),
            }
        }),
{
    if let Ok(found) = assessed(m.found, at(m), replies[m.pos as int]) {
        assert(m.pos + 1 >= m.plan.steps.len() ==> played(m.plan, m.pos + 1, found, replies)
            == ended::<E>(m.plan.end));
    }
}

/// An errand in progress.
///
/// The program around the library carries out the pending task and reports what came of it,
/// until there is a verdict. `E` is the type of the errors that its tasks fail with.
pub struct Errand<E> {
    plan: Plan,
    pos: usize,
    found: Findings,
    verdict: Option<Verdict<E>>,
}

impl<E> View for Errand<E> {
    type V = ErrandModel<E>;

    closed spec fn view(&self) -> ErrandModel<E> {
        ErrandModel {
            plan: self.plan@,
            pos: self.pos as nat,
            found: self.found@,
            verdict: self.verdict,
        }
    }
}

/// How an errand ends whose steps have all been taken.
fn verdict_of<E>(end: Ending) -> (r: Verdict<E>)
    ensures
        r == ended::<E>(end),
{
    match end {
        Ending::Complete => Verdict::Completed,
        Ending::Fault(fault) => Verdict::Panicked(fault),
    }
}

impl<E> Errand<E> {
    /// Whether the errand stands at a step, or has ended.
    pub open spec fn wf(&self) -> bool {
        self@.verdict is None ==> self@ == under_way::<E>(self@.plan, self@.pos, self@.found)
    }

    /// Sets out to follow a plan, with what is known from the start.
    pub(crate) fn start(plan: Plan, found: Findings) -> (r: Errand<E>)
        ensures
            r@ == under_way::<E>(plan@, 0, found@),
            r.wf(),
    {
        let verdict = if plan.steps.len() > 0 {
            None
        } else {
            Some(verdict_of(plan.end))
        };
        Errand { plan, pos: 0, found, verdict }
    }

    /// The task to be carried out next. There is none once the errand has ended.
    pub fn pending(&self) -> (r: Option<&Task>)
        requires
            self.wf(),
        ensures
            match r {
                Some(task) => self@.verdict is None && *task == at(self@).task,
                None => self@.verdict is Some,
            },
    {
        if self.verdict.is_none() {
            Some(&self.plan.steps[self.pos].task)
        } else {
            None
        }
    }

    /// What the errand has found out.
    pub fn findings(&self) -> (r: &Findings)
        ensures
            r@ == self@.found,
    {
        &self.found
    }

    /// How the errand has ended, once it has.
    pub fn verdict(&self) -> (r: Option<&Verdict<E>>)
        ensures
            match r {
                Some(verdict) => self@.verdict == Some(*verdict),
                None => self@.verdict is None,
            },
    {
        match &self.verdict {
            Some(verdict) => Some(verdict),
            None => None,
        }
    }

    /// How the errand has ended, once it has, for good.
    pub fn into_verdict(self) -> (r: Option<Verdict<E>>)
        ensures
            r == self@.verdict,
    {
        self.verdict
    }

    /// Whether a reply is one that the pending task can have.
    pub fn accepts(&self, reply: &Reply<E>) -> (r: bool)
        requires
            self.wf(),
        ensures
            r == (self@.verdict is None && fits(at(self@).task, *reply)),
    {
        if self.verdict.is_some() {
            return false;
        }
        reply_fits(&self.plan.steps[self.pos].task, reply)
    }

    /// Takes the reply to the pending task and goes on.
    pub fn report(&mut self, reply: Reply<E>)
        requires
            old(self).wf(),
            old(self)@.verdict is None,
            fits(at(old(self)@).task, reply),
        ensures
            final(self)@ == moved_on(old(self)@, reply),
            final(self).wf(),
    {
        match self.found.assess(&self.plan.steps[self.pos], reply) {
            Ok(_) => {
                assert(self.pos < self.plan.steps.len());
                self.pos = self.pos + 1;
                if self.pos >= self.plan.steps.len() {
                    self.verdict = Some(verdict_of(self.plan.end));
                }
            },
            Err(verdict) => {
                self.verdict = Some(verdict);
            },
        }
    }
}

} // verus!
