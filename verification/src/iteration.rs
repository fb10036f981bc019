//! One iteration: its context, its reports, and the order of its steps.
//!
//! An `Iteration` says what happens next and keeps what the actions share.
//! The caller performs each step and then calls `advance`: it waits where
//! the iteration asks for a pause, and it runs the action with the given
//! index, on the iteration's context and reports, where it asks for one.
//! Actions are not retried and never run side by side: the next step is
//! known only when the one before it has been made.
use vstd::prelude::*;
use crate::config::Config;
use crate::context::{context_keys, context_texts, seed_context, seeded_texts, Context};
use crate::pacing::{delay, paced, rampup_delay};

verus! {

/// What an iteration does next.
#[derive(Debug, Clone, Copy, PartialEq, Eq, Structural)]
pub enum Step {
    /// It waits for this many seconds before its first action.
    Pause(u64),
    /// It runs the action with this index in the plan.
    Run(usize),
    /// It has run every action: its reports are complete.
    Finish,
}

/// How far an iteration has come, as the contracts see it.
pub struct Progress {
    /// The pause that the iteration has yet to make, if any.
    pub pause: Option<u64>,
    /// How many actions have run. They are the actions with an index below
    /// this number.
    pub cursor: int,
    /// How many actions the plan holds.
    pub plan_len: int,
}

impl Progress {
    /// Where an iteration starts: before its pause, if the run is paced,
    /// and before its first action.
    pub open spec fn initial(
        rampup: int,
        iterations: int,
        iteration: int,
        plan_len: int,
    ) -> Progress {
        Progress {
            pause: if rampup > 0 {
                Some(delay(rampup, iterations, iteration) as u64)
            } else {
                None
            },
            cursor: 0,
            plan_len,
        }
    }

    /// The next step of the iteration.
    pub open spec fn next(self) -> Step {
        match self.pause {
            Some(seconds) => Step::Pause(seconds),
            None => if self.cursor < self.plan_len {
                Step::Run(self.cursor as usize)
            } else {
                Step::Finish
            },
        }
    }

    /// The progress after the next step was made. After the last action
    /// nothing changes any more.
    pub open spec fn advance(self) -> Progress {
        match self.pause {
            Some(_) => Progress { pause: None, ..self },
            None => if self.cursor < self.plan_len {
                Progress { cursor: self.cursor + 1, ..self }
            } else {
                self
            },
        }
    }

    /// The progress after `steps` steps were made.
    pub open spec fn advance_by(self, steps: nat) -> Progress
        decreases steps,
    {
        if steps == 0 {
            self
        } else {
            self.advance_by((steps - 1) as nat).advance()
        }
    }
}

/// One iteration of a run.
pub struct Iteration<R> {
    context: Context,
    reports: Vec<R>,
    pause: Option<u64>,
    cursor: usize,
    plan_len: usize,
}

impl<R> Iteration<R> {
    /// The values that the actions of this iteration share. No other
    /// iteration sees them.
    pub closed spec fn context(&self) -> Context {
        self.context
    }

    /// What the actions of this iteration have reported so far, in the
    /// order in which they ran.
    pub closed spec fn reports(&self) -> Vec<R> {
        self.reports
    }

    /// How far the iteration has come.
    pub closed spec fn progress(&self) -> Progress {
        Progress {
            pause: self.pause,
            cursor: self.cursor as int,
            plan_len: self.plan_len as int,
        }
    }

    /// Prepares iteration `iteration` of a run of a plan with `plan_len`
    /// actions.
    ///
    /// Its context holds the iteration's index, in decimal, and the base
    /// address of the target. It has no reports yet. In a paced run it
    /// starts with a pause of `delay` seconds.
    pub fn new(config: &Config, iteration: i64, plan_len: usize) -> (fresh: Self)
        requires
            paced(config.rampup as int, config.iterations as int, iteration as int),
        ensures
            context_texts(fresh.context()) == seeded_texts(iteration as int, config.base@),
            context_keys(fresh.context()) == context_texts(fresh.context()).dom(),
            fresh.reports()@.len() == 0,
            fresh.progress() == Progress::initial(
                config.rampup as int,
                config.iterations as int,
                iteration as int,
                plan_len as int,
            ),
    {
        let pause = if config.rampup > 0 {
            Some(rampup_delay(config.rampup, config.iterations, iteration))
        } else {
            None
        };
        Iteration {
            context: seed_context(iteration, config.base.as_str()),
            reports: Vec::new(),
            pause,
            cursor: 0,
            plan_len,
        }
    }

    /// What the iteration does next.
    pub fn next(&self) -> (step: Step)
        ensures
            step == self.progress().next(),
    {
        match self.pause {
            Some(seconds) => Step::Pause(seconds),
            None => if self.cursor < self.plan_len {
                Step::Run(self.cursor)
            } else {
                Step::Finish
            },
        }
    }

    /// Records that the step which `next` gave was made. The context and the
    /// reports stay as the step left them.
    pub fn advance(&mut self)
        ensures
            final(self).progress() == old(self).progress().advance(),
            final(self).context() == old(self).context(),
            final(self).reports() == old(self).reports(),
    {
        match self.pause {
            Some(_) => {
                self.pause = None;
            },
            None => {
                if self.cursor < self.plan_len {
                    self.cursor = self.cursor + 1;
                }
            },
        }
    }

    /// Lends the context and the reports to the action that runs now. What
    /// the action leaves in them is what the iteration holds afterwards.
    pub fn workspace(&mut self) -> (lent: (&mut Context, &mut Vec<R>))
        ensures
            *lent.0 == old(self).context(),
            *lent.1 == old(self).reports(),
            final(self).context() == *final(lent.0),
            final(self).reports() == *final(lent.1),
            final(self).progress() == old(self).progress(),
    {
        (&mut self.context, &mut self.reports)
    }

    /// Ends the iteration and hands out what its actions have reported.
    pub fn into_reports(self) -> (reports: Vec<R>)
        ensures
            reports == self.reports(),
    {
        self.reports
    }
}

/// How many steps an iteration makes before its first action: one if it
/// starts with a pause, and none otherwise.
pub open spec fn lead(start: Progress) -> nat {
    if start.pause is Some {
        1
    } else {
        0
    }
}

/// The steps of an iteration, one after the other, for a start at which no
/// action has run yet.
proof fn lemma_advance_by(start: Progress, steps: nat)
    requires
        start.cursor == 0,
        0 <= start.plan_len,
    ensures
        start.advance_by(steps) == if steps < lead(start) {
            start
        } else if steps - lead(start) < start.plan_len {
            Progress { pause: None, cursor: steps - lead(start), ..start }
        } else {
            Progress { pause: None, cursor: start.plan_len, ..start }
        },
    decreases steps,
{
    if steps > 0 {
        lemma_advance_by(start, (steps - 1) as nat);
    }
}

/// The actions of an iteration run in the order of the plan, each of them
/// once, and none at the same time as another: after the pause, if there is
/// one, step after step asks for the next action, and after the last action
/// every step says that the iteration has finished.
pub proof fn lemma_actions_run_in_order(start: Progress, steps: nat)
    requires
        start.cursor == 0,
        0 <= start.plan_len <= usize::MAX,
    ensures
        steps < lead(start) ==> start.advance_by(steps).next() == Step::Pause(start.pause->Some_0),
        lead(start) <= steps < lead(start) + start.plan_len ==> start.advance_by(steps).next()
            == Step::Run((steps - lead(start)) as usize),
        lead(start) + start.plan_len <= steps ==> start.advance_by(steps).next() == Step::Finish,
{
    lemma_advance_by(start, steps);
}

} // verus!
