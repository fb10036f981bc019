//! Admission control: which iteration starts next, and when.
//!
//! A `Scheduler` is the state of one run. It hands out the iterations in
//! the order of their indices and never lets more of them run at once than
//! the run's concurrency allows. The caller starts what `start_next` hands out,
//! reports each iteration that has ended through `complete`, and takes the
//! run's result from `finish` when nothing is left.
use vstd::prelude::*;
use crate::config::Config;

pub mod laws;

verus! {

/// Why a run ends before it has started.
#[derive(Debug, Clone, Copy, PartialEq, Eq, Structural)]
pub enum Fatal {
    /// The plan holds no action.
    EmptyPlan,
}

impl Fatal {
    /// The status with which the process ends: never zero.
    pub fn exit_code(&self) -> (code: i32)
        ensures
            code == 1,
    {
        1
    }

    /// The line that tells the user why the run ended.
    pub fn message(&self) -> (text: &'static str)
        ensures
            text@ == "Empty benchmark. Exiting."@,
    {
        "Empty benchmark. Exiting."
    }
}

/// What a run hands back: the reports of each iteration, in the order in
/// which the iterations completed, and the time that the run took, in
/// nanoseconds.
pub struct BenchmarkResult<R> {
    pub reports: Vec<Vec<R>>,
    pub duration: u128,
}

/// What is left when a run has ended.
pub struct Outcome<R> {
    /// The result of the run. In report mode it is empty, with no duration.
    pub result: BenchmarkResult<R>,
    /// In report mode, the reports of the one iteration, to be rendered and
    /// written out. Otherwise nothing.
    pub sink: Option<Vec<R>>,
}

/// The state of a run, as the contracts see it.
pub struct SchedulerState<R> {
    /// Whether the run is in report mode.
    pub report: bool,
    /// How many iterations the run holds.
    pub iterations: int,
    /// How many iterations may run at once.
    pub concurrency: int,
    /// How many iterations have been started. They are the iterations with
    /// an index below this number.
    pub started: int,
    /// The reports of the iterations that have ended, in the order in which
    /// they ended.
    pub completed: Seq<Vec<R>>,
}

/// How many iterations a run with these settings holds: one in report mode,
/// whatever the settings say, and otherwise as many as configured.
pub open spec fn planned_iterations(report: bool, iterations: int) -> int {
    if report {
        1
    } else if iterations < 0 {
        0
    } else {
        iterations
    }
}

/// How many iterations of such a run may run at once: one in report mode,
/// and otherwise as many as configured.
pub open spec fn planned_concurrency(report: bool, concurrency: int) -> int {
    if report {
        1
    } else {
        concurrency
    }
}

impl<R> SchedulerState<R> {
    /// The state of a run before its first iteration has started.
    pub open spec fn initial(report: bool, iterations: int, concurrency: int) -> Self {
        SchedulerState {
            report,
            iterations: planned_iterations(report, iterations),
            concurrency: planned_concurrency(report, concurrency),
            started: 0,
            completed: Seq::empty(),
        }
    }

    /// How many iterations are running: started and not yet ended.
    pub open spec fn running(self) -> int {
        self.started - self.completed.len()
    }

    /// How many iterations have not been started yet.
    pub open spec fn pending(self) -> int {
        self.iterations - self.started
    }

    /// The invariant of a run: no more iterations have ended than were
    /// started, no more were started than the run holds, and no more are
    /// running than may run at once.
    pub open spec fn wf(self) -> bool {
        &&& self.concurrency >= 1
        &&& 0 <= self.completed.len() <= self.started <= self.iterations
        &&& self.running() <= self.concurrency
        &&& self.report ==> self.iterations == 1 && self.concurrency == 1
    }

    /// Whether another iteration may start now: one is left, and a place is
    /// free.
    pub open spec fn can_start(self) -> bool {
        self.pending() > 0 && self.running() < self.concurrency
    }

    /// The state after the next iteration has started.
    pub open spec fn after_start(self) -> Self {
        SchedulerState { started: self.started + 1, ..self }
    }

    /// The state after a running iteration has ended with these reports.
    pub open spec fn after_end(self, reports: Vec<R>) -> Self {
        SchedulerState { completed: self.completed.push(reports), ..self }
    }

    /// Whether every iteration of the run has ended.
    pub open spec fn done(self) -> bool {
        self.completed.len() == self.iterations
    }
}

/// The state of one run.
pub struct Scheduler<R> {
    report: bool,
    iterations: i64,
    concurrency: i64,
    started: i64,
    completed: Vec<Vec<R>>,
}

impl<R> View for Scheduler<R> {
    type V = SchedulerState<R>;

    closed spec fn view(&self) -> SchedulerState<R> {
        SchedulerState {
            report: self.report,
            iterations: self.iterations as int,
            concurrency: self.concurrency as int,
            started: self.started as int,
            completed: self.completed@,
        }
    }
}

impl<R> Scheduler<R> {
    /// Prepares a run of a plan with `plan_len` actions.
    ///
    /// A run of an empty plan does not start. In report mode the run holds
    /// the one iteration with index 0 and the configured iterations and
    /// concurrency are left aside. Otherwise a configured number of
    /// iterations below zero stands for none.
    pub fn new(config: &Config, plan_len: usize, report: bool) -> (run: Result<Self, Fatal>)
        requires
            !report ==> config.concurrency >= 1,
        ensures
            plan_len == 0 <==> run is Err,
            run is Err ==> run->Err_0 == Fatal::EmptyPlan,
            run is Ok ==> run->Ok_0@ == SchedulerState::<R>::initial(
                report,
                config.iterations as int,
                config.concurrency as int,
            ),
            run is Ok ==> run->Ok_0@.wf(),
    {
        if plan_len == 0 {
            return Err(Fatal::EmptyPlan);
        }
        let iterations: i64 = if report {
            1
        } else if config.iterations < 0 {
            0
        } else {
            config.iterations
        };
        let concurrency: i64 = if report {
            1
        } else {
            config.concurrency
        };
        Ok(Scheduler { report, iterations, concurrency, started: 0, completed: Vec::new() })
    }

    /// Starts the next iteration, if one may start now, and hands out its
    /// index. The caller runs that iteration and reports its end through
    /// `complete`.
    pub fn start_next(&mut self) -> (next: Option<i64>)
        requires
            old(self)@.wf(),
        ensures
            old(self)@.can_start() <==> next is Some,
            next is Some ==> next->Some_0 == old(self)@.started && final(self)@ == old(self)@.after_start(),
            next is None ==> final(self)@ == old(self)@,
            final(self)@.wf(),
    {
        let running: i64 = self.started - self.completed.len() as i64;
        if self.started < self.iterations && running < self.concurrency {
            let index: i64 = self.started;
            self.started = index + 1;
            Some(index)
        } else {
            None
        }
    }

    /// Records that a running iteration has ended, with the reports that its
    /// actions left.
    pub fn complete(&mut self, reports: Vec<R>)
        requires
            old(self)@.wf(),
            old(self)@.running() > 0,
        ensures
            final(self)@ == old(self)@.after_end(reports),
            final(self)@.wf(),
    {
        self.completed.push(reports);
    }

    /// How many iterations are running.
    pub fn running(&self) -> (count: i64)
        requires
            self@.wf(),
        ensures
            count == self@.running(),
            0 <= count <= self@.concurrency,
    {
        self.started - self.completed.len() as i64
    }

    /// Whether every iteration of the run has ended.
    pub fn is_done(&self) -> (done: bool)
        requires
            self@.wf(),
        ensures
            done == self@.done(),
    {
        self.completed.len() as i64 == self.iterations
    }

    /// Ends the run, which took `elapsed` nanoseconds.
    ///
    /// The result holds the reports of every iteration, in the order in
    /// which the iterations completed. In report mode the reports of the one
    /// iteration go to the sink instead, and the result is empty.
    pub fn finish(self, elapsed: u128) -> (outcome: Outcome<R>)
        requires
            self@.wf(),
            self@.done(),
        ensures
            !self@.report ==> outcome.result.reports@ == self@.completed
                && outcome.result.reports@.len() == self@.iterations
                && outcome.result.duration == elapsed
                && outcome.sink is None,
            self@.report ==> outcome.result.reports@.len() == 0
                && outcome.result.duration == 0
                && outcome.sink == Some(self@.completed[0]),
    {
        let mut completed = self.completed;
        if self.report {
            let only = completed.pop();
            Outcome { result: BenchmarkResult { reports: Vec::new(), duration: 0 }, sink: only }
        } else {
            Outcome { result: BenchmarkResult { reports: completed, duration: elapsed }, sink: None }
        }
    }
}

} // verus!
