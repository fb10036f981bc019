//! What holds of every run: the laws of the scheduler's state.
//!
//! A run is a sequence of events, each of which starts the next iteration
//! or ends a running one. The laws here speak of every such sequence that
//! the scheduler permits.
use vstd::prelude::*;
use crate::scheduler::{planned_iterations, SchedulerState};

verus! {

/// One step of a run.
pub enum Event<R> {
    /// The next iteration was started.
    Started,
    /// A running iteration ended and left these reports.
    Ended(Vec<R>),
}

/// How many iterations a sequence of events starts.
pub open spec fn starts<R>(events: Seq<Event<R>>) -> int
    decreases events.len(),
{
    if events.len() == 0 {
        0
    } else {
        starts(events.drop_last()) + match events.last() {
            Event::Started => 1int,
            Event::Ended(_) => 0int,
        }
    }
}

/// The reports that a sequence of events leaves, in the order in which the
/// iterations ended.
pub open spec fn ended<R>(events: Seq<Event<R>>) -> Seq<Vec<R>>
    decreases events.len(),
{
    if events.len() == 0 {
        Seq::empty()
    } else {
        match events.last() {
            Event::Started => ended(events.drop_last()),
            Event::Ended(reports) => ended(events.drop_last()).push(reports),
        }
    }
}

impl<R> SchedulerState<R> {
    /// Whether the event may happen in this state: an iteration starts only
    /// where one may start, and only a running iteration ends.
    pub open spec fn enabled(self, event: Event<R>) -> bool {
        match event {
            Event::Started => self.can_start(),
            Event::Ended(_) => self.running() > 0,
        }
    }

    /// The state after the event.
    pub open spec fn after(self, event: Event<R>) -> Self {
        match event {
            Event::Started => self.after_start(),
            Event::Ended(reports) => self.after_end(reports),
        }
    }

    /// The state after a sequence of events.
    pub open spec fn replay(self, events: Seq<Event<R>>) -> Self
        decreases events.len(),
    {
        if events.len() == 0 {
            self
        } else {
            self.replay(events.drop_last()).after(events.last())
        }
    }

    /// Whether the events may happen one after the other, from this state
    /// on.
    pub open spec fn permits(self, events: Seq<Event<R>>) -> bool
        decreases events.len(),
    {
        events.len() > 0 ==> self.permits(events.drop_last()) && self.replay(
            events.drop_last(),
        ).enabled(events.last())
    }
}

/// A run starts in a valid state, with nothing started and nothing ended.
pub proof fn lemma_initial_state<R>(report: bool, iterations: int, concurrency: int)
    requires
        report || concurrency >= 1,
    ensures
        SchedulerState::<R>::initial(report, iterations, concurrency).wf(),
        SchedulerState::<R>::initial(report, iterations, concurrency).running() == 0,
        report ==> SchedulerState::<R>::initial(report, iterations, concurrency).iterations == 1,
{
}

/// A step that may happen leaves a valid state valid.
pub proof fn lemma_step_keeps_valid<R>(state: SchedulerState<R>, event: Event<R>)
    requires
        state.wf(),
        state.enabled(event),
    ensures
        state.after(event).wf(),
{
}

/// The bound on concurrency holds at every moment of a run: whatever has
/// happened so far, no more iterations are running than may run at once.
pub proof fn lemma_never_over_concurrency<R>(start: SchedulerState<R>, events: Seq<Event<R>>)
    requires
        start.wf(),
        start.permits(events),
    ensures
        start.replay(events).wf(),
        0 <= start.replay(events).running() <= start.concurrency,
        start.replay(events).concurrency == start.concurrency,
        start.replay(events).iterations == start.iterations,
        start.replay(events).report == start.report,
    decreases events.len(),
{
    if events.len() > 0 {
        lemma_never_over_concurrency(start, events.drop_last());
        lemma_step_keeps_valid(start.replay(events.drop_last()), events.last());
    }
}

/// A run keeps count: the iterations that were started are those of the
/// `Started` events, and the reports that it holds are those of the `Ended`
/// events, in the order in which the iterations ended.
pub proof fn lemma_replay_accounts<R>(start: SchedulerState<R>, events: Seq<Event<R>>)
    ensures
        start.replay(events).started == start.started + starts(events),
        start.replay(events).completed == start.completed + ended(events),
        starts(events) + ended(events).len() == events.len(),
    decreases events.len(),
{
    if events.len() > 0 {
        lemma_replay_accounts(start, events.drop_last());
        let before = start.replay(events.drop_last());
        match events.last() {
            Event::Started => {},
            Event::Ended(reports) => {
                assert(before.completed.push(reports) =~= start.completed + ended(
                    events.drop_last(),
                ).push(reports));
            },
        }
    } else {
        assert(start.completed =~= start.completed + ended(events));
    }
}

/// A run that has ended holds the reports of exactly as many iterations as
/// it was planned with: every iteration was started once, and every one of
/// them ended.
pub proof fn lemma_complete_run_counts<R>(
    report: bool,
    iterations: int,
    concurrency: int,
    events: Seq<Event<R>>,
)
    requires
        report || concurrency >= 1,
        SchedulerState::<R>::initial(report, iterations, concurrency).permits(events),
        SchedulerState::<R>::initial(report, iterations, concurrency).replay(events).done(),
    ensures
        SchedulerState::<R>::initial(report, iterations, concurrency).replay(events).completed
            == ended(events),
        ended(events).len() == planned_iterations(report, iterations),
        starts(events) == planned_iterations(report, iterations),
        events.len() == 2 * planned_iterations(report, iterations),
{
    let start = SchedulerState::<R>::initial(report, iterations, concurrency);
    lemma_initial_state::<R>(report, iterations, concurrency);
    lemma_never_over_concurrency(start, events);
    lemma_replay_accounts(start, events);
    assert(start.completed + ended(events) =~= ended(events));
}

/// A run never comes to a halt before its end: while an iteration is
/// missing, either another one may start or one is running and will end.
/// At the end nothing is running and nothing is left to start.
pub proof fn lemma_progress<R>(state: SchedulerState<R>)
    requires
        state.wf(),
    ensures
        !state.done() ==> state.can_start() || state.running() > 0,
        state.done() ==> !state.can_start() && state.running() == 0,
{
}

/// Where every place is taken and iterations are waiting, none of them may
/// start. As soon as one running iteration ends, exactly one of those that
/// wait takes its place: the next in line, after which every place is taken
/// again.
pub proof fn lemma_end_makes_room_for_one<R>(state: SchedulerState<R>, reports: Vec<R>)
    requires
        state.wf(),
        state.running() == state.concurrency,
        state.pending() > 0,
    ensures
        !state.can_start(),
        state.after_end(reports).can_start(),
        state.after_end(reports).after_start().started == state.started + 1,
        state.after_end(reports).after_start().running() == state.concurrency,
        !state.after_end(reports).after_start().can_start(),
{
}

/// How many batches a run takes in which every iteration takes equally
/// long: as many iterations as may run at once start together and end
/// together, batch after batch. It is the number of iterations divided by
/// the concurrency, rounded up.
pub open spec fn batches(iterations: int, concurrency: int) -> int
    decreases iterations,
{
    if iterations <= 0 || concurrency <= 0 {
        0
    } else if iterations <= concurrency {
        1
    } else {
        1 + batches(iterations - concurrency, concurrency)
    }
}

/// The events of one batch: its iterations start one after the other, and
/// then each of them ends, with these reports.
pub open spec fn batch_events<R>(reports: Seq<Vec<R>>) -> Seq<Event<R>> {
    Seq::new(
        2 * reports.len(),
        |i: int|
            if i < reports.len() {
                Event::Started
            } else {
                Event::Ended(reports[i - reports.len()])
            },
    )
}

impl<R> SchedulerState<R> {
    /// How many iterations the next batch holds: as many as may run at
    /// once, or all that are left if those are fewer.
    pub open spec fn batch_size(self) -> int {
        if self.pending() < self.concurrency {
            self.pending()
        } else {
            self.concurrency
        }
    }

    /// The state after a batch of iterations has started and ended.
    pub open spec fn after_batch(self, reports: Seq<Vec<R>>) -> Self {
        SchedulerState {
            started: self.started + reports.len(),
            completed: self.completed + reports,
            ..self
        }
    }

    /// The state after one batch after the other.
    pub open spec fn after_batches(self, rounds: Seq<Seq<Vec<R>>>) -> Self
        decreases rounds.len(),
    {
        if rounds.len() == 0 {
            self
        } else {
            self.after_batch(rounds.first()).after_batches(rounds.drop_first())
        }
    }

    /// Whether each of the batches holds as many iterations as its turn
    /// allows, and at least one.
    pub open spec fn in_full_batches(self, rounds: Seq<Seq<Vec<R>>>) -> bool
        decreases rounds.len(),
    {
        rounds.len() > 0 ==> rounds.first().len() == self.batch_size() && rounds.first().len() > 0
            && self.after_batch(rounds.first()).in_full_batches(rounds.drop_first())
    }
}

/// The number of batches is the number of iterations divided by the
/// concurrency, rounded up: one batch less would leave an iteration out.
pub proof fn lemma_batches_bounds(iterations: int, concurrency: int)
    requires
        iterations >= 1,
        concurrency >= 1,
    ensures
        batches(iterations, concurrency) >= 1,
        (batches(iterations, concurrency) - 1) * concurrency < iterations,
        iterations <= batches(iterations, concurrency) * concurrency,
    decreases iterations,
{
    if iterations > concurrency {
        let rest = batches(iterations - concurrency, concurrency);
        lemma_batches_bounds(iterations - concurrency, concurrency);
        assert((rest + 1 - 1) * concurrency == (rest - 1) * concurrency + concurrency)
            by (nonlinear_arith);
        assert((rest + 1) * concurrency == rest * concurrency + concurrency) by (nonlinear_arith);
    } else {
        assert((1 - 1) * concurrency == 0) by (nonlinear_arith);
        assert(1 * concurrency == concurrency) by (nonlinear_arith);
    }
}

/// Between two batches nothing runs. From such a state a full batch may
/// happen as it stands: all of its iterations start, which takes every
/// place or leaves nothing to start, and then all of them end, after which
/// again nothing runs.
pub proof fn lemma_full_batch<R>(state: SchedulerState<R>, reports: Seq<Vec<R>>)
    requires
        state.wf(),
        state.running() == 0,
        reports.len() == state.batch_size(),
    ensures
        state.permits(batch_events(reports)),
        state.replay(batch_events(reports)) == state.after_batch(reports),
        state.after_batch(reports).wf(),
        state.after_batch(reports).running() == 0,
        state.after_batch(reports).pending() == state.pending() - state.batch_size(),
        state.permits(batch_events(reports).take(reports.len() as int)),
        state.replay(batch_events(reports).take(reports.len() as int)).running()
            == state.batch_size(),
        !state.replay(batch_events(reports).take(reports.len() as int)).can_start(),
{
    let events = batch_events(reports);
    let size = reports.len() as int;
    lemma_batch_prefix(state, reports, 2 * size);
    lemma_batch_prefix(state, reports, size);
    assert(events.take(2 * size) =~= events);
    assert(reports.take(size) =~= reports);
}

/// The state in the middle of a batch, after `done` of its events.
proof fn lemma_batch_prefix<R>(state: SchedulerState<R>, reports: Seq<Vec<R>>, done: int)
    requires
        state.wf(),
        state.running() == 0,
        reports.len() == state.batch_size(),
        0 <= done <= 2 * reports.len(),
    ensures
        state.permits(batch_events(reports).take(done)),
        done <= reports.len() ==> state.replay(batch_events(reports).take(done))
            == (SchedulerState { started: state.started + done, ..state }),
        done >= reports.len() ==> state.replay(batch_events(reports).take(done))
            == (SchedulerState {
            started: state.started + reports.len(),
            completed: state.completed + reports.take(done - reports.len()),
            ..state
        }),
    decreases done,
{
    let events = batch_events(reports);
    let size = reports.len() as int;
    if done == 0 {
        assert(reports.take(0) =~= Seq::<Vec<R>>::empty());
        assert(state.completed + reports.take(0) =~= state.completed);
    } else {
        lemma_batch_prefix(state, reports, done - 1);
        assert(events.take(done).drop_last() =~= events.take(done - 1));
        assert(events.take(done).last() == events[done - 1]);
        if done > size {
            assert(reports.take(done - size) =~= reports.take(done - 1 - size).push(
                reports[done - 1 - size],
            ));
            assert((state.completed + reports.take(done - 1 - size)).push(reports[done - 1 - size])
                =~= state.completed + reports.take(done - size));
        } else if done == size {
            assert(reports.take(0) =~= Seq::<Vec<R>>::empty());
            assert(state.completed + reports.take(0) =~= state.completed);
        }
    }
}

/// A run in full batches takes `batches` of them: with four iterations of
/// which two may run at once it takes two batches, not one and not four.
pub proof fn lemma_run_in_batches<R>(state: SchedulerState<R>, rounds: Seq<Seq<Vec<R>>>)
    requires
        state.wf(),
        state.running() == 0,
        state.in_full_batches(rounds),
        state.after_batches(rounds).done(),
    ensures
        rounds.len() == batches(state.pending(), state.concurrency),
    decreases rounds.len(),
{
    if rounds.len() == 0 {
    } else {
        lemma_full_batch(state, rounds.first());
        lemma_run_in_batches(state.after_batch(rounds.first()), rounds.drop_first());
    }
}

} // verus!
