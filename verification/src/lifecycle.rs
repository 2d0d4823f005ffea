//! The application lifecycle: running, quitting, terminated, and the guard
//! that lets the quit sequence run at most once.

use vstd::prelude::*;

verus! {

/// Where the application stands.
#[derive(Clone, Copy, Debug, PartialEq, Eq, Structural)]
pub enum Phase {
    /// From construction until the first accepted quit request.
    Running,
    /// The quit sequence was started; the native loop may still deliver events.
    Quitting,
    /// The native loop has returned.
    Terminated,
}

/// What a quit request led to.
#[derive(Clone, Copy, Debug, PartialEq, Eq, Structural)]
pub enum QuitOutcome {
    /// This request starts the quit sequence: the caller closes the windows
    /// and stops the loop, then reports the teardown as done.
    Proceed,
    /// The quit sequence ran before: nothing is left to do.
    AlreadyQuitting,
    /// Another request holds the state and is tearing down right now: the
    /// caller logs a warning and returns.
    Contended,
}

/// One native request of the quit sequence.
#[derive(Clone, Copy, Debug, PartialEq, Eq, Structural)]
pub enum TeardownStep {
    /// Ask the window at this index of the open-window list to close, deferred
    /// to the native loop.
    CloseWindow(u64),
    /// Ask the native loop to stop once it has dealt with its events.
    StopLoop,
}

/// What happens to a lifecycle.
#[derive(Clone, Copy, Debug, PartialEq, Eq, Structural)]
pub enum LifecycleEvent {
    /// Some thread asks the application to quit.
    QuitRequested,
    /// The request that was told to proceed has sent its native requests.
    TeardownDone,
    /// The native loop has returned control.
    LoopExited,
}

/// The lifecycle as a plain value.
pub struct LifecycleView {
    pub phase: Phase,
    /// Whether a quit request holds the state for its teardown.
    pub held: bool,
}

impl LifecycleView {
    /// The quitting flag: set by the first accepted quit, never cleared.
    pub open spec fn quitting(self) -> bool {
        self.phase != Phase::Running
    }

    /// The state is held only while quitting.
    pub open spec fn wf(self) -> bool {
        self.held ==> self.phase == Phase::Quitting
    }

    /// The state at construction.
    pub open spec fn initial() -> LifecycleView {
        LifecycleView { phase: Phase::Running, held: false }
    }

    /// The answer to a quit request made in this state.
    pub open spec fn quit_outcome(self) -> QuitOutcome {
        if self.held {
            QuitOutcome::Contended
        } else if self.phase == Phase::Running {
            QuitOutcome::Proceed
        } else {
            QuitOutcome::AlreadyQuitting
        }
    }

    /// The state after `event`.
    pub open spec fn step(self, event: LifecycleEvent) -> LifecycleView {
        match event {
            LifecycleEvent::QuitRequested => if self.quit_outcome() == QuitOutcome::Proceed {
                LifecycleView { phase: Phase::Quitting, held: true }
            } else {
                self
            },
            LifecycleEvent::TeardownDone => LifecycleView { phase: self.phase, held: false },
            LifecycleEvent::LoopExited => LifecycleView { phase: Phase::Terminated, held: false },
        }
    }

    /// The state after `events`, first to last.
    pub open spec fn run(self, events: Seq<LifecycleEvent>) -> LifecycleView
        decreases events.len(),
    {
        if events.len() == 0 {
            self
        } else {
            self.run(events.drop_last()).step(events.last())
        }
    }

    /// How many of the quit requests among `events` were told to proceed.
    pub open spec fn teardowns_started(self, events: Seq<LifecycleEvent>) -> nat
        decreases events.len(),
    {
        if events.len() == 0 {
            0
        } else {
            let before = self.run(events.drop_last());
            let earlier = self.teardowns_started(events.drop_last());
            if events.last() == LifecycleEvent::QuitRequested && before.quit_outcome()
                == QuitOutcome::Proceed {
                earlier + 1
            } else {
                earlier
            }
        }
    }
}

/// The native requests of one quit sequence with `window_count` open windows:
/// a close request for each window in the order of the list, then the stop
/// request.
pub open spec fn teardown_steps(window_count: nat) -> Seq<TeardownStep> {
    Seq::new(
        window_count + 1,
        |i: int|
            if i < window_count {
                TeardownStep::CloseWindow(i as u64)
            } else {
                TeardownStep::StopLoop
            },
    )
}

/// The lifecycle state of one application.
pub struct Lifecycle {
    phase: Phase,
    held: bool,
}

impl View for Lifecycle {
    type V = LifecycleView;

    closed spec fn view(&self) -> LifecycleView {
        LifecycleView { phase: self.phase, held: self.held }
    }
}

impl Lifecycle {
    /// A lifecycle in `Running`, held by nobody.
    pub fn new() -> (state: Self)
        ensures
            state@ == LifecycleView::initial(),
            state@.wf(),
    {
        Lifecycle { phase: Phase::Running, held: false }
    }

    /// The current phase.
    pub fn phase(&self) -> (phase: Phase)
        ensures
            phase == self@.phase,
    {
        self.phase
    }

    /// Whether a quit was accepted at some point.
    pub fn is_quitting(&self) -> (quitting: bool)
        ensures
            quitting == self@.quitting(),
    {
        match self.phase {
            Phase::Running => false,
            Phase::Quitting => true,
            Phase::Terminated => true,
        }
    }

    /// Handles a quit request. It never waits: where another request holds the
    /// state, the answer is `Contended` and nothing changes. The first request
    /// made while running moves to `Quitting`, takes hold of the state and is
    /// told to proceed; every later one changes nothing.
    pub fn quit(&mut self) -> (outcome: QuitOutcome)
        ensures
            outcome == old(self)@.quit_outcome(),
            final(self)@ == old(self)@.step(LifecycleEvent::QuitRequested),
    {
        if self.held {
            QuitOutcome::Contended
        } else {
            match self.phase {
                Phase::Running => {
                    self.phase = Phase::Quitting;
                    self.held = true;
                    QuitOutcome::Proceed
                },
                Phase::Quitting => QuitOutcome::AlreadyQuitting,
                Phase::Terminated => QuitOutcome::AlreadyQuitting,
            }
        }
    }

    /// Releases the hold that the proceeding quit request took, once its
    /// native requests are sent.
    pub fn teardown_done(&mut self)
        ensures
            final(self)@ == old(self)@.step(LifecycleEvent::TeardownDone),
    {
        self.held = false;
    }

    /// Records that the native loop has returned: the lifecycle ends in
    /// `Terminated`.
    pub fn loop_exited(&mut self)
        ensures
            final(self)@ == old(self)@.step(LifecycleEvent::LoopExited),
    {
        self.phase = Phase::Terminated;
        self.held = false;
    }
}

/// Lists the native requests of the quit sequence for `window_count` open
/// windows, in the order in which they are to be sent.
pub fn teardown_plan(window_count: u64) -> (plan: Vec<TeardownStep>)
    ensures
        plan@ == teardown_steps(window_count as nat),
{
    let mut plan: Vec<TeardownStep> = Vec::new();
    let mut i: u64 = 0;
    while i < window_count
        invariant
            i <= window_count,
            plan@.len() == i,
            forall|k: int| 0 <= k < i ==> plan@[k] == TeardownStep::CloseWindow(k as u64),
        decreases window_count - i,
    {
        plan.push(TeardownStep::CloseWindow(i));
        i = i + 1;
    }
    plan.push(TeardownStep::StopLoop);
    assert(plan@ =~= teardown_steps(window_count as nat));
    plan
}

/// No event clears the quitting flag, and after every event the state is
/// held only while quitting, if it was so before.
pub proof fn lemma_step_keeps_quitting(state: LifecycleView, event: LifecycleEvent)
    ensures
        state.wf() ==> state.step(event).wf(),
        state.quitting() ==> state.step(event).quitting(),
{
}

/// Whatever happens, the quitting flag stays set once it is set.
pub proof fn lemma_quitting_never_reverts(state: LifecycleView, events: Seq<LifecycleEvent>)
    ensures
        state.wf() ==> state.run(events).wf(),
        state.quitting() ==> state.run(events).quitting(),
    decreases events.len(),
{
    if events.len() > 0 {
        lemma_quitting_never_reverts(state, events.drop_last());
        lemma_step_keeps_quitting(state.run(events.drop_last()), events.last());
    }
}

/// A second quit request, right after a first, starts nothing and changes
/// nothing, whatever the first one did.
pub proof fn lemma_second_quit_is_noop(state: LifecycleView)
    ensures
        state.step(LifecycleEvent::QuitRequested).quit_outcome() != QuitOutcome::Proceed,
        state.step(LifecycleEvent::QuitRequested).step(LifecycleEvent::QuitRequested)
            == state.step(LifecycleEvent::QuitRequested),
{
}

/// Over any course of events the quit sequence starts at most once, and not
/// at all where the application was quitting already. The window-close
/// broadcast and the stop request belong to that one start.
pub proof fn lemma_quit_sequence_runs_at_most_once(
    state: LifecycleView,
    events: Seq<LifecycleEvent>,
)
    ensures
        state.teardowns_started(events) <= 1,
        state.quitting() ==> state.teardowns_started(events) == 0,
        state.teardowns_started(events) == 1 ==> state.run(events).quitting(),
    decreases events.len(),
{
    if events.len() > 0 {
        let earlier = events.drop_last();
        lemma_quit_sequence_runs_at_most_once(state, earlier);
        lemma_quitting_never_reverts(state, earlier);
        lemma_quitting_never_reverts(state, events);
    }
}

/// Two quit requests in a row to a running application that nobody holds
/// start exactly one quit sequence: the first proceeds, the second finds the
/// state held and does nothing.
pub proof fn lemma_two_quits_start_one_teardown(state: LifecycleView)
    requires
        state.phase == Phase::Running,
        !state.held,
    ensures
        state.quit_outcome() == QuitOutcome::Proceed,
        state.step(LifecycleEvent::QuitRequested).quit_outcome() == QuitOutcome::Contended,
        state.teardowns_started(
            seq![LifecycleEvent::QuitRequested, LifecycleEvent::QuitRequested],
        ) == 1,
{
    let twice = seq![LifecycleEvent::QuitRequested, LifecycleEvent::QuitRequested];
    let once = seq![LifecycleEvent::QuitRequested];
    assert(twice.drop_last() =~= once);
    assert(once.drop_last() =~= Seq::<LifecycleEvent>::empty());
    assert(state.run(once.drop_last()) == state);
    assert(state.run(once) == state.step(LifecycleEvent::QuitRequested));
    assert(state.teardowns_started(once.drop_last()) == 0);
    assert(state.teardowns_started(once) == 1);
}

} // verus!
