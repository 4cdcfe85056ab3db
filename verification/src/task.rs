//! Tasks that live as long as the reactive scope that spawned them.
//!
//! An event listener, a forwarding loop or an interval wakes up again and
//! again (an event arrived, a value arrived, the period elapsed); a timeout
//! wakes up once. At every wake-up the task looks whether its scope is still
//! alive: if it is, it runs its handler in that scope, otherwise it ends for
//! good.

use vstd::prelude::*;

verus! {

/// What a task does at a wake-up.
#[derive(Clone, Copy, Debug, PartialEq, Eq, Structural)]
pub enum TaskStep {
    /// Run the handler in the task's scope.
    Run,
    /// The task has ended: do nothing, and never wake it again.
    Stop,
}

/// The state of a scoped task: whether it wakes up repeatedly, whether it
/// has ended, and how often it ran its handler.
pub struct TaskState {
    pub repeating: bool,
    pub finished: bool,
    pub runs: nat,
}

/// The step a task takes at a wake-up when its scope is or is not alive,
/// and its state after it.
pub open spec fn task_step(s: TaskState, alive: bool) -> (TaskStep, TaskState) {
    if s.finished {
        (TaskStep::Stop, s)
    } else if !alive {
        (TaskStep::Stop, TaskState { finished: true, ..s })
    } else {
        (TaskStep::Run, TaskState { finished: !s.repeating, runs: s.runs + 1, ..s })
    }
}

/// A task bound to a reactive scope.
pub struct ScopedTask {
    repeating: bool,
    finished: bool,
    runs: Ghost<nat>,
}

impl View for ScopedTask {
    type V = TaskState;

    closed spec fn view(&self) -> TaskState {
        TaskState { repeating: self.repeating, finished: self.finished, runs: self.runs@ }
    }
}

impl ScopedTask {
    /// A task that wakes up repeatedly (listeners, forwarding loops, intervals).
    pub fn repeating() -> (t: ScopedTask)
        ensures
            t@ == (TaskState { repeating: true, finished: false, runs: 0 }),
    {
        ScopedTask { repeating: true, finished: false, runs: Ghost(0) }
    }

    /// A task that wakes up once (timeouts).
    pub fn once() -> (t: ScopedTask)
        ensures
            t@ == (TaskState { repeating: false, finished: false, runs: 0 }),
    {
        ScopedTask { repeating: false, finished: false, runs: Ghost(0) }
    }

    /// One wake-up, with the liveness of the task's scope at that moment.
    pub fn step(&mut self, alive: bool) -> (r: TaskStep)
        ensures
            (r, final(self)@) == task_step(old(self)@, alive),
    {
        if self.finished {
            TaskStep::Stop
        } else if !alive {
            self.finished = true;
            TaskStep::Stop
        } else {
            self.runs = Ghost(self.runs@ + 1);
            if !self.repeating {
                self.finished = true;
            }
            TaskStep::Run
        }
    }

    /// Whether the task has ended.
    pub fn is_finished(&self) -> (r: bool)
        ensures
            r == self@.finished,
    {
        self.finished
    }
}

/// The states a task passes through on a sequence of wake-ups.
pub open spec fn task_run(s: TaskState, wakes: Seq<bool>) -> TaskState
    decreases wakes.len(),
{
    if wakes.len() == 0 {
        s
    } else {
        task_run(task_step(s, wakes[0]).1, wakes.drop_first())
    }
}

/// An ended task never runs its handler again, whatever wakes it.
pub proof fn law_finished_task_stays_finished(s: TaskState, wakes: Seq<bool>)
    requires
        s.finished,
    ensures
        task_run(s, wakes) == s,
    decreases wakes.len(),
{
    if wakes.len() > 0 {
        law_finished_task_stays_finished(task_step(s, wakes[0]).1, wakes.drop_first());
    }
}

/// Once the scope is found dead, the task has ended, whatever follows.
pub proof fn law_dead_scope_ends_task(s: TaskState, wakes: Seq<bool>)
    ensures
        task_step(s, false).0 == TaskStep::Stop,
        task_run(task_step(s, false).1, wakes) == task_step(s, false).1,
{
    law_finished_task_stays_finished(task_step(s, false).1, wakes);
}

/// A timeout runs its handler at most once, whatever wakes it.
pub proof fn law_once_runs_at_most_once(s: TaskState, wakes: Seq<bool>)
    requires
        !s.repeating,
        s.runs == 0,
    ensures
        task_run(s, wakes).runs <= 1,
        !task_run(s, wakes).repeating,
        task_run(s, wakes).runs == 1 ==> task_run(s, wakes).finished,
    decreases wakes.len(),
{
    if wakes.len() > 0 {
        let n = task_step(s, wakes[0]).1;
        if n.finished {
            law_finished_task_stays_finished(n, wakes.drop_first());
        } else {
            law_once_runs_at_most_once(n, wakes.drop_first());
        }
    }
}

/// A repeating task whose scope stays alive runs its handler at every
/// wake-up.
pub proof fn law_live_repeating_runs_every_wake(s: TaskState, wakes: Seq<bool>)
    requires
        s.repeating,
        !s.finished,
        forall|i: int| 0 <= i < wakes.len() ==> wakes[i],
    ensures
        task_run(s, wakes).runs == s.runs + wakes.len(),
        !task_run(s, wakes).finished,
    decreases wakes.len(),
{
    if wakes.len() > 0 {
        let rest = wakes.drop_first();
        assert forall|i: int| 0 <= i < rest.len() implies rest[i] by {
            assert(rest[i] == wakes[i + 1]);
        }
        law_live_repeating_runs_every_wake(task_step(s, wakes[0]).1, rest);
    }
}

} // verus!
