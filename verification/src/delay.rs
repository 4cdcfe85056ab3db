//! A value whose updates reach the readers one tick later.
//!
//! Every value written to the input side is queued; a forwarding task hands
//! the queued values, oldest first, to the output side, as long as the
//! output's scope is alive. Reading the output takes the value out, leaving
//! the signal at its default value (written `None` here).

use vstd::prelude::*;
use std::collections::VecDeque;

verus! {

/// The observable state of a delayed signal.
pub struct DelayedState<T> {
    /// Values written and not forwarded yet, oldest first.
    pub pending: Seq<T>,
    /// The value the output holds; `None` once it has been taken (the
    /// output then holds its default value).
    pub output: Option<T>,
    /// The forwarding task has ended (the output's scope was disposed).
    pub finished: bool,
}

/// The state after writing `v` to the input side.
pub open spec fn after_set<T>(s: DelayedState<T>, v: T) -> DelayedState<T> {
    DelayedState { pending: s.pending.push(v), ..s }
}

/// One step of the forwarding task: whether a value reached the output, and
/// the state after it. With nothing queued, or after the task ended, the
/// step does nothing. A value that arrives when the output is dead is
/// dropped and the task ends.
pub open spec fn deliver_step<T>(s: DelayedState<T>, alive: bool) -> (bool, DelayedState<T>) {
    if s.finished || s.pending.len() == 0 {
        (false, s)
    } else if !alive {
        (false, DelayedState { pending: s.pending.drop_first(), finished: true, ..s })
    } else {
        (true, DelayedState { pending: s.pending.drop_first(), output: Some(s.pending[0]), ..s })
    }
}

/// Reading the output: the value it held, and the state after the value was
/// taken out.
pub open spec fn take_output<T>(s: DelayedState<T>) -> (Option<T>, DelayedState<T>) {
    (s.output, DelayedState { output: None, ..s })
}

/// The state after writing the values of `vs` in order.
pub open spec fn set_all<T>(s: DelayedState<T>, vs: Seq<T>) -> DelayedState<T>
    decreases vs.len(),
{
    if vs.len() == 0 {
        s
    } else {
        set_all(after_set(s, vs[0]), vs.drop_first())
    }
}

/// The state after `n` steps of the forwarding task with a live output.
pub open spec fn deliver_n<T>(s: DelayedState<T>, n: nat) -> DelayedState<T>
    decreases n,
{
    if n == 0 {
        s
    } else {
        deliver_n(deliver_step(s, true).1, (n - 1) as nat)
    }
}

/// A delayed signal: its queue of written values and its output.
#[derive(Debug)]
pub struct DelayedSignal<T> {
    queue: VecDeque<T>,
    output: Option<T>,
    finished: bool,
}

impl<T> View for DelayedSignal<T> {
    type V = DelayedState<T>;

    closed spec fn view(&self) -> DelayedState<T> {
        DelayedState { pending: self.queue@, output: self.output, finished: self.finished }
    }
}

impl<T> DelayedSignal<T> {
    /// A delayed signal whose output starts at `value`, with nothing
    /// queued. (The input's first run happens before the forwarding task
    /// listens, so it queues nothing.)
    pub fn new(value: T) -> (d: DelayedSignal<T>)
        ensures
            d@.pending == Seq::<T>::empty(),
            d@.output == Some(value),
            !d@.finished,
    {
        DelayedSignal { queue: VecDeque::new(), output: Some(value), finished: false }
    }

    /// Writes `value` to the input side (`DelayedSet::set`): it is queued
    /// for the forwarding task.
    pub fn set(&mut self, value: T)
        requires
            !old(self)@.finished,
        ensures
            final(self)@ == after_set(old(self)@, value),
    {
        self.queue.push_back(value);
    }

    /// One step of the forwarding task, with the liveness of the output's
    /// scope; `true` when a value reached the output.
    pub fn deliver(&mut self, alive: bool) -> (r: bool)
        ensures
            (r, final(self)@) == deliver_step(old(self)@, alive),
            old(self)@.pending.len() == 0 ==> !r && final(self)@ == old(self)@,
            r ==> final(self)@.output == Some(old(self)@.pending[0]),
            !r ==> final(self)@.output == old(self)@.output,
    {
        if self.finished {
            return false;
        }
        match self.queue.pop_front() {
            None => false,
            Some(value) => {
                if alive {
                    self.output = Some(value);
                    true
                } else {
                    self.finished = true;
                    false
                }
            },
        }
    }

    /// Reads the output (`DelayedGet::get`), taking the value out; `None`
    /// stands for the default value the output holds after a take.
    pub fn get(&mut self) -> (r: Option<T>)
        ensures
            (r, final(self)@) == take_output(old(self)@),
    {
        self.output.take()
    }

    /// Whether values wait to be forwarded.
    pub fn has_pending(&self) -> (r: bool)
        ensures
            r == (self@.pending.len() > 0),
    {
        self.queue.len() > 0
    }

    /// Whether the forwarding task has ended.
    pub fn is_finished(&self) -> (r: bool)
        ensures
            r == self@.finished,
    {
        self.finished
    }
}

/// A forwarding step with nothing queued changes nothing: the value the
/// output holds stays there until a reader takes it or a newer value is
/// forwarded. Only a step that forwards changes the output, and then to the
/// oldest queued value.
pub proof fn law_idle_step_keeps_output<T>(s: DelayedState<T>, alive: bool)
    ensures
        s.pending.len() == 0 ==> deliver_step(s, alive) == (false, s),
        !deliver_step(s, alive).0 ==> deliver_step(s, alive).1.output == s.output,
        deliver_step(s, alive).0 ==> deliver_step(s, alive).1.output == Some(s.pending[0]),
        !s.finished && s.pending.len() > 0 && alive ==> deliver_step(s, alive).0,
{
}

/// A forwarded value survives any number of idle forwarding steps and is
/// what the next read gives.
pub proof fn law_forwarded_value_waits_for_reader<T>(s: DelayedState<T>, v: T, alive: bool)
    requires
        !s.finished,
        s.pending.len() == 0,
    ensures
        take_output(deliver_step(deliver_step(after_set(s, v), true).1, alive).1).0 == Some(v),
{
}

/// Writing values queues them after those already waiting, in order.
pub proof fn law_set_all_appends<T>(s: DelayedState<T>, vs: Seq<T>)
    ensures
        set_all(s, vs).pending == s.pending + vs,
        set_all(s, vs).output == s.output,
        set_all(s, vs).finished == s.finished,
    decreases vs.len(),
{
    if vs.len() > 0 {
        law_set_all_appends(after_set(s, vs[0]), vs.drop_first());
        assert(s.pending.push(vs[0]) + vs.drop_first() =~= s.pending + vs);
    }
}

/// With a live output, the forwarding task hands the queued values over
/// oldest first: after `k` steps the output holds the `k`-th queued value.
pub proof fn law_deliver_in_order<T>(s: DelayedState<T>, k: nat)
    requires
        !s.finished,
        k <= s.pending.len(),
    ensures
        deliver_n(s, k).pending == s.pending.skip(k as int),
        !deliver_n(s, k).finished,
        k > 0 ==> deliver_n(s, k).output == Some(s.pending[k - 1]),
        k == 0 ==> deliver_n(s, k).output == s.output,
    decreases k,
{
    if k > 0 {
        let n = deliver_step(s, true).1;
        assert(n.pending =~= s.pending.skip(1));
        law_deliver_in_order(n, (k - 1) as nat);
        assert(n.pending.skip(k - 1) =~= s.pending.skip(k as int));
        if k > 1 {
            assert(n.pending[k - 2] == s.pending[k - 1]);
        }
    }
}

/// Values written to a delayed signal with nothing queued reach the
/// output in the order they were written; once all are forwarded the output
/// holds the last one, and reading it twice gives it once.
pub proof fn law_writes_reach_output_in_order<T>(s: DelayedState<T>, vs: Seq<T>, k: nat)
    requires
        !s.finished,
        s.pending.len() == 0,
        0 < k <= vs.len(),
    ensures
        deliver_n(set_all(s, vs), k).output == Some(vs[k - 1]),
        deliver_n(set_all(s, vs), vs.len()).pending.len() == 0,
        take_output(deliver_n(set_all(s, vs), vs.len())).0 == Some(vs.last()),
        take_output(take_output(deliver_n(set_all(s, vs), vs.len())).1).0 == None::<T>,
{
    law_set_all_appends(s, vs);
    assert(s.pending + vs =~= vs);
    law_deliver_in_order(set_all(s, vs), k);
    law_deliver_in_order(set_all(s, vs), vs.len());
}

/// Once a value arrives at a dead output the forwarding task has ended, and
/// nothing reaches the output any more.
pub proof fn law_dead_output_ends_forwarding<T>(s: DelayedState<T>, alive: bool)
    requires
        !s.finished,
        s.pending.len() > 0,
    ensures
        deliver_step(s, false).1.finished,
        deliver_step(deliver_step(s, false).1, alive).0 == false,
        deliver_step(deliver_step(s, false).1, alive).1 == deliver_step(s, false).1,
{
}

/// A write does not change the output at once; after the forwarding step
/// the output holds the value written.
pub proof fn law_write_takes_effect_after_forwarding<T>(s: DelayedState<T>, v: T)
    requires
        !s.finished,
        s.pending.len() == 0,
    ensures
        after_set(s, v).output == s.output,
        deliver_step(after_set(s, v), true).0,
        take_output(deliver_step(after_set(s, v), true).1).0 == Some(v),
{
}

} // verus!
