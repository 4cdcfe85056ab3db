//! Background resources: a future re-started whenever what it depends on
//! changes, whose output becomes the resource's value.
//!
//! Every (re)start clears the value, puts the progress back to 0, cancels
//! the run still going and starts a new run; only the run still going may
//! report progress or set the value, so a cancelled run changes neither;
//! disposing the scope cancels the run still going.

use vstd::prelude::*;

verus! {

/// The observable state of a resource.
pub struct ResourceState<T> {
    /// Number of the latest run (0: none started yet).
    pub run: nat,
    /// The latest run is still going.
    pub running: bool,
    /// The output of the latest run, once it finished.
    pub result: Option<T>,
    /// The progress the latest run reported (0 until it reports).
    pub progress: u16,
}

/// The state of a new resource: no run, no value, no progress.
pub open spec fn initial_resource<T>() -> ResourceState<T> {
    ResourceState { run: 0, running: false, result: None, progress: 0 }
}

/// The state after a (re)start.
pub open spec fn after_restart<T>(s: ResourceState<T>) -> ResourceState<T> {
    ResourceState { run: s.run + 1, running: true, result: None, progress: 0 }
}

/// Whether the output of run `id` is taken: only the latest run, while it
/// is still going.
pub open spec fn accepts<T>(s: ResourceState<T>, id: nat) -> bool {
    s.running && id == s.run
}

/// The state after run `id` finished with `value`.
pub open spec fn after_complete<T>(s: ResourceState<T>, id: nat, value: T) -> ResourceState<T> {
    if accepts(s, id) {
        ResourceState { running: false, result: Some(value), ..s }
    } else {
        s
    }
}

/// The state after run `id` reported `progress`: only the run still going
/// changes the progress.
pub open spec fn after_report<T>(s: ResourceState<T>, id: nat, progress: u16) -> ResourceState<T> {
    if accepts(s, id) {
        ResourceState { progress, ..s }
    } else {
        s
    }
}

/// The state after the scope was disposed.
pub open spec fn after_cleanup<T>(s: ResourceState<T>) -> ResourceState<T> {
    ResourceState { running: false, ..s }
}

/// A resource with outputs of type `T`.
#[derive(Debug)]
pub struct Resource<T> {
    run: u64,
    running: bool,
    result: Option<T>,
    progress: u16,
}

impl<T> View for Resource<T> {
    type V = ResourceState<T>;

    closed spec fn view(&self) -> ResourceState<T> {
        ResourceState {
            run: self.run as nat,
            running: self.running,
            result: self.result,
            progress: self.progress,
        }
    }
}

impl<T> Resource<T> {
    /// A resource with no run started, no value and progress 0.
    pub fn new() -> (r: Resource<T>)
        ensures
            r@ == initial_resource::<T>(),
    {
        Resource { run: 0, running: false, result: None, progress: 0 }
    }

    /// Whether another run can be numbered.
    pub fn can_restart(&self) -> (r: bool)
        ensures
            r == (self@.run < u64::MAX),
    {
        self.run < u64::MAX
    }

    /// (Re)starts: clears the value, puts the progress back to 0, cancels
    /// the run still going and returns the number of the new run.
    pub fn restart(&mut self) -> (id: u64)
        requires
            old(self)@.run < u64::MAX,
        ensures
            final(self)@ == after_restart(old(self)@),
            id == final(self)@.run,
    {
        self.run = self.run + 1;
        self.running = true;
        self.result = None;
        self.progress = 0;
        self.run
    }

    /// Run `id` finished with `value`; `true` when the value was taken.
    pub fn complete(&mut self, id: u64, value: T) -> (taken: bool)
        ensures
            taken == accepts(old(self)@, id as nat),
            final(self)@ == after_complete(old(self)@, id as nat, value),
    {
        if self.running && id == self.run {
            self.running = false;
            self.result = Some(value);
            true
        } else {
            false
        }
    }

    /// Run `id` reports `progress`; `true` when it was recorded (the run is
    /// the one still going).
    pub fn report_progress(&mut self, id: u64, progress: u16) -> (recorded: bool)
        ensures
            recorded == accepts(old(self)@, id as nat),
            final(self)@ == after_report(old(self)@, id as nat, progress),
            final(self)@.run == old(self)@.run,
            final(self)@.running == old(self)@.running,
            final(self)@.result == old(self)@.result,
            final(self)@.progress == (if recorded { progress } else { old(self)@.progress }),
    {
        if self.running && id == self.run {
            self.progress = progress;
            true
        } else {
            false
        }
    }

    /// The progress the latest run reported.
    pub fn progress(&self) -> (r: u16)
        ensures
            r == self@.progress,
    {
        self.progress
    }

    /// The scope was disposed: the run still going is cancelled.
    pub fn cleanup(&mut self)
        ensures
            final(self)@ == after_cleanup(old(self)@),
    {
        self.running = false;
    }

    /// The value: the output of the latest run, once it finished.
    pub fn result(&self) -> (r: Option<&T>)
        ensures
            r is Some == self@.result is Some,
            r is Some ==> *r->0 == self@.result->0,
    {
        self.result.as_ref()
    }

    /// Whether run `id` is the latest run and still going (a run that is
    /// not has been cancelled or has finished).
    pub fn is_current(&self, id: u64) -> (r: bool)
        ensures
            r == accepts(self@, id as nat),
    {
        self.running && id == self.run
    }

    /// Whether the latest run is still going.
    pub fn is_running(&self) -> (r: bool)
        ensures
            r == self@.running,
    {
        self.running
    }
}

/// A new resource has no value and progress 0.
pub proof fn law_new_resource_starts_at_zero<T>()
    ensures
        initial_resource::<T>().result is None,
        initial_resource::<T>().progress == 0,
        !initial_resource::<T>().running,
{
}

/// A restart clears the value and puts the progress back to 0, and the run
/// it replaced can no longer set the value or report progress.
pub proof fn law_restart_discards_old_run<T>(s: ResourceState<T>, value: T, progress: u16)
    ensures
        after_restart(s).result is None,
        after_restart(s).progress == 0,
        after_complete(after_restart(s), s.run, value) == after_restart(s),
        after_report(after_restart(s), s.run, progress) == after_restart(s),
{
}

/// A run that is not the one still going (cancelled by a restart or by the
/// scope's disposal, or already finished) changes neither the value nor the
/// progress.
pub proof fn law_cancelled_run_changes_nothing<T>(s: ResourceState<T>, id: nat, value: T, progress: u16)
    requires
        !accepts(s, id),
    ensures
        after_complete(s, id, value) == s,
        after_report(s, id, progress) == s,
{
}

/// Reporting progress never ends a run, nor touches its number or the
/// value: the run still going can report any progress (100% included) and
/// then complete, and its output becomes the value.
pub proof fn law_report_keeps_run_going<T>(s: ResourceState<T>, id: nat, progress: u16, value: T)
    ensures
        after_report(s, id, progress).running == s.running,
        after_report(s, id, progress).run == s.run,
        after_report(s, id, progress).result == s.result,
        accepts(after_report(s, id, progress), id) == accepts(s, id),
        after_complete(after_report(after_restart(s), s.run + 1, progress), s.run + 1, value).result
            == Some(value),
        after_complete(after_report(after_restart(s), s.run + 1, progress), s.run + 1, value).progress
            == progress,
{
}

/// The latest run's reports become the progress while it is going.
pub proof fn law_latest_run_reports_progress<T>(s: ResourceState<T>, progress: u16)
    ensures
        after_report(after_restart(s), s.run + 1, progress).progress == progress,
        after_report(after_restart(s), s.run + 1, progress).result is None,
{
}

/// The output of the latest run becomes the value, and a run's output is
/// taken at most once.
pub proof fn law_latest_run_sets_value<T>(s: ResourceState<T>, value: T, other: T)
    ensures
        after_complete(after_restart(s), s.run + 1, value).result == Some(value),
        after_complete(after_complete(after_restart(s), s.run + 1, value), s.run + 1, other)
            == after_complete(after_restart(s), s.run + 1, value),
{
}

/// After the scope is disposed no run sets the value or reports progress.
pub proof fn law_cleanup_cancels<T>(s: ResourceState<T>, id: nat, value: T, progress: u16)
    ensures
        after_complete(after_cleanup(s), id, value) == after_cleanup(s),
        after_report(after_cleanup(s), id, progress) == after_cleanup(s),
{
}

} // verus!
