//! Routing between views: `goto` asks for a route; the routed view follows
//! one tick later, when the forwarding task hands the route over.

use vstd::prelude::*;
use crate::delay::{DelayedSignal, DelayedState, after_set, deliver_step, take_output};

verus! {

/// The routing state of a router over routes of type `R`: the requested
/// routes not forwarded yet, and the route the view mapping is re-run with.
#[derive(Debug)]
pub struct Router<R> {
    route: DelayedSignal<R>,
}

impl<R> View for Router<R> {
    type V = DelayedState<R>;

    closed spec fn view(&self) -> DelayedState<R> {
        self.route@
    }
}

/// A router whose first route is `initial` (the default route).
pub fn provide_router<R>(initial: R) -> (router: Router<R>)
    ensures
        router@.pending == Seq::<R>::empty(),
        router@.output == Some(initial),
        !router@.finished,
{
    Router { route: DelayedSignal::new(initial) }
}

impl<R> Router<R> {
    /// Asks for `route`; the routed view changes once it is forwarded.
    pub fn goto(&mut self, route: R)
        requires
            !old(self)@.finished,
        ensures
            final(self)@ == after_set(old(self)@, route),
    {
        self.route.set(route);
    }

    /// One step of the task that forwards requested routes, with the
    /// liveness of the routed view's scope; `true` when a route was handed
    /// over.
    pub fn deliver(&mut self, alive: bool) -> (r: bool)
        ensures
            (r, final(self)@) == deliver_step(old(self)@, alive),
    {
        self.route.deliver(alive)
    }

    /// The route the view mapping is re-run with, taken out of the router
    /// (`None`: the default route).
    pub fn current_route(&mut self) -> (r: Option<R>)
        ensures
            (r, final(self)@) == take_output(old(self)@),
    {
        self.route.get()
    }

    /// Whether the forwarding task has ended.
    pub fn is_finished(&self) -> (r: bool)
        ensures
            r == self@.finished,
    {
        self.route.is_finished()
    }
}

/// A `goto` does not replace the routed view at once (the mapping is still
/// re-run with the old route); after the forwarding step the mapping is
/// re-run with the requested route, once.
pub proof fn law_goto_takes_effect_after_forwarding<R>(s: DelayedState<R>, route: R)
    requires
        !s.finished,
        s.pending.len() == 0,
    ensures
        after_set(s, route).output == s.output,
        deliver_step(after_set(s, route), true).0,
        take_output(deliver_step(after_set(s, route), true).1).0 == Some(route),
        take_output(take_output(deliver_step(after_set(s, route), true).1).1).0 == None::<R>,
{
}

} // verus!
