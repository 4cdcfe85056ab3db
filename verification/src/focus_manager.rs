//! Focus between areas of a view: one route number has the focus at a
//! time; an area registered under a route has the focus when the focus is
//! on that route.

use vstd::prelude::*;

verus! {

/// The focus state: the route number that has the focus.
#[derive(Clone, Copy, Debug)]
pub struct FocusManager {
    focus: u8,
}

/// What an area registered under a route knows: its own route number.
#[derive(Clone, Copy, Debug)]
pub struct Focusable {
    route: u8,
}

impl View for FocusManager {
    type V = u8;

    closed spec fn view(&self) -> u8 {
        self.focus
    }
}

impl View for Focusable {
    type V = u8;

    closed spec fn view(&self) -> u8 {
        self.route
    }
}

/// Whether the area registered under `route` has the focus when `focus`
/// is focused.
pub open spec fn focused(route: u8, focus: u8) -> bool {
    route == focus
}

/// The focused route after the focus moves to `route`.
pub open spec fn after_focus(before: u8, route: u8) -> u8 {
    route
}

/// A focus state whose focus starts at `initial`.
pub fn provide_focus_manager(initial: u8) -> (m: FocusManager)
    ensures
        m@ == initial,
{
    FocusManager { focus: initial }
}

impl FocusManager {
    /// Registers an area under `route`.
    pub fn on(&self, route: u8) -> (f: Focusable)
        ensures
            f@ == route,
    {
        Focusable { route }
    }

    /// Moves the focus to `route`.
    pub fn focus(&mut self, route: u8)
        ensures
            final(self)@ == after_focus(old(self)@, route),
            final(self)@ == route,
    {
        self.focus = route;
    }

    /// The focused route number.
    pub fn current(&self) -> (r: u8)
        ensures
            r == self@,
    {
        self.focus
    }
}

impl Focusable {
    /// This area's route number.
    pub fn route(&self) -> (r: u8)
        ensures
            r == self@,
    {
        self.route
    }

    /// Whether this area has the focus of `manager`.
    pub fn is_focused(&self, manager: &FocusManager) -> (r: bool)
        ensures
            r == focused(self@, manager@),
            r == (self@ == manager@),
    {
        self.route == manager.focus
    }
}

/// An area has the focus exactly when its route is the focused route, and
/// the focused route is the last one the focus moved to: a new manager
/// focuses the area registered under its initial route and no other, and
/// after moving the focus to `route` exactly the area under `route` has it.
pub proof fn law_focus_is_last_route(a: u8, f: u8, before: u8, route: u8)
    ensures
        focused(a, f) <==> a == f,
        after_focus(before, route) == route,
        focused(route, after_focus(before, route)),
        a != route ==> !focused(a, after_focus(before, route)),
        focused(f, f),
{
}

/// After the focus moves to `route`, whatever it was on before, an area
/// registered under `a` has the focus exactly when `a == route`; the area
/// that had it before loses it unless it is registered under `route`; and
/// two areas registered under different routes never both have it.
pub proof fn law_focus_moves(before: u8, route: u8, a: u8, b: u8)
    ensures
        focused(a, after_focus(before, route)) <==> a == route,
        focused(before, before) && before != route ==> !focused(before, after_focus(before, route)),
        focused(a, after_focus(before, route)) && focused(b, after_focus(before, route)) ==> a == b,
{
}

} // verus!
