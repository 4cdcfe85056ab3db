//! The drawing protocol of a reactive application.
//!
//! An application owns two request channels (draw and quit) whose receivers
//! only start listening once the application is set up, and a render effect
//! that either renders into the frame handed to it or, when it re-runs
//! without a frame (because something it read changed), requests a draw.
//! The run loop repeatedly asks whether to draw; a quit request wins over a
//! draw request, disposes the application and ends the loop.

use vstd::prelude::*;

verus! {

/// What the render effect does when it runs.
#[derive(Clone, Copy, Debug, PartialEq, Eq, Structural)]
pub enum FrameAction {
    /// A frame was handed over: render the component into it.
    Render,
    /// No frame is present: ask the run loop for a new draw.
    RequestDraw,
}

/// The observable state of an application.
#[derive(Clone, Copy, Debug, PartialEq, Eq, Structural)]
pub struct AppState {
    /// The request receivers are listening.
    pub listening: bool,
    /// A draw request arrived and was not answered yet.
    pub draw_pending: bool,
    /// A quit request arrived and was not answered yet.
    pub quit_pending: bool,
    /// The reactive scope of the application has been disposed.
    pub disposed: bool,
    /// A frame was handed to the render effect and not taken yet.
    pub frame_present: bool,
}

/// The state right after the application's signals and effects exist,
/// before the receivers listen.
pub open spec fn initial_state() -> AppState {
    AppState {
        listening: false,
        draw_pending: false,
        quit_pending: false,
        disposed: false,
        frame_present: false,
    }
}

/// The state after the receivers start listening.
pub open spec fn after_activate(s: AppState) -> AppState {
    AppState { listening: true, ..s }
}

/// The state after a draw request: only a listening receiver keeps it.
pub open spec fn after_request_draw(s: AppState) -> AppState {
    AppState { draw_pending: s.draw_pending || s.listening, ..s }
}

/// The state after a quit request: only a listening receiver keeps it.
pub open spec fn after_quit(s: AppState) -> AppState {
    AppState { quit_pending: s.quit_pending || s.listening, ..s }
}

/// The answer of one poll of "should the loop draw?" (`None`: keep waiting)
/// and the state after it. A pending quit is answered first: it disposes the
/// application and ends the loop.
pub open spec fn poll_draw(s: AppState) -> (Option<bool>, AppState) {
    if s.quit_pending {
        (Some(false), AppState { quit_pending: false, disposed: true, ..s })
    } else if s.draw_pending {
        (Some(true), AppState { draw_pending: false, ..s })
    } else {
        (None, s)
    }
}

/// The state after the loop hands a frame to the render effect.
pub open spec fn after_draw(s: AppState) -> AppState {
    AppState { frame_present: true, ..s }
}

/// One run of the render effect: it takes the frame out silently (taking
/// it does not make the effect run again) and renders into it, or, with no
/// frame present (it re-ran because something it read changed), asks for a
/// draw. It changes no request.
pub open spec fn render_effect(s: AppState) -> (FrameAction, AppState) {
    if s.frame_present {
        (FrameAction::Render, AppState { frame_present: false, ..s })
    } else {
        (FrameAction::RequestDraw, s)
    }
}

/// A reactive application: the state of its draw and quit requests.
#[derive(Debug)]
pub struct ReactiveApp {
    listening: bool,
    draw_pending: bool,
    quit_pending: bool,
    disposed: bool,
    frame_present: bool,
}

impl View for ReactiveApp {
    type V = AppState;

    closed spec fn view(&self) -> AppState {
        AppState {
            listening: self.listening,
            draw_pending: self.draw_pending,
            quit_pending: self.quit_pending,
            disposed: self.disposed,
            frame_present: self.frame_present,
        }
    }
}

impl ReactiveApp {
    /// A new application whose receivers do not listen yet.
    pub fn new() -> (app: ReactiveApp)
        ensures
            app@ == initial_state(),
    {
        ReactiveApp {
            listening: false,
            draw_pending: false,
            quit_pending: false,
            disposed: false,
            frame_present: false,
        }
    }

    /// Starts listening for draw and quit requests.
    pub fn activate(&mut self)
        ensures
            final(self)@ == after_activate(old(self)@),
    {
        self.listening = true;
    }

    /// A draw request (`Runtime::request_draw`).
    pub fn request_draw(&mut self)
        requires
            !old(self)@.disposed,
        ensures
            final(self)@ == after_request_draw(old(self)@),
            final(self)@.quit_pending == old(self)@.quit_pending,
            final(self)@.draw_pending == (old(self)@.draw_pending || old(self)@.listening),
            final(self)@.listening == old(self)@.listening,
            final(self)@.disposed == old(self)@.disposed,
            final(self)@.frame_present == old(self)@.frame_present,
    {
        if self.listening {
            self.draw_pending = true;
        }
    }

    /// A quit request (`Runtime::quit`).
    pub fn quit(&mut self)
        requires
            !old(self)@.disposed,
        ensures
            final(self)@ == after_quit(old(self)@),
            final(self)@.draw_pending == old(self)@.draw_pending,
            final(self)@.quit_pending == (old(self)@.quit_pending || old(self)@.listening),
            final(self)@.listening == old(self)@.listening,
            final(self)@.disposed == old(self)@.disposed,
            final(self)@.frame_present == old(self)@.frame_present,
    {
        if self.listening {
            self.quit_pending = true;
        }
    }

    /// Hands a frame to the render effect (which then runs).
    pub fn draw(&mut self)
        requires
            !old(self)@.disposed,
        ensures
            final(self)@ == after_draw(old(self)@),
    {
        self.frame_present = true;
    }

    /// One run of the render effect: `Render` into the frame it takes out,
    /// or `RequestDraw` when no frame is present.
    pub fn run_render_effect(&mut self) -> (a: FrameAction)
        ensures
            (a, final(self)@) == render_effect(old(self)@),
    {
        if self.frame_present {
            self.frame_present = false;
            FrameAction::Render
        } else {
            FrameAction::RequestDraw
        }
    }

    /// One poll of "should the loop draw?": `Some(true)` to draw,
    /// `Some(false)` after a quit (the application is then disposed),
    /// `None` to keep waiting.
    pub fn draw_requested(&mut self) -> (r: Option<bool>)
        requires
            !old(self)@.disposed,
        ensures
            (r, final(self)@) == poll_draw(old(self)@),
    {
        if self.quit_pending {
            self.quit_pending = false;
            self.disposed = true;
            Some(false)
        } else if self.draw_pending {
            self.draw_pending = false;
            Some(true)
        } else {
            None
        }
    }

    /// Disposes the reactive scope of the application.
    pub fn dispose(&mut self)
        ensures
            final(self)@ == (AppState { disposed: true, ..old(self)@ }),
    {
        self.disposed = true;
    }

    /// Whether the application has been disposed.
    pub fn is_disposed(&self) -> (r: bool)
        ensures
            r == self@.disposed,
    {
        self.disposed
    }
}

/// A draw request made while listening is answered by exactly one draw:
/// the next poll says draw, and the one after keeps waiting.
pub proof fn law_draw_request_answered_once(s: AppState)
    requires
        s.listening,
        !s.quit_pending,
        !s.disposed,
    ensures
        poll_draw(after_request_draw(s)).0 == Some(true),
        poll_draw(poll_draw(after_request_draw(s)).1).0 == None::<bool>,
{
}

/// Draw and quit requests are kept apart: a draw request leaves a pending
/// quit (and every other part of the state but the pending draw) alone, and
/// a quit leaves a pending draw alone. So a quit followed by a draw request
/// before the next poll still ends the loop at that poll and disposes the
/// application.
pub proof fn law_draw_request_keeps_quit(s: AppState)
    ensures
        after_request_draw(s).quit_pending == s.quit_pending,
        after_request_draw(s).listening == s.listening,
        after_request_draw(s).disposed == s.disposed,
        after_quit(s).draw_pending == s.draw_pending,
        s.listening && !s.disposed ==> poll_draw(after_request_draw(after_quit(s))).0 == Some(false),
        s.listening && !s.disposed ==> poll_draw(after_request_draw(after_quit(s))).1.disposed,
        s.listening && !s.disposed ==> poll_draw(after_quit(after_request_draw(s))).0 == Some(false),
{
}

/// Draw requests that arrive before a poll are merged into one.
pub proof fn law_draw_requests_merge(s: AppState)
    ensures
        after_request_draw(after_request_draw(s)) == after_request_draw(s),
{
}

/// A quit request made while listening ends the loop at the next poll,
/// whatever draw requests are pending, and disposes the application.
pub proof fn law_quit_ends_loop(s: AppState)
    requires
        s.listening,
        !s.disposed,
    ensures
        poll_draw(after_quit(s)).0 == Some(false),
        poll_draw(after_quit(s)).1.disposed,
{
}

/// Requests made before the receivers listen are lost.
pub proof fn law_requests_before_listening_lost(s: AppState)
    requires
        !s.listening,
    ensures
        after_request_draw(s) == s,
        after_quit(s) == s,
{
}

/// Drawing renders once and requests nothing: the effect run that a draw
/// causes renders into the frame, leaves every request as it was, and
/// leaves no frame behind; so with no other request the loop then keeps
/// waiting. Only a later run without a frame (something the view read
/// changed) asks for a draw again.
pub proof fn law_draw_renders_once(s: AppState)
    requires
        !s.disposed,
    ensures
        render_effect(after_draw(s)).0 == FrameAction::Render,
        render_effect(after_draw(s)).1 == (AppState { frame_present: false, ..s }),
        poll_draw(render_effect(after_draw(s)).1).0 == poll_draw(s).0,
        render_effect(render_effect(after_draw(s)).1).0 == FrameAction::RequestDraw,
{
}

} // verus!
