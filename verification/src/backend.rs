//! What each kind of event listener hands to its handler.
//!
//! A listener receives every event of the terminal; these functions decide,
//! for one event, whether the handler is called and with what.

use vstd::prelude::*;
use crate::event::{Event, KeyEvent, MouseEvent, key_of, key_press_of, mouse_of, resize_of};
use crate::task::{TaskState, TaskStep, task_step};

verus! {

/// A key listener calls its handler with the key event of every key event.
pub fn on_key(event: &Event) -> (r: Option<KeyEvent>)
    ensures
        r == key_of(*event),
        r is Some ==> *event == Event::Key(r->0),
        forall|k: KeyEvent| *event == Event::Key(k) ==> r == Some(k),
{
    event.as_key_event()
}

/// A mouse listener calls its handler with every mouse event.
pub fn on_mouse(event: &Event) -> (r: Option<MouseEvent>)
    ensures
        r == mouse_of(*event),
        r is Some ==> *event == Event::Mouse(r->0),
        forall|m: MouseEvent| *event == Event::Mouse(m) ==> r == Some(m),
{
    event.as_mouse_event()
}

/// A resize listener calls its handler with the new columns and rows.
pub fn on_resize(event: &Event) -> (r: Option<(u16, u16)>)
    ensures
        r == resize_of(*event),
        r is Some ==> *event == Event::Resize((r->0).0, (r->0).1),
        forall|c: u16, w: u16| *event == Event::Resize(c, w) ==> r == Some((c, w)),
{
    event.as_resize_event()
}

/// A key-press listener calls its handler with key events of kind press only.
pub fn on_key_press(event: &Event) -> (r: Option<KeyEvent>)
    ensures
        r == key_press_of(*event),
        r is Some ==> *event == Event::Key(r->0) && r->0.kind == crate::event::KeyEventKind::Press,
        forall|k: KeyEvent| *event == Event::Key(k) && k.kind == crate::event::KeyEventKind::Press
            ==> r == Some(k),
{
    event.as_key_press_event()
}

/// A listener hands over the event it carries unchanged (modifiers, kind
/// and keyboard state included): the key of a key event, the key of a key
/// press, the mouse event of a mouse event, the size of a resize; and what
/// it hands over is exactly what the event carries.
pub proof fn law_listeners_hand_over_unchanged(k: KeyEvent, m: MouseEvent, columns: u16, rows: u16)
    ensures
        key_of(Event::Key(k)) == Some(k),
        k.kind == crate::event::KeyEventKind::Press ==> key_press_of(Event::Key(k)) == Some(k),
        k.kind != crate::event::KeyEventKind::Press ==> key_press_of(Event::Key(k)) is None,
        mouse_of(Event::Mouse(m)) == Some(m),
        resize_of(Event::Resize(columns, rows)) == Some((columns, rows)),
        forall|e: Event| #[trigger] key_of(e) is Some ==> e == Event::Key(key_of(e)->0),
        forall|e: Event| #[trigger] key_press_of(e) is Some ==> e == Event::Key(key_press_of(e)->0),
{
}

/// A key-press listener hears exactly the key events of kind press that a
/// key listener hears.
pub proof fn law_key_press_is_pressed_key(event: Event)
    ensures
        key_press_of(event) is Some <==> (key_of(event) is Some && key_of(event)->0.kind
            == crate::event::KeyEventKind::Press),
        key_press_of(event) is Some ==> key_press_of(event) == key_of(event),
{
}

/// No event reaches more than one of the key, mouse and resize listeners.
pub proof fn law_listeners_are_disjoint(event: Event)
    ensures
        !(key_of(event) is Some && mouse_of(event) is Some),
        !(key_of(event) is Some && resize_of(event) is Some),
        !(mouse_of(event) is Some && resize_of(event) is Some),
{
}

/// What a listener hands to its handler over a sequence of wake-ups, each
/// an event with the liveness of the listener's scope at that moment: the
/// listener task takes its step, and when it runs, the filter decides what
/// the handler gets.
pub open spec fn deliveries<T>(
    s: TaskState,
    wakes: Seq<(bool, Event)>,
    filter: spec_fn(Event) -> Option<T>,
) -> Seq<T>
    decreases wakes.len(),
{
    if wakes.len() == 0 {
        Seq::empty()
    } else {
        let step = task_step(s, wakes[0].0);
        let rest = deliveries(step.1, wakes.drop_first(), filter);
        if step.0 == TaskStep::Run && filter(wakes[0].1) is Some {
            seq![filter(wakes[0].1)->0] + rest
        } else {
            rest
        }
    }
}

/// What the filter keeps of a sequence of events, in order.
pub open spec fn filtered<T>(events: Seq<Event>, filter: spec_fn(Event) -> Option<T>) -> Seq<T>
    decreases events.len(),
{
    if events.len() == 0 {
        Seq::empty()
    } else {
        let rest = filtered(events.drop_first(), filter);
        if filter(events[0]) is Some {
            seq![filter(events[0])->0] + rest
        } else {
            rest
        }
    }
}

/// A listener whose scope stays alive hands its handler, in order, exactly
/// what its filter keeps of the events (for a key listener every key event,
/// for a key-press listener the key presses, for a mouse listener the mouse
/// events, for a resize listener the new sizes).
pub proof fn law_live_listener_delivers_filtered<T>(
    s: TaskState,
    wakes: Seq<(bool, Event)>,
    filter: spec_fn(Event) -> Option<T>,
)
    requires
        s.repeating,
        !s.finished,
        forall|i: int| 0 <= i < wakes.len() ==> (#[trigger] wakes[i]).0,
    ensures
        deliveries(s, wakes, filter) == filtered(wakes.map_values(|w: (bool, Event)| w.1), filter),
    decreases wakes.len(),
{
    let events = wakes.map_values(|w: (bool, Event)| w.1);
    if wakes.len() > 0 {
        let rest = wakes.drop_first();
        assert forall|i: int| 0 <= i < rest.len() implies (#[trigger] rest[i]).0 by {
            assert(rest[i] == wakes[i + 1]);
        }
        law_live_listener_delivers_filtered(task_step(s, wakes[0].0).1, rest, filter);
        assert(rest.map_values(|w: (bool, Event)| w.1) =~= events.drop_first());
    }
}

/// Once a listener finds its scope dead it hands nothing more to its
/// handler, whatever events follow.
pub proof fn law_dead_listener_delivers_nothing<T>(
    s: TaskState,
    wakes: Seq<(bool, Event)>,
    filter: spec_fn(Event) -> Option<T>,
)
    requires
        s.finished,
    ensures
        deliveries(s, wakes, filter) == Seq::<T>::empty(),
    decreases wakes.len(),
{
    if wakes.len() > 0 {
        law_dead_listener_delivers_nothing(task_step(s, wakes[0].0).1, wakes.drop_first(), filter);
    }
}

} // verus!
