//! Terminal input events, as plain values.

use vstd::prelude::*;

verus! {

/// A key of the keyboard.
#[derive(Clone, Copy, Debug, PartialEq, Eq, Structural)]
pub enum KeyCode {
    Backspace,
    Enter,
    Left,
    Right,
    Up,
    Down,
    Home,
    End,
    PageUp,
    PageDown,
    Tab,
    BackTab,
    Delete,
    Insert,
    F(u8),
    Char(char),
    Null,
    Esc,
    CapsLock,
    ScrollLock,
    NumLock,
    PrintScreen,
    Pause,
    Menu,
    KeypadBegin,
    Media(MediaKeyCode),
    Modifier(ModifierKeyCode),
}

/// A media key.
#[derive(Clone, Copy, Debug, PartialEq, Eq, Structural)]
pub enum MediaKeyCode {
    Play,
    Pause,
    PlayPause,
    Reverse,
    Stop,
    FastForward,
    Rewind,
    TrackNext,
    TrackPrevious,
    Record,
    LowerVolume,
    RaiseVolume,
    MuteVolume,
}

/// A modifier key reported on its own.
#[derive(Clone, Copy, Debug, PartialEq, Eq, Structural)]
pub enum ModifierKeyCode {
    LeftShift,
    LeftControl,
    LeftAlt,
    LeftSuper,
    LeftHyper,
    LeftMeta,
    RightShift,
    RightControl,
    RightAlt,
    RightSuper,
    RightHyper,
    RightMeta,
    IsoLevel3Shift,
    IsoLevel5Shift,
}

/// Whether a key went down, repeated, or went up.
#[derive(Clone, Copy, Debug, PartialEq, Eq, Structural)]
pub enum KeyEventKind {
    Press,
    Repeat,
    Release,
}

/// A key event: the key, the modifier bits held (shift, control, alt,
/// super, hyper, meta from the lowest bit up), its kind and the keyboard
/// state bits (keypad, caps lock, num lock from the lowest bit up).
#[derive(Clone, Copy, Debug, PartialEq, Eq, Structural)]
pub struct KeyEvent {
    pub code: KeyCode,
    pub modifiers: u8,
    pub kind: KeyEventKind,
    pub state: u8,
}

impl KeyEvent {
    /// A key press of `code` with the given modifier bits and no keyboard state.
    pub fn new(code: KeyCode, modifiers: u8) -> (k: KeyEvent)
        ensures
            k.code == code,
            k.modifiers == modifiers,
            k.kind == KeyEventKind::Press,
            k.state == 0,
    {
        KeyEvent { code, modifiers, kind: KeyEventKind::Press, state: 0 }
    }
}

/// A mouse button.
#[derive(Clone, Copy, Debug, PartialEq, Eq, Structural)]
pub enum MouseButton {
    Left,
    Right,
    Middle,
}

/// What the mouse did.
#[derive(Clone, Copy, Debug, PartialEq, Eq, Structural)]
pub enum MouseEventKind {
    Down(MouseButton),
    Up(MouseButton),
    Drag(MouseButton),
    Moved,
    ScrollDown,
    ScrollUp,
    ScrollLeft,
    ScrollRight,
}

/// A mouse event at a terminal cell, with the modifier bits held.
#[derive(Clone, Copy, Debug, PartialEq, Eq, Structural)]
pub struct MouseEvent {
    pub kind: MouseEventKind,
    pub column: u16,
    pub row: u16,
    pub modifiers: u8,
}

/// An event read from the terminal.
#[derive(Clone, Debug, PartialEq, Eq)]
pub enum Event {
    FocusGained,
    FocusLost,
    Key(KeyEvent),
    Mouse(MouseEvent),
    Paste(String),
    /// New size of the terminal: columns, rows.
    Resize(u16, u16),
}

/// The key event that `e` carries, if it is one.
pub open spec fn key_of(e: Event) -> Option<KeyEvent> {
    match e {
        Event::Key(k) => Some(k),
        _ => None,
    }
}

/// The key event that `e` carries, if it is a key press.
pub open spec fn key_press_of(e: Event) -> Option<KeyEvent> {
    match e {
        Event::Key(k) => if k.kind == KeyEventKind::Press { Some(k) } else { None },
        _ => None,
    }
}

/// The mouse event that `e` carries, if it is one.
pub open spec fn mouse_of(e: Event) -> Option<MouseEvent> {
    match e {
        Event::Mouse(m) => Some(m),
        _ => None,
    }
}

/// The new size that `e` carries, if it is a resize.
pub open spec fn resize_of(e: Event) -> Option<(u16, u16)> {
    match e {
        Event::Resize(columns, rows) => Some((columns, rows)),
        _ => None,
    }
}

impl Event {
    /// The key event, if this is one.
    pub fn as_key_event(&self) -> (r: Option<KeyEvent>)
        ensures
            r == key_of(*self),
            r is Some <==> *self is Key,
            forall|k: KeyEvent| *self == Event::Key(k) ==> r == Some(k),
    {
        match self {
            Event::Key(k) => Some(*k),
            _ => None,
        }
    }

    /// The key event, if this is a key press.
    pub fn as_key_press_event(&self) -> (r: Option<KeyEvent>)
        ensures
            r == key_press_of(*self),
            forall|k: KeyEvent| *self == Event::Key(k) && k.kind == KeyEventKind::Press ==> r == Some(k),
            r is Some ==> *self == Event::Key(r->0) && r->0.kind == KeyEventKind::Press,
    {
        match self {
            Event::Key(k) => match k.kind {
                KeyEventKind::Press => Some(*k),
                _ => None,
            },
            _ => None,
        }
    }

    /// The mouse event, if this is one.
    pub fn as_mouse_event(&self) -> (r: Option<MouseEvent>)
        ensures
            r == mouse_of(*self),
            r is Some <==> *self is Mouse,
            forall|m: MouseEvent| *self == Event::Mouse(m) ==> r == Some(m),
    {
        match self {
            Event::Mouse(m) => Some(*m),
            _ => None,
        }
    }

    /// The new size (columns, rows), if this is a resize.
    pub fn as_resize_event(&self) -> (r: Option<(u16, u16)>)
        ensures
            r == resize_of(*self),
            r is Some <==> *self is Resize,
            forall|c: u16, w: u16| *self == Event::Resize(c, w) ==> r == Some((c, w)),
    {
        match self {
            Event::Resize(columns, rows) => Some((*columns, *rows)),
            _ => None,
        }
    }
}

} // verus!
