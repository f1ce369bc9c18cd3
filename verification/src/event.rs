use vstd::prelude::*;

verus! {

/// A named, non-printable key.
#[derive(Clone, Copy, PartialEq, Eq, Structural, Debug)]
pub enum Key {
    Enter,
    Tab,
    Backspace,
    Esc,
    Left,
    Right,
    Up,
    Down,
    Ins,
    Del,
    Home,
    End,
    PageUp,
    PageDown,
    NumpadCenter,
    /// A function key, by its number.
    F(u8),
}

impl Key {
    /// The function key with the given number.
    pub fn from_f(n: u8) -> (r: Key)
        ensures
            r == Key::F(n),
    {
        Key::F(n)
    }
}

/// One input occurrence, as handed to the widget tree.
///
/// This vocabulary is closed: a raw code that matches nothing becomes
/// `Unknown` with the four little-endian bytes of the code, never an error.
#[derive(Clone, Copy, PartialEq, Eq, Structural, Debug)]
pub enum Event {
    /// Nothing arrived within the poll interval.
    Refresh,
    /// The terminal reported a new size.
    WindowResize,
    /// A printable character.
    Char(char),
    /// A control character, keyed by the ASCII letter it is combined with.
    CtrlChar(char),
    /// A named key, alone.
    Key(Key),
    /// A named key with Shift held.
    Shift(Key),
    /// A named key with Alt held.
    Alt(Key),
    /// A named key with Alt and Shift held.
    AltShift(Key),
    /// A named key with Ctrl held.
    Ctrl(Key),
    /// A named key with Ctrl and Shift held.
    CtrlShift(Key),
    /// A named key with Ctrl and Alt held.
    CtrlAlt(Key),
    /// An undecoded raw code, split into its four little-endian bytes.
    Unknown(u8, u8, u8, u8),
}

/// A deferred action a widget hands back when it consumes an event.
#[derive(Clone, Copy, PartialEq, Eq, Structural, Debug)]
pub enum Action {
    /// Close the owning layer.
    Dismiss,
    /// An application-defined command.
    Command(u64),
}

/// The outcome of handing one event to a widget.
#[derive(Clone, Copy, PartialEq, Eq, Structural, Debug)]
pub enum EventResult {
    /// The widget did nothing with the event.
    Ignored,
    /// The widget reacted, optionally asking for a deferred action.
    Consumed(Option<Action>),
}

/// Where focus comes from when a widget is asked to take it.
#[derive(Clone, Copy, PartialEq, Eq, Structural, Debug)]
pub enum Direction {
    Up,
    Down,
    Left,
    Right,
    /// Entering from the front of the tab order.
    Front,
    /// Entering from the back of the tab order.
    Back,
}

} // verus!
