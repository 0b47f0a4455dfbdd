use vstd::prelude::*;
use std::rc::Rc;

verus! {

/// Named keys that widgets react to.
#[derive(Clone, Copy, Debug, PartialEq, Eq, Structural)]
pub enum Key {
    Enter,
    Home,
    End,
    Up,
    Down,
    Left,
    Right,
    PageUp,
    PageDown,
    Tab,
    Esc,
    Backspace,
}

/// An input event.
#[derive(Clone, Copy, Debug, PartialEq, Eq, Structural)]
pub enum Event {
    Key(Key),
    Char(char),
}

/// What a widget did with an event. A consumed event may hand back a
/// deferred callback for the dispatcher to run afterwards.
pub enum EventResult<C> {
    Ignored,
    Consumed(Option<Rc<C>>),
}

} // verus!
