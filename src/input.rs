//! Global input events, and the events that are forwarded to the UI layer.
use vstd::prelude::*;

verus! {

/// A global input event, with the pointer position already in whole pixels.
#[derive(Clone, Debug, PartialEq, Eq)]
pub enum InputEvent {
    /// The pointer moved to `(x, y)`.
    MouseMove { x: i32, y: i32 },
    /// A key was pressed; the text names the key.
    KeyPress(String),
    /// Any other event.
    Other,
}

/// An event emitted to the UI layer.
#[derive(Clone, Debug, PartialEq, Eq)]
pub enum UiEvent {
    /// Emitted as `mouse-move` with the position.
    MouseMove(i32, i32),
    /// Emitted as `key-press` with the key's name.
    KeyPress(String),
}

/// The name under which an event is emitted.
pub open spec fn event_name(e: UiEvent) -> Seq<char> {
    match e {
        UiEvent::MouseMove(..) => "mouse-move"@,
        UiEvent::KeyPress(..) => "key-press"@,
    }
}

impl UiEvent {
    /// The name under which this event is emitted.
    pub fn name(&self) -> (r: &'static str)
        ensures
            r@ == event_name(*self),
    {
        match self {
            UiEvent::MouseMove(..) => "mouse-move",
            UiEvent::KeyPress(..) => "key-press",
        }
    }
}

/// The event forwarded to the UI layer for an input event: every pointer
/// move and every key press is forwarded as it is, and nothing else.
pub fn forward(e: InputEvent) -> (r: Option<UiEvent>)
    ensures
        match e {
            InputEvent::MouseMove { x, y } => r == Some(UiEvent::MouseMove(x, y)),
            InputEvent::KeyPress(k) => r == Some(UiEvent::KeyPress(k)),
            InputEvent::Other => r is None,
        },
{
    match e {
        InputEvent::MouseMove { x, y } => Some(UiEvent::MouseMove(x, y)),
        InputEvent::KeyPress(k) => Some(UiEvent::KeyPress(k)),
        InputEvent::Other => None,
    }
}

} // verus!
