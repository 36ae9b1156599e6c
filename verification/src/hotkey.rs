//! The global-hotkey decision: which keyboard events make the shell tell
//! the UI to toggle picture-in-picture mode. The listener thread in the
//! surrounding binary translates each OS input event into an
//! [`InputEvent`] and emits the returned payload, if any, as a
//! `toggle-pip` event.

use vstd::prelude::*;

verus! {

/// A key as far as this shell cares: the toggle key or any other.
#[derive(Clone, Copy, Debug, PartialEq, Eq, Structural)]
pub enum Key {
    KeyM,
    Other,
}

/// An OS input event, reduced to what the hotkey decision reads.
#[derive(Clone, Copy, Debug, PartialEq, Eq, Structural)]
pub enum InputEvent {
    KeyPress(Key),
    KeyRelease(Key),
    Pointer,
}

/// The payload of the `toggle-pip` event sent to the UI.
#[derive(Clone, Copy, Debug, PartialEq, Eq, Structural)]
pub struct TogglePipEvent {
    pub toggle: bool,
}

/// Exactly one toggle event per press of the toggle key; nothing for any
/// other event.
pub open spec fn spec_hotkey_response(e: InputEvent) -> Option<TogglePipEvent> {
    match e {
        InputEvent::KeyPress(Key::KeyM) => Some(TogglePipEvent { toggle: true }),
        _ => None,
    }
}

pub fn hotkey_response(event: &InputEvent) -> (r: Option<TogglePipEvent>)
    ensures
        r == spec_hotkey_response(*event),
{
    match event {
        InputEvent::KeyPress(Key::KeyM) => Some(TogglePipEvent { toggle: true }),
        _ => None,
    }
}

/// A press of the toggle key yields exactly one toggle event, and it
/// carries `toggle: true`; every other event — any release included —
/// yields none.
pub proof fn lemma_toggle_only_on_press(e: InputEvent)
    ensures
        e == InputEvent::KeyPress(Key::KeyM) ==> spec_hotkey_response(e) == Some(
            TogglePipEvent { toggle: true },
        ),
        e != InputEvent::KeyPress(Key::KeyM) ==> spec_hotkey_response(e) is None,
        e is KeyRelease ==> spec_hotkey_response(e) is None,
{
}

} // verus!
