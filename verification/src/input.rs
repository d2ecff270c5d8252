//! Input events as the demo reads them, and what it does about each.
//!
//! The framework's events carry more than the demo looks at (pointer
//! positions, button numbers, the full key set). The types here keep only
//! what decides the reaction; the application keeps the framework's event
//! for printing.

use vstd::prelude::*;

verus! {

/// Whether a key went down or came up.
#[derive(Clone, Copy, Debug, PartialEq, Eq, Structural)]
pub enum KeyState {
    Pressed,
    Released,
}

/// The keys the demo tells apart.
#[derive(Clone, Copy, Debug, PartialEq, Eq, Structural)]
pub enum Key {
    /// The platform's "back" key (Escape on a desktop keyboard).
    Back,
    /// A key the framework could not name.
    Unknown,
    /// Any key the framework knows, other than `Back`.
    Other,
}

/// A key together with its transition.
#[derive(Clone, Copy, Debug, PartialEq, Eq, Structural)]
pub struct KeyboardEvent {
    pub state: KeyState,
    pub key: Key,
}

/// One event of a frame's input batch.
#[derive(Clone, Copy, Debug, PartialEq, Eq, Structural)]
pub enum InputEvent {
    Cursor,
    Mouse,
    Touch,
    Keyboard(KeyboardEvent),
}

/// What the application is to do about one event.
#[derive(Clone, Copy, Debug, PartialEq, Eq, Structural)]
pub enum InputAction {
    /// Write the event to standard output.
    Print,
    /// Leave the application.
    Exit,
    /// Note in the debug log that a key is missing from the key list.
    ReportUnknownKey,
    /// Nothing.
    Ignore,
}

impl InputEvent {
    /// Cursor, mouse and touch events: the ones that are echoed.
    pub open spec fn is_pointer(self) -> bool {
        self is Cursor || self is Mouse || self is Touch
    }

    /// The event that ends the demo: the back key coming up.
    pub open spec fn is_back_released(self) -> bool {
        self == InputEvent::Keyboard(KeyboardEvent { state: KeyState::Released, key: Key::Back })
    }

    /// An unnamed key going down.
    pub open spec fn is_unknown_pressed(self) -> bool {
        self == InputEvent::Keyboard(KeyboardEvent { state: KeyState::Pressed, key: Key::Unknown })
    }

    /// The reaction to this event.
    pub open spec fn action(self) -> InputAction {
        if self.is_pointer() {
            InputAction::Print
        } else if self.is_back_released() {
            InputAction::Exit
        } else if self.is_unknown_pressed() {
            InputAction::ReportUnknownKey
        } else {
            InputAction::Ignore
        }
    }
}

/// Decides the reaction to one event.
pub fn action_for(event: InputEvent) -> (action: InputAction)
    ensures
        action == event.action(),
{
    match event {
        InputEvent::Cursor => InputAction::Print,
        InputEvent::Mouse => InputAction::Print,
        InputEvent::Touch => InputAction::Print,
        InputEvent::Keyboard(KeyboardEvent { state, key }) => match (state, key) {
            (KeyState::Released, Key::Back) => InputAction::Exit,
            (KeyState::Pressed, Key::Unknown) => InputAction::ReportUnknownKey,
            _ => InputAction::Ignore,
        },
    }
}

/// The reactions to a batch, one per event and in the batch's order.
pub open spec fn actions_of(events: Seq<InputEvent>) -> Seq<InputAction> {
    Seq::new(events.len(), |i: int| events[i].action())
}

} // verus!
