use vstd::prelude::*;

verus! {

/// Whether a key went down or came up.
#[derive(Clone, Copy, Debug, PartialEq, Eq, Structural)]
pub enum ElementState {
    Pressed,
    Released,
}

/// The virtual key that a keyboard event names, as far as the demo reads it.
#[derive(Clone, Copy, Debug, PartialEq, Eq, Structural)]
pub enum VirtualKey {
    Escape,
    /// Any key the demo does not react to.
    Other,
}

/// A window event: a keyboard input, or anything else the window reports.
#[derive(Clone, Copy, Debug, PartialEq, Eq, Structural)]
pub enum WindowEvent {
    /// A key changed state; `virtual_keycode` is absent when the platform
    /// could not name the key.
    KeyboardInput { virtual_keycode: Option<VirtualKey>, state: ElementState },
    /// Resizing, focus, cursor motion and the other window events.
    Other,
}

/// An event handed to the running state.
#[derive(Clone, Copy, Debug, PartialEq, Eq, Structural)]
pub enum Event {
    WindowEvent(WindowEvent),
    /// Device events and the other events that do not come from the window.
    Other,
}

/// The event is a press of the Escape key in the window.
pub open spec fn is_escape_press(e: Event) -> bool {
    e == Event::WindowEvent(
        WindowEvent::KeyboardInput {
            virtual_keycode: Some(VirtualKey::Escape),
            state: ElementState::Pressed,
        },
    )
}

} // verus!
