use vstd::prelude::*;
use crate::events::{Event, WindowEvent, ElementState, VirtualKey, is_escape_press};

verus! {

/// What a state asks the application to do after handling an event or a frame.
#[derive(Clone, Copy, Debug, PartialEq, Eq, Structural)]
pub enum Transition {
    /// Keep running in the current state.
    Stay,
    /// Leave the application.
    Quit,
}

/// The transition that an event calls for: the application quits on a press
/// of Escape and stays on every other event.
pub open spec fn transition_for(e: Event) -> Transition {
    if is_escape_press(e) {
        Transition::Quit
    } else {
        Transition::Stay
    }
}

/// The single state of the demo: a camera that flies through a lit scene.
#[derive(Clone, Copy, Debug, PartialEq, Eq, Structural)]
pub struct ExampleState;

impl ExampleState {
    pub fn new() -> (r: ExampleState)
        ensures
            r == ExampleState,
    {
        ExampleState
    }

    /// Decides what the application does after `event`.
    pub fn handle_event(&mut self, event: &Event) -> (t: Transition)
        ensures
            t == transition_for(*event),
            *final(self) == *old(self),
    {
        match event {
            Event::WindowEvent(w) => match w {
                WindowEvent::KeyboardInput { virtual_keycode, state: ElementState::Pressed } => {
                    match virtual_keycode {
                        Some(VirtualKey::Escape) => Transition::Quit,
                        _ => Transition::Stay,
                    }
                },
                _ => Transition::Stay,
            },
            _ => Transition::Stay,
        }
    }

    /// Decides what the application does after a frame: it keeps running.
    pub fn update(&mut self) -> (t: Transition)
        ensures
            t == Transition::Stay,
            *final(self) == *old(self),
    {
        Transition::Stay
    }
}

} // verus!
