//! The decision table of the main loop: which action the loop takes for each
//! window or loop event. The windowing library owns the loop itself; it hands
//! an event in and performs the action handed back.

use vstd::prelude::*;

verus! {

/// Whether a key was pressed or released.
#[derive(Clone, Copy, Debug, PartialEq, Eq, Structural)]
pub enum KeyState {
    Pressed,
    Released,
}

/// The keys the loop distinguishes: escape ends the program, every other key
/// is ignored.
#[derive(Clone, Copy, Debug, PartialEq, Eq, Structural)]
pub enum Key {
    Escape,
    Other,
}

/// An event delivered to a single window.
#[derive(Clone, Copy, Debug, PartialEq, Eq, Structural)]
pub enum WindowEvent {
    /// The user asked to close the window.
    CloseRequested,
    /// A key changed state; `key` is `None` when the key has no known symbol.
    KeyboardInput { state: KeyState, key: Option<Key> },
    /// The window was resized to the given physical size.
    Resized { width: u32, height: u32 },
    /// The scale factor changed; the new physical size comes with it.
    ScaleFactorChanged { width: u32, height: u32 },
    /// Any other window event.
    Other,
}

/// An event delivered by the event loop. `own_window` says whether the event
/// targets the window this program opened; events of other windows are
/// ignored.
#[derive(Clone, Copy, Debug, PartialEq, Eq, Structural)]
pub enum LoopEvent {
    Window { own_window: bool, event: WindowEvent },
    RedrawRequested { own_window: bool },
    MainEventsCleared,
    Other,
}

/// What the loop does in response to an event.
#[derive(Clone, Copy, Debug, PartialEq, Eq, Structural)]
pub enum Action {
    /// Leave the event loop and end the program.
    Exit,
    /// Render one frame to the surface.
    Render,
    /// Ask the windowing library to schedule a redraw.
    RequestRedraw,
    /// Do nothing.
    Ignore,
}

/// Whether a window event asks the program to end: a close request, or the
/// escape key going down.
pub open spec fn requests_exit(e: WindowEvent) -> bool {
    ||| e is CloseRequested
    ||| e matches WindowEvent::KeyboardInput { state, key }
        && state == KeyState::Pressed && key == Some(Key::Escape)
}

/// The action taken for each loop event: exit on a close request or on
/// escape pressed in the program's own window, render when the own window
/// asks for a redraw, schedule a redraw once the queue of events is empty,
/// and ignore everything else (resizes and scale changes included).
pub open spec fn action_for(e: LoopEvent) -> Action {
    match e {
        LoopEvent::Window { own_window, event } => {
            if own_window && requests_exit(event) {
                Action::Exit
            } else {
                Action::Ignore
            }
        }
        LoopEvent::RedrawRequested { own_window } => {
            if own_window {
                Action::Render
            } else {
                Action::Ignore
            }
        }
        LoopEvent::MainEventsCleared => Action::RequestRedraw,
        LoopEvent::Other => Action::Ignore,
    }
}

/// Decide what the loop does with one event.
pub fn dispatch(e: &LoopEvent) -> (r: Action)
    ensures
        r == action_for(*e),
{
    match e {
        LoopEvent::Window { own_window, event } => {
            if !own_window {
                return Action::Ignore;
            }
            match event {
                WindowEvent::CloseRequested => Action::Exit,
                WindowEvent::KeyboardInput { state, key } => {
                    if *state == KeyState::Pressed && *key == Some(Key::Escape) {
                        Action::Exit
                    } else {
                        Action::Ignore
                    }
                }
                _ => Action::Ignore,
            }
        }
        LoopEvent::RedrawRequested { own_window } => {
            if *own_window {
                Action::Render
            } else {
                Action::Ignore
            }
        }
        LoopEvent::MainEventsCleared => Action::RequestRedraw,
        LoopEvent::Other => Action::Ignore,
    }
}

} // verus!
