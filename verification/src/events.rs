//! The demo's event policy: what one pass of the platform's event loop does
//! in reaction to each event it may hand us.

use vstd::prelude::*;

verus! {

/// The keys the demo tells apart: Escape closes the window; `Other` stands
/// for any other key, or for an event that carried no key code.
#[derive(Clone, Copy, Debug, PartialEq, Eq, Structural)]
pub enum Key {
    Escape,
    Other,
}

/// Whether a key went down or came up.
#[derive(Clone, Copy, Debug, PartialEq, Eq, Structural)]
pub enum KeyState {
    Pressed,
    Released,
}

/// An event aimed at a window, reduced to the fields the demo reads.
#[derive(Clone, Copy, Debug, PartialEq, Eq, Structural)]
pub enum WindowEvent {
    CloseRequested,
    Keyboard { state: KeyState, key: Key },
    Resized { width: u32, height: u32 },
    Other,
}

/// One event from the platform loop. A window event carries whether it was
/// aimed at the demo's own window.
#[derive(Clone, Copy, Debug, PartialEq, Eq, Structural)]
pub enum Event {
    Window { ours: bool, event: WindowEvent },
    MainEventsCleared,
    RedrawRequested,
    Other,
}

/// What the loop body does in reaction to one event.
#[derive(Clone, Copy, Debug, PartialEq, Eq, Structural)]
pub enum Action {
    Exit,
    ResizeDrawable { width: u32, height: u32 },
    RequestRedraw,
    RedrawFrame,
    Nothing,
}

/// What the loop does once the body ran: poll for the next event, or stop.
#[derive(Clone, Copy, Debug, PartialEq, Eq, Structural)]
pub enum Flow {
    Poll,
    Exit,
}

/// The reaction to an event aimed at the demo's own window.
pub open spec fn window_action(e: WindowEvent) -> Action {
    match e {
        WindowEvent::CloseRequested => Action::Exit,
        WindowEvent::Keyboard { state, key } => if state is Pressed && key is Escape {
            Action::Exit
        } else {
            Action::Nothing
        },
        WindowEvent::Resized { width, height } => Action::ResizeDrawable { width, height },
        WindowEvent::Other => Action::Nothing,
    }
}

/// The reaction to one event of the loop.
pub open spec fn action_for(e: Event) -> Action {
    match e {
        Event::Window { ours, event } => if ours {
            window_action(event)
        } else {
            Action::Nothing
        },
        Event::MainEventsCleared => Action::RequestRedraw,
        Event::RedrawRequested => Action::RedrawFrame,
        Event::Other => Action::Nothing,
    }
}

/// How the loop goes on after an action.
pub open spec fn flow_after(a: Action) -> Flow {
    if a is Exit {
        Flow::Exit
    } else {
        Flow::Poll
    }
}

/// The demo's whole event policy: a close request, or Escape pressed, on its
/// own window ends the loop; a resize of its window adjusts the drawable;
/// a cleared main-events phase asks for a redraw; a redraw request draws one
/// frame; everything else (another window's events included) does nothing.
pub fn handle_event(e: &Event) -> (a: Action)
    ensures
        a == action_for(*e),
{
    match *e {
        Event::Window { ours, event } => {
            if ours {
                match event {
                    WindowEvent::CloseRequested => Action::Exit,
                    WindowEvent::Keyboard { state, key } => {
                        match (state, key) {
                            (KeyState::Pressed, Key::Escape) => Action::Exit,
                            _ => Action::Nothing,
                        }
                    },
                    WindowEvent::Resized { width, height } => {
                        Action::ResizeDrawable { width, height }
                    },
                    WindowEvent::Other => Action::Nothing,
                }
            } else {
                Action::Nothing
            }
        },
        Event::MainEventsCleared => Action::RequestRedraw,
        Event::RedrawRequested => Action::RedrawFrame,
        Event::Other => Action::Nothing,
    }
}

/// Each pass of the loop polls again, unless the event asked to exit.
pub fn flow_for(a: &Action) -> (f: Flow)
    ensures
        f == flow_after(*a),
{
    match *a {
        Action::Exit => Flow::Exit,
        _ => Flow::Poll,
    }
}

} // verus!
