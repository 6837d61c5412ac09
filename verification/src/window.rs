//! The open windows and how the application reacts to window events.

use std::collections::HashMap;
use vstd::prelude::*;
use crate::constants::{WINDOW_HEIGHT, WINDOW_WIDTH};

verus! {

/// The keys the application tells apart.
#[derive(Clone, Copy, Debug, PartialEq, Eq, Structural)]
pub enum Key {
    N,
    Other,
}

/// What the windowing system reports.
#[derive(Clone, Copy, Debug, PartialEq, Eq, Structural)]
pub enum WindowEvent {
    /// The user asked to close the window with this id.
    CloseRequested(u64),
    /// A key changed state.
    KeyboardInput { released: bool, key: Option<Key>, is_synthetic: bool },
    /// All pending events have been handed out.
    MainEventsCleared,
    /// The window with this id wants to be redrawn.
    RedrawRequested(u64),
    /// The event loop is about to end.
    LoopDestroyed,
    /// Anything else.
    Other,
}

/// Whether the event loop keeps waiting for events.
#[derive(Clone, Copy, Debug, PartialEq, Eq, Structural)]
pub enum ControlFlow {
    Wait,
    Exit,
}

/// What the application does in reaction to an event.
#[derive(Clone, Copy, Debug, PartialEq, Eq, Structural)]
pub enum WindowAction {
    /// Nothing.
    Nothing,
    /// Open a further window, titled "spawn".
    SpawnWindow,
    /// Ask every open window for a redraw.
    RequestRedraw,
    /// Draw a frame.
    Draw,
    /// Wait for the device to finish its work.
    WaitIdle,
}

/// The reaction to one event.
#[derive(Clone, Copy, Debug, PartialEq, Eq, Structural)]
pub struct EventResponse {
    pub control_flow: ControlFlow,
    pub action: WindowAction,
}

/// What a window is created with.
#[derive(Clone, Copy, Debug)]
pub struct WindowAttributes {
    pub title: &'static str,
    pub width: u32,
    pub height: u32,
}

/// The open windows: each id with what its window was created with.
pub struct VulkanWindow {
    windows: HashMap<u64, WindowAttributes>,
}

/// What a window called `name` is created with: the initial size.
pub open spec fn attributes_spec(name: &'static str) -> WindowAttributes {
    WindowAttributes { title: name, width: WINDOW_WIDTH, height: WINDOW_HEIGHT }
}

/// The open windows after `event`: a window that is closed is forgotten.
pub open spec fn windows_after(
    windows: Map<u64, WindowAttributes>,
    event: WindowEvent,
) -> Map<u64, WindowAttributes> {
    match event {
        WindowEvent::CloseRequested(id) => windows.remove(id),
        _ => windows,
    }
}

/// The reaction to `event` while `windows` are open. A window is spawned when
/// the key N is released by the user; the loop ends with the last window.
pub open spec fn response_spec(
    windows: Map<u64, WindowAttributes>,
    event: WindowEvent,
) -> EventResponse {
    match event {
        WindowEvent::CloseRequested(id) => EventResponse {
            control_flow: if windows.remove(id).is_empty() {
                ControlFlow::Exit
            } else {
                ControlFlow::Wait
            },
            action: WindowAction::Nothing,
        },
        WindowEvent::KeyboardInput { released, key, is_synthetic } => EventResponse {
            control_flow: ControlFlow::Wait,
            action: if released && key == Some(Key::N) && !is_synthetic {
                WindowAction::SpawnWindow
            } else {
                WindowAction::Nothing
            },
        },
        WindowEvent::MainEventsCleared => EventResponse {
            control_flow: ControlFlow::Wait,
            action: WindowAction::RequestRedraw,
        },
        WindowEvent::RedrawRequested(_) => EventResponse {
            control_flow: ControlFlow::Wait,
            action: WindowAction::Draw,
        },
        WindowEvent::LoopDestroyed => EventResponse {
            control_flow: ControlFlow::Wait,
            action: WindowAction::WaitIdle,
        },
        WindowEvent::Other => EventResponse {
            control_flow: ControlFlow::Wait,
            action: WindowAction::Nothing,
        },
    }
}

impl View for VulkanWindow {
    type V = Map<u64, WindowAttributes>;

    closed spec fn view(&self) -> Map<u64, WindowAttributes> {
        self.windows@
    }
}

impl VulkanWindow {
    /// The windows after the first window, titled "origin", was opened.
    pub fn init(first_window: u64) -> (opened: VulkanWindow)
        ensures
            opened@ == Map::<u64, WindowAttributes>::empty().insert(
                first_window,
                attributes_spec("origin"),
            ),
    {
        let mut windows: HashMap<u64, WindowAttributes> = HashMap::new();
        windows.insert(first_window, VulkanWindow::init_window("origin"));
        VulkanWindow { windows }
    }

    /// What a window called `name` is created with: the initial size.
    pub fn init_window(name: &'static str) -> (attributes: WindowAttributes)
        ensures
            attributes == attributes_spec(name),
    {
        WindowAttributes { title: name, width: WINDOW_WIDTH, height: WINDOW_HEIGHT }
    }

    /// Whether the window with this id is open.
    pub fn contains(&self, id: u64) -> (open: bool)
        ensures
            open == self@.contains_key(id),
    {
        self.windows.contains_key(&id)
    }

    /// The number of open windows.
    pub fn len(&self) -> (count: usize)
        ensures
            count == self@.len(),
            self@.dom().finite(),
    {
        self.windows.len()
    }

    /// Records the window that was spawned under this id, in place of any
    /// window recorded under it before, and says whether the id is new.
    pub fn insert(&mut self, id: u64) -> (inserted: bool)
        ensures
            inserted == !old(self)@.contains_key(id),
            final(self)@ == old(self)@.insert(id, attributes_spec("spawn")),
    {
        let replaced = self.windows.insert(id, VulkanWindow::init_window("spawn"));
        replaced.is_none()
    }

    /// Takes in one window event: forgets a window that is closed and answers
    /// with what to do and whether to go on.
    pub fn init_event_loop(&mut self, event: WindowEvent) -> (response: EventResponse)
        ensures
            final(self)@ == windows_after(old(self)@, event),
            response == response_spec(old(self)@, event),
    {
        match event {
            WindowEvent::CloseRequested(id) => {
                let _ = self.windows.remove(&id);
                let control_flow = if self.windows.is_empty() {
                    ControlFlow::Exit
                } else {
                    ControlFlow::Wait
                };
                EventResponse { control_flow, action: WindowAction::Nothing }
            },
            WindowEvent::KeyboardInput { released, key, is_synthetic } => {
                let is_n = match key {
                    Some(Key::N) => true,
                    _ => false,
                };
                let action = if released && is_n && !is_synthetic {
                    WindowAction::SpawnWindow
                } else {
                    WindowAction::Nothing
                };
                EventResponse { control_flow: ControlFlow::Wait, action }
            },
            WindowEvent::MainEventsCleared => EventResponse {
                control_flow: ControlFlow::Wait,
                action: WindowAction::RequestRedraw,
            },
            WindowEvent::RedrawRequested(_) => EventResponse {
                control_flow: ControlFlow::Wait,
                action: WindowAction::Draw,
            },
            WindowEvent::LoopDestroyed => EventResponse {
                control_flow: ControlFlow::Wait,
                action: WindowAction::WaitIdle,
            },
            WindowEvent::Other => EventResponse {
                control_flow: ControlFlow::Wait,
                action: WindowAction::Nothing,
            },
        }
    }
}

/// Closing a window leaves exactly the other windows open, each with what it
/// was created with.
pub proof fn lemma_close_forgets_only_that_window(
    windows: Map<u64, WindowAttributes>,
    id: u64,
    other: u64,
)
    ensures
        windows_after(windows, WindowEvent::CloseRequested(id)).contains_key(other) <==> (
        windows.contains_key(other) && other != id),
        other != id && windows.contains_key(other) ==> windows_after(
            windows,
            WindowEvent::CloseRequested(id),
        )[other] == windows[other],
{
}

/// The event loop ends exactly when the window that is closed was the only
/// one open, or none was.
pub proof fn lemma_loop_ends_with_the_last_window(windows: Map<u64, WindowAttributes>, id: u64)
    ensures
        response_spec(windows, WindowEvent::CloseRequested(id)).control_flow == ControlFlow::Exit
            <==> (forall|other: u64| windows.contains_key(other) ==> other == id),
{
    let remaining = windows.remove(id);
    if forall|other: u64| windows.contains_key(other) ==> other == id {
        assert(remaining.dom() =~= Set::<u64>::empty());
    } else {
        let other = choose|other: u64| windows.contains_key(other) && other != id;
        assert(remaining.dom().contains(other));
    }
}

} // verus!
