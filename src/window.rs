//! What the frame loop keeps of the window: whether it still runs, and the
//! size that the window last reported.

use vstd::prelude::*;

verus! {

/// An event of the window that the frame loop acts on.
#[derive(Clone, Copy, Debug, PartialEq, Eq, Structural)]
pub enum WindowEvent {
    /// The window now has this size, in pixels.
    Resized { width: u32, height: u32 },
    /// The user asked to close the window.
    CloseRequested,
    /// Any other event, which the loop leaves alone.
    Other,
}

/// The state of the frame loop.
#[derive(Clone, Copy, Debug, PartialEq, Eq, Structural)]
pub struct WindowState {
    pub running: bool,
    pub width: u32,
    pub height: u32,
}

impl WindowState {
    /// A running loop over a window of the given size.
    pub fn new(width: u32, height: u32) -> (r: WindowState)
        ensures
            r == (WindowState { running: true, width, height }),
    {
        WindowState { running: true, width, height }
    }

    /// Takes in one event: a resize reports exactly its size, a close request
    /// stops the loop, and nothing else changes.
    pub fn handle(&mut self, ev: WindowEvent)
        ensures
            match ev {
                WindowEvent::Resized { width, height } =>
                    *final(self) == (WindowState { running: old(self).running, width, height }),
                WindowEvent::CloseRequested =>
                    *final(self) == (WindowState { running: false, ..*old(self) }),
                WindowEvent::Other => *final(self) == *old(self),
            },
    {
        match ev {
            WindowEvent::Resized { width, height } => {
                self.width = width;
                self.height = height;
            },
            WindowEvent::CloseRequested => {
                self.running = false;
            },
            WindowEvent::Other => {},
        }
    }
}

} // verus!
