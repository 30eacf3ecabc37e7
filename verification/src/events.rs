//! The window events the core reacts to, and the event-dispatch
//! decision of the surrounding loop.
//!
//! The window system delivers events; the loop's only decisions are
//! which events terminate it and which resize the swapchain. Those
//! decisions live here as a pure function from event to directive; the
//! surrounding application applies the directive (exits the loop,
//! or performs the resize against the driver).

use vstd::prelude::*;

verus! {

/// Whether a key went down or up.
#[derive(Clone, Copy, Debug, PartialEq, Eq, Structural)]
pub enum ElementState {
    /// The key was pressed.
    Pressed,
    /// The key was released.
    Released,
}

/// The keys the dispatch distinguishes.
#[derive(Clone, Copy, Debug, PartialEq, Eq, Structural)]
pub enum KeyCode {
    /// The Escape key.
    Escape,
    /// Any other key.
    Other,
}

/// A window event, as the core sees it.
#[derive(Clone, Copy, Debug, PartialEq, Eq, Structural)]
pub enum WindowEvent {
    /// The user asked the window to close.
    CloseRequested,
    /// A keyboard event. `key` is the resolved keycode, if any.
    KeyboardInput {
        /// Press or release.
        state: ElementState,
        /// The resolved keycode, if the window system gave one.
        key: Option<KeyCode>,
    },
    /// The window was resized to the given physical size.
    Resized {
        /// New width in pixels.
        width: u32,
        /// New height in pixels.
        height: u32,
    },
    /// The display scale factor changed; the window's new physical
    /// size is given.
    ScaleFactorChanged {
        /// New width in pixels.
        width: u32,
        /// New height in pixels.
        height: u32,
    },
    /// Any event the core does not react to.
    Other,
}

/// What the event loop is to do after one event.
#[derive(Clone, Copy, Debug, PartialEq, Eq, Structural)]
pub enum LoopDirective {
    /// Keep running.
    Continue,
    /// Terminate on the next iteration.
    Exit,
    /// Resize the context to the given size, then keep running.
    Resize {
        /// New width in pixels.
        width: u32,
        /// New height in pixels.
        height: u32,
    },
}

/// The dispatch decision for one event: a close request or a pressed
/// Escape terminates the loop; a resize or scale-factor change resizes
/// to the reported size; everything else continues unchanged.
pub open spec fn spec_directive(event: WindowEvent) -> LoopDirective {
    match event {
        WindowEvent::CloseRequested => LoopDirective::Exit,
        WindowEvent::KeyboardInput { state, key } => {
            if state == ElementState::Pressed && key == Some(KeyCode::Escape) {
                LoopDirective::Exit
            } else {
                LoopDirective::Continue
            }
        },
        WindowEvent::Resized { width, height } => LoopDirective::Resize { width, height },
        WindowEvent::ScaleFactorChanged { width, height } => LoopDirective::Resize { width, height },
        WindowEvent::Other => LoopDirective::Continue,
    }
}

/// Decides what the loop does with one window event.
pub fn handle_window_event(event: &WindowEvent) -> (r: LoopDirective)
    ensures
        r == spec_directive(*event),
{
    match event {
        WindowEvent::CloseRequested => LoopDirective::Exit,
        WindowEvent::KeyboardInput { state, key } => {
            match (state, key) {
                (ElementState::Pressed, Some(KeyCode::Escape)) => LoopDirective::Exit,
                _ => LoopDirective::Continue,
            }
        },
        WindowEvent::Resized { width, height } => {
            LoopDirective::Resize { width: *width, height: *height }
        },
        WindowEvent::ScaleFactorChanged { width, height } => {
            LoopDirective::Resize { width: *width, height: *height }
        },
        WindowEvent::Other => LoopDirective::Continue,
    }
}

} // verus!
