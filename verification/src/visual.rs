//! The visual loop's decision logic.
//!
//! The embedding application owns the window, the event loop and the GPU; on
//! every event it asks [`handle_event`] what to do. The answer - camera
//! advance, redraw, world re-upload, mouse capture, visibility, scheduling -
//! is a pure function of the loop's small state and the event, defined by
//! [`spec_handle_event`] and computed by [`handle_event`], which is proved to
//! agree with it exactly.

use vstd::prelude::*;

use crate::fbits::ONE_BITS;
use crate::simulation::SimulationEvent;

verus! {

/// The window events the loop reacts to, stripped to what the decisions
/// depend on; payloads such as sizes and cursor positions stay with the
/// application, which pairs them back up with the returned actions.
#[derive(Clone, Copy, PartialEq, Eq, Structural, Debug)]
pub enum WindowInput {
    CloseRequested,
    Resized,
    ModifiersChanged { alt: bool, logo: bool, ctrl: bool },
    KeyboardInput,
    CursorMoved,
    Focused(bool),
    Other,
}

/// One iteration's input: an event-loop wakeup.
#[derive(Clone, Copy, PartialEq, Eq, Structural, Debug)]
pub enum LoopEvent {
    /// All pending native events were handled; time to advance and redraw.
    MainEventsCleared,
    /// The window asked to be redrawn.
    RedrawRequested,
    /// A native window event.
    Window(WindowInput),
    /// An event the simulation thread sent.
    User(SimulationEvent),
    /// Anything else; ignored.
    Other,
}

/// What the loop remembers between events.
#[derive(Clone, Copy, PartialEq, Eq, Structural, Debug)]
pub struct VisualState {
    /// The window is shown and frames are being paced.
    pub visible: bool,
    /// The cursor is confined, hidden and recentered for relative input.
    pub capture_mouse: bool,
    /// Ctrl is held: the camera moves at the slow speed.
    pub slow_mode: bool,
    /// The channel version whose world was last uploaded.
    pub last_version: u64,
}

impl VisualState {
    /// The state the loop starts in: nothing captured, no slow mode, the
    /// given initial visibility, and the given already-consumed version.
    pub fn initial(visible: bool, last_version: u64) -> (r: VisualState)
        ensures
            r == (VisualState { visible, capture_mouse: false, slow_mode: false, last_version }),
    {
        VisualState { visible, capture_mouse: false, slow_mode: false, last_version }
    }
}

/// How the loop waits for its next event.
#[derive(Clone, Copy, PartialEq, Eq, Structural, Debug)]
pub enum FlowCmd {
    /// Wait until the next frame deadline: up to 60 frames a second.
    WaitUntilNextFrame,
    /// Sleep until any event arrives.
    WaitForEvent,
    /// Leave the event loop; the process ends.
    Exit,
}

/// Everything the application is asked to carry out for one event.
#[derive(Clone, Copy, PartialEq, Eq, Structural, Debug)]
pub struct VisualEffects {
    /// Advance the camera by the elapsed time (scaled down in slow mode) and
    /// ask the window for a redraw.
    pub advance_camera_and_redraw: bool,
    /// Pull the newest world from the channel and rebuild solids, tree and
    /// GPU buffers before rendering.
    pub upload_world: bool,
    /// Render a frame with the camera's current matrix.
    pub render: bool,
    /// Reconfigure the surface to the new window size.
    pub resize_surface: bool,
    /// Try to confine, hide and recenter the cursor; report the outcome back
    /// through [`capture_attempted`].
    pub begin_capture: bool,
    /// Release the cursor and show it again.
    pub stop_capture: bool,
    /// Hand the key event to the camera.
    pub forward_key: bool,
    /// Recenter the cursor and, if that succeeds, hand the motion to the
    /// camera.
    pub forward_mouse: bool,
    /// Show or hide the window.
    pub set_window_visible: Option<bool>,
    /// How to wait next.
    pub flow: FlowCmd,
}

/// No actions, with the scheduling the state asks for: frame pacing while
/// visible, event sleep while hidden.
pub open spec fn idle_effects(visible: bool) -> VisualEffects {
    VisualEffects {
        advance_camera_and_redraw: false,
        upload_world: false,
        render: false,
        resize_surface: false,
        begin_capture: false,
        stop_capture: false,
        forward_key: false,
        forward_mouse: false,
        set_window_visible: None,
        flow: if visible {
            FlowCmd::WaitUntilNextFrame
        } else {
            FlowCmd::WaitForEvent
        },
    }
}

/// The transition table: the next state and the actions for one event.
/// `newest_version` is the channel's version counter as the application read
/// it when the event arrived.
pub open spec fn spec_handle_event(
    state: VisualState,
    event: LoopEvent,
    newest_version: u64,
) -> (VisualState, VisualEffects) {
    let idle = idle_effects(state.visible);
    match event {
        LoopEvent::MainEventsCleared => (
            state,
            VisualEffects { advance_camera_and_redraw: state.visible, ..idle },
        ),
        LoopEvent::RedrawRequested => (
            VisualState { last_version: newest_version, ..state },
            VisualEffects {
                upload_world: newest_version != state.last_version,
                render: true,
                ..idle
            },
        ),
        LoopEvent::Window(w) => match w {
            WindowInput::CloseRequested => (state, VisualEffects { flow: FlowCmd::Exit, ..idle }),
            WindowInput::Resized => (state, VisualEffects { resize_surface: true, ..idle }),
            WindowInput::ModifiersChanged { alt, logo, ctrl } => {
                if alt || logo {
                    (
                        VisualState { capture_mouse: false, slow_mode: ctrl, ..state },
                        VisualEffects { stop_capture: true, ..idle },
                    )
                } else {
                    // The capture outcome arrives through `capture_attempted`.
                    (
                        VisualState { slow_mode: ctrl, ..state },
                        VisualEffects { begin_capture: true, ..idle },
                    )
                }
            },
            WindowInput::KeyboardInput => (state, VisualEffects { forward_key: true, ..idle }),
            WindowInput::CursorMoved => (
                state,
                VisualEffects { forward_mouse: state.capture_mouse, ..idle },
            ),
            WindowInput::Focused(true) => (state, VisualEffects { begin_capture: true, ..idle }),
            WindowInput::Focused(false) => (
                VisualState { capture_mouse: false, ..state },
                VisualEffects { stop_capture: true, ..idle },
            ),
            WindowInput::Other => (state, idle),
        },
        LoopEvent::User(u) => match u {
            SimulationEvent::RequestExit => (state, VisualEffects { flow: FlowCmd::Exit, ..idle }),
            SimulationEvent::SimulationPanic => (
                state,
                VisualEffects { flow: FlowCmd::Exit, ..idle },
            ),
            SimulationEvent::RequestHide => (
                VisualState { visible: false, ..state },
                VisualEffects {
                    stop_capture: true,
                    set_window_visible: Some(false),
                    flow: FlowCmd::WaitForEvent,
                    ..idle
                },
            ),
            SimulationEvent::RequestShow => (
                VisualState { visible: true, ..state },
                VisualEffects {
                    set_window_visible: Some(true),
                    flow: FlowCmd::WaitUntilNextFrame,
                    ..idle
                },
            ),
        },
        LoopEvent::Other => (state, idle),
    }
}

/// Computes [`spec_handle_event`].
pub fn handle_event(state: VisualState, event: LoopEvent, newest_version: u64) -> (r: (
    VisualState,
    VisualEffects,
))
    ensures
        r == spec_handle_event(state, event, newest_version),
{
    let idle = VisualEffects {
        advance_camera_and_redraw: false,
        upload_world: false,
        render: false,
        resize_surface: false,
        begin_capture: false,
        stop_capture: false,
        forward_key: false,
        forward_mouse: false,
        set_window_visible: None,
        flow: if state.visible {
            FlowCmd::WaitUntilNextFrame
        } else {
            FlowCmd::WaitForEvent
        },
    };
    match event {
        LoopEvent::MainEventsCleared => (
            state,
            VisualEffects { advance_camera_and_redraw: state.visible, ..idle },
        ),
        LoopEvent::RedrawRequested => (
            VisualState { last_version: newest_version, ..state },
            VisualEffects {
                upload_world: newest_version != state.last_version,
                render: true,
                ..idle
            },
        ),
        LoopEvent::Window(w) => match w {
            WindowInput::CloseRequested => (state, VisualEffects { flow: FlowCmd::Exit, ..idle }),
            WindowInput::Resized => (state, VisualEffects { resize_surface: true, ..idle }),
            WindowInput::ModifiersChanged { alt, logo, ctrl } => {
                if alt || logo {
                    (
                        VisualState { capture_mouse: false, slow_mode: ctrl, ..state },
                        VisualEffects { stop_capture: true, ..idle },
                    )
                } else {
                    (
                        VisualState { slow_mode: ctrl, ..state },
                        VisualEffects { begin_capture: true, ..idle },
                    )
                }
            },
            WindowInput::KeyboardInput => (state, VisualEffects { forward_key: true, ..idle }),
            WindowInput::CursorMoved => (
                state,
                VisualEffects { forward_mouse: state.capture_mouse, ..idle },
            ),
            WindowInput::Focused(true) => (state, VisualEffects { begin_capture: true, ..idle }),
            WindowInput::Focused(false) => (
                VisualState { capture_mouse: false, ..state },
                VisualEffects { stop_capture: true, ..idle },
            ),
            WindowInput::Other => (state, idle),
        },
        LoopEvent::User(u) => match u {
            SimulationEvent::RequestExit => (state, VisualEffects { flow: FlowCmd::Exit, ..idle }),
            SimulationEvent::SimulationPanic => (
                state,
                VisualEffects { flow: FlowCmd::Exit, ..idle },
            ),
            SimulationEvent::RequestHide => (
                VisualState { visible: false, ..state },
                VisualEffects {
                    stop_capture: true,
                    set_window_visible: Some(false),
                    flow: FlowCmd::WaitForEvent,
                    ..idle
                },
            ),
            SimulationEvent::RequestShow => (
                VisualState { visible: true, ..state },
                VisualEffects {
                    set_window_visible: Some(true),
                    flow: FlowCmd::WaitUntilNextFrame,
                    ..idle
                },
            ),
        },
        LoopEvent::Other => (state, idle),
    }
}

/// Records the outcome of a requested mouse capture: the cursor is captured
/// exactly when the window accepted the grab.
pub fn capture_attempted(state: VisualState, ok: bool) -> (r: VisualState)
    ensures
        r == (VisualState { capture_mouse: ok, ..state }),
{
    VisualState { capture_mouse: ok, ..state }
}

/// Often two keys are opposites. If neither or both are pressed nothing
/// happens, but if one is pressed we go, say, either forwards or backwards.
/// [`Choice`] reduces the boilerplate necessary in such a situation.
#[derive(Clone, Copy, PartialEq, Eq, Structural, Debug)]
pub enum Choice {
    Neither,
    Go,
    Reverse,
    Both,
}

/// The movement factor a choice denotes: -1.0 for `Reverse`, 1.0 for `Go`,
/// 0.0 otherwise, as bit patterns.
pub open spec fn choice_factor(c: Choice) -> u32 {
    match c {
        Choice::Reverse => crate::fbits::neg_of(ONE_BITS),
        Choice::Neither => 0u32,
        Choice::Both => 0u32,
        Choice::Go => ONE_BITS,
    }
}

/// The choice after the forward key changed: pressed joins `Go`, released
/// leaves it.
pub open spec fn spec_go(c: Choice, take: bool) -> Choice {
    match c {
        Choice::Neither | Choice::Go => if take {
            Choice::Go
        } else {
            Choice::Neither
        },
        Choice::Reverse | Choice::Both => if take {
            Choice::Both
        } else {
            Choice::Reverse
        },
    }
}

/// The choice after the reverse key changed: pressed joins `Reverse`,
/// released leaves it.
pub open spec fn spec_reverse(c: Choice, take: bool) -> Choice {
    match c {
        Choice::Neither | Choice::Reverse => if take {
            Choice::Reverse
        } else {
            Choice::Neither
        },
        Choice::Go | Choice::Both => if take {
            Choice::Both
        } else {
            Choice::Go
        },
    }
}

impl Choice {
    /// The movement factor as a binary32 bit pattern.
    pub fn float_bits(self) -> (r: u32)
        ensures
            r == choice_factor(self),
    {
        match self {
            Choice::Reverse => crate::fbits::negate_bits(ONE_BITS),
            Choice::Neither => 0,
            Choice::Both => 0,
            Choice::Go => ONE_BITS,
        }
    }

    /// Records whether the forward key is down.
    pub fn go(&mut self, take: bool)
        ensures
            *final(self) == spec_go(*old(self), take),
    {
        *self = match *self {
            Choice::Neither | Choice::Go => if take {
                Choice::Go
            } else {
                Choice::Neither
            },
            Choice::Reverse | Choice::Both => if take {
                Choice::Both
            } else {
                Choice::Reverse
            },
        };
    }

    /// Records whether the reverse key is down.
    pub fn reverse(&mut self, take: bool)
        ensures
            *final(self) == spec_reverse(*old(self), take),
    {
        *self = match *self {
            Choice::Neither | Choice::Reverse => if take {
                Choice::Reverse
            } else {
                Choice::Neither
            },
            Choice::Go | Choice::Both => if take {
                Choice::Both
            } else {
                Choice::Go
            },
        };
    }
}

} // verus!
