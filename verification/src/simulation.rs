//! The simulation loop's per-tick decisions.
//!
//! The loop itself - controller call, model update, event sending, sleeping -
//! runs in the embedding application on its own thread. What the tick decides
//! from the controller's status is pure and stands here: whether to request
//! exit, whether visibility flipped and which way, and whether the updated
//! world is published to the channel.

use vstd::prelude::*;

use crate::Status;

verus! {

/// What the simulation thread tells the visual thread.
#[derive(Clone, Copy, PartialEq, Eq, Structural, Debug)]
pub enum SimulationEvent {
    RequestExit,
    RequestHide,
    RequestShow,
    SimulationPanic,
}

/// Everything one tick decides after the controller and the model update ran.
#[derive(Clone, Copy, PartialEq, Eq, Structural, Debug)]
pub struct TickEffects {
    /// Send [`SimulationEvent::RequestExit`]: the controller asked to quit.
    pub request_exit: bool,
    /// `Some(shown)` when visibility flipped: send
    /// [`SimulationEvent::RequestShow`] or [`SimulationEvent::RequestHide`].
    pub visibility_change: Option<bool>,
    /// Publish the updated world to the channel.
    pub publish: bool,
    /// The loop's visibility flag for the next tick.
    pub visible_after: bool,
}

/// Decides one tick: exit exactly on `should_quit`; a visibility event
/// exactly when `display_visual` differs from the loop's flag, carrying the
/// new value; the world published exactly when the loop ends the tick
/// visible.
pub fn tick_effects(status: Status, visible: bool) -> (r: TickEffects)
    ensures
        r.request_exit == status.should_quit,
        r.visibility_change == (if status.display_visual != visible {
            Some(status.display_visual)
        } else {
            None::<bool>
        }),
        r.visible_after == status.display_visual,
        r.publish == status.display_visual,
{
    let visibility_change = if status.display_visual != visible {
        Some(status.display_visual)
    } else {
        None
    };
    TickEffects {
        request_exit: status.should_quit,
        visibility_change,
        publish: status.display_visual,
        visible_after: status.display_visual,
    }
}

/// The event a visibility change sends: show on `true`, hide on `false`.
pub fn visibility_event(change: Option<bool>) -> (r: Option<SimulationEvent>)
    ensures
        r == (match change {
            Some(true) => Some(SimulationEvent::RequestShow),
            Some(false) => Some(SimulationEvent::RequestHide),
            None => None::<SimulationEvent>,
        }),
{
    match change {
        Some(true) => Some(SimulationEvent::RequestShow),
        Some(false) => Some(SimulationEvent::RequestHide),
        None => None,
    }
}

} // verus!
