//! The world channel, the simulation tick decisions, the visual state
//! machine and the key-pair bookkeeping.

use agentbox::channel::WorldChannel;
use agentbox::simulation::{tick_effects, visibility_event, SimulationEvent};
use agentbox::visual::{
    capture_attempted, handle_event, Choice, FlowCmd, LoopEvent, VisualState, WindowInput,
};
use agentbox::Status;

#[derive(Clone, Copy, PartialEq, Eq, Debug)]
struct CounterWorld {
    ticks: u64,
}

#[test]
fn channel_publish_and_snapshot() {
    let mut c: WorldChannel<CounterWorld> = WorldChannel::new(CounterWorld { ticks: 0 });
    assert_eq!(c.version(), 0);
    // A reader that saw version 0 sees nothing new yet.
    assert!(c.snapshot(0).is_none());
    c.publish(CounterWorld { ticks: 1 });
    c.publish(CounterWorld { ticks: 2 });
    assert_eq!(c.version(), 2);
    // The reader gets the latest world, skipping version 1 entirely.
    let (v, w) = c.snapshot(0).expect("a new version is visible");
    assert_eq!(v, 2);
    assert_eq!(w.ticks, 2);
    // Two snapshots at one version return the same world.
    let (v2, w2) = c.snapshot(0).expect("still visible");
    assert_eq!(v2, v);
    assert_eq!(w2.ticks, w.ticks);
    // Having caught up, the reader sees nothing.
    assert!(c.snapshot(2).is_none());
}

#[test]
fn channel_version_is_monotone() {
    let mut c: WorldChannel<u32> = WorldChannel::new(0);
    let mut last = c.version();
    for i in 0..10 {
        c.publish(i);
        let v = c.version();
        assert!(v > last);
        last = v;
    }
}

#[test]
fn headless_quit() {
    // A controller that asks to quit on the first tick, headless.
    let mut status = Status::headless();
    status.should_quit = true;
    let effects = tick_effects(status, false);
    assert!(effects.request_exit);
    assert!(!effects.publish);
    assert!(effects.visibility_change.is_none());
    // The visual loop leaves as soon as the event arrives.
    let st = VisualState::initial(false, 0);
    let (_, eff) = handle_event(st, LoopEvent::User(SimulationEvent::RequestExit), 0);
    assert_eq!(eff.flow, FlowCmd::Exit);
}

#[test]
fn headless_thousand_ticks() {
    // A controller that counts ticks and quits after 1000, headless: no
    // publish ever happens and the exit request comes exactly once.
    let mut world = CounterWorld { ticks: 0 };
    let mut status = Status::headless();
    let mut visible = false;
    let mut channel: WorldChannel<CounterWorld> = WorldChannel::new(world);
    let mut exits = 0u32;
    for _ in 0..1000 {
        // Controller: count; quit at the thousandth tick.
        world.ticks += 1;
        if world.ticks == 1000 {
            status.should_quit = true;
        }
        let effects = tick_effects(status, visible);
        assert!(!effects.publish);
        assert!(effects.visibility_change.is_none());
        assert!(visibility_event(effects.visibility_change).is_none());
        if effects.request_exit {
            exits += 1;
        }
        if effects.publish {
            channel.publish(world);
        }
        visible = effects.visible_after;
    }
    assert_eq!(world.ticks, 1000);
    assert_eq!(exits, 1);
    // Nothing was ever published, so no rendering could have occurred.
    assert_eq!(channel.version(), 0);
}

#[test]
fn visibility_toggling_sends_show_and_hide() {
    let mut status = Status::visual();
    let e1 = tick_effects(status, false);
    assert_eq!(e1.visibility_change, Some(true));
    assert_eq!(visibility_event(e1.visibility_change), Some(SimulationEvent::RequestShow));
    assert!(e1.publish);
    // Visible and staying visible: no event, keep publishing.
    let e2 = tick_effects(status, e1.visible_after);
    assert_eq!(e2.visibility_change, None);
    assert!(e2.publish);
    // Hiding again.
    status.display_visual = false;
    let e3 = tick_effects(status, e2.visible_after);
    assert_eq!(e3.visibility_change, Some(false));
    assert_eq!(visibility_event(e3.visibility_change), Some(SimulationEvent::RequestHide));
    assert!(!e3.publish);
}

#[test]
fn redraw_uploads_only_on_new_version() {
    let st = VisualState::initial(true, 3);
    // Same version: render without re-uploading.
    let (st1, eff1) = handle_event(st, LoopEvent::RedrawRequested, 3);
    assert!(!eff1.upload_world);
    assert!(eff1.render);
    assert_eq!(st1.last_version, 3);
    // New version: upload, render, remember the version.
    let (st2, eff2) = handle_event(st1, LoopEvent::RedrawRequested, 7);
    assert!(eff2.upload_world);
    assert!(eff2.render);
    assert_eq!(st2.last_version, 7);
}

#[test]
fn frame_pacing_follows_visibility() {
    let shown = VisualState::initial(true, 0);
    let (_, eff) = handle_event(shown, LoopEvent::MainEventsCleared, 0);
    assert!(eff.advance_camera_and_redraw);
    assert_eq!(eff.flow, FlowCmd::WaitUntilNextFrame);
    let hidden = VisualState::initial(false, 0);
    let (_, eff2) = handle_event(hidden, LoopEvent::MainEventsCleared, 0);
    assert!(!eff2.advance_camera_and_redraw);
    assert_eq!(eff2.flow, FlowCmd::WaitForEvent);
}

#[test]
fn hide_and_show_events_drive_the_window() {
    let st = VisualState::initial(true, 0);
    let (st1, eff1) = handle_event(st, LoopEvent::User(SimulationEvent::RequestHide), 0);
    assert!(!st1.visible);
    assert!(eff1.stop_capture);
    assert_eq!(eff1.set_window_visible, Some(false));
    assert_eq!(eff1.flow, FlowCmd::WaitForEvent);
    let (st2, eff2) = handle_event(st1, LoopEvent::User(SimulationEvent::RequestShow), 0);
    assert!(st2.visible);
    assert_eq!(eff2.set_window_visible, Some(true));
    assert_eq!(eff2.flow, FlowCmd::WaitUntilNextFrame);
}

#[test]
fn simulation_panic_exits_like_a_close() {
    let st = VisualState::initial(true, 0);
    let (_, eff) = handle_event(st, LoopEvent::User(SimulationEvent::SimulationPanic), 0);
    assert_eq!(eff.flow, FlowCmd::Exit);
    let (_, eff2) = handle_event(st, LoopEvent::Window(WindowInput::CloseRequested), 0);
    assert_eq!(eff2.flow, FlowCmd::Exit);
}

#[test]
fn modifiers_steer_capture_and_slow_mode() {
    let st = VisualState::initial(true, 0);
    // Alt releases the mouse.
    let (st1, eff1) = handle_event(
        st,
        LoopEvent::Window(WindowInput::ModifiersChanged { alt: true, logo: false, ctrl: false }),
        0,
    );
    assert!(eff1.stop_capture);
    assert!(!st1.capture_mouse);
    // Plain modifiers ask for a capture; the window's answer lands in the state.
    let (st2, eff2) = handle_event(
        st1,
        LoopEvent::Window(WindowInput::ModifiersChanged { alt: false, logo: false, ctrl: true }),
        0,
    );
    assert!(eff2.begin_capture);
    assert!(st2.slow_mode);
    let st3 = capture_attempted(st2, true);
    assert!(st3.capture_mouse);
    // Captured motion is forwarded; uncaptured motion is not.
    let (_, eff3) = handle_event(st3, LoopEvent::Window(WindowInput::CursorMoved), 0);
    assert!(eff3.forward_mouse);
    let st4 = capture_attempted(st3, false);
    let (_, eff4) = handle_event(st4, LoopEvent::Window(WindowInput::CursorMoved), 0);
    assert!(!eff4.forward_mouse);
}

#[test]
fn focus_changes_drive_capture() {
    let st = VisualState::initial(true, 0);
    let (_, eff) = handle_event(st, LoopEvent::Window(WindowInput::Focused(true)), 0);
    assert!(eff.begin_capture);
    let captured = capture_attempted(st, true);
    let (st2, eff2) = handle_event(captured, LoopEvent::Window(WindowInput::Focused(false)), 0);
    assert!(eff2.stop_capture);
    assert!(!st2.capture_mouse);
}

#[test]
fn keyboard_input_reaches_the_camera() {
    let st = VisualState::initial(true, 0);
    let (_, eff) = handle_event(st, LoopEvent::Window(WindowInput::KeyboardInput), 0);
    assert!(eff.forward_key);
    let (_, eff2) = handle_event(st, LoopEvent::Window(WindowInput::Resized), 0);
    assert!(eff2.resize_surface);
}

#[test]
fn choice_tracks_opposing_keys() {
    let mut c = Choice::Neither;
    assert_eq!(f32::from_bits(c.float_bits()), 0.0);
    c.go(true);
    assert_eq!(c, Choice::Go);
    assert_eq!(f32::from_bits(c.float_bits()), 1.0);
    c.reverse(true);
    assert_eq!(c, Choice::Both);
    assert_eq!(f32::from_bits(c.float_bits()), 0.0);
    c.go(false);
    assert_eq!(c, Choice::Reverse);
    assert_eq!(f32::from_bits(c.float_bits()), -1.0);
    c.reverse(false);
    assert_eq!(c, Choice::Neither);
}
