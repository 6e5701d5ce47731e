//! The renderer's CPU-side decision state and its event dispatch.
//!
//! One owned aggregate holds everything the per-tick decisions read or
//! write: the surface/target state machine, the camera movement intents, the
//! drag-to-look mouse state and the live instance count. The windowing shell
//! converts its raw events into [`InputEvent`] values, hands them to
//! [`Renderer::handle_window_event`], and performs whatever the returned
//! directive asks (exit, or recreating the device-side surface and targets).

use crate::controller::{apply_key, recognized_key, CameraIntents, KeyCode};
use crate::targets::{apply_resize_requests, last_applied_size, SurfaceTargets};
use vstd::prelude::*;

verus! {

/// The mouse buttons the renderer distinguishes: drag-to-look is bound to
/// the left button alone.
#[derive(Clone, Copy, PartialEq, Eq, Structural, Debug)]
pub enum MouseButtonKind {
    Left,
    Other,
}

/// A window or device event, as the core consumes it. Mouse-look and scroll
/// deltas are floating-point quantities the shell keeps and integrates
/// itself; the core decides only whether and how each event is consumed.
#[derive(Clone, Copy, PartialEq, Eq, Structural, Debug)]
pub enum InputEvent {
    /// The window was resized, possibly to a degenerate (minimized) size.
    Resized { width: u32, height: u32 },
    /// A key changed state.
    Keyboard { key: KeyCode, pressed: bool },
    /// A mouse button changed state.
    MouseButton { button: MouseButtonKind, pressed: bool },
    /// The wheel moved; the shell holds the scroll delta.
    MouseWheel,
    /// The window was asked to close.
    CloseRequested,
}

/// What the shell must do after an event was dispatched.
#[derive(Clone, Copy, PartialEq, Eq, Structural, Debug)]
pub enum EventDirective {
    /// Nothing beyond what the core already recorded.
    NoAction,
    /// Leave the event loop and shut down.
    Exit,
    /// A resize was applied: reconfigure the device surface and recreate the
    /// color and depth targets at this size.
    RecreateTargets { width: u32, height: u32 },
}

/// The renderer's decision state: the configured surface and frame targets,
/// the camera movement intents, whether the look-drag button is held, and
/// how many instances the main draw covers.
#[derive(Clone, Copy, PartialEq, Eq, Structural, Debug)]
pub struct Renderer {
    pub targets: SurfaceTargets,
    pub intents: CameraIntents,
    /// True while the left mouse button is held; mouse motion turns the
    /// camera only then (drag-to-look).
    pub mouse_pressed: bool,
    /// How many instances the main mesh is drawn with; fixed after startup
    /// in this design, though the frame contract lets it vary.
    pub instance_count: u32,
}

impl Renderer {
    /// Everything the frame protocol assumes of the state between ticks.
    pub open spec fn wf(self) -> bool {
        &&& self.targets.wf()
        &&& self.targets.configured
    }

    /// A renderer over a freshly configured surface, with no intent active
    /// and the look-drag button up.
    pub fn new(targets: SurfaceTargets, instance_count: u32) -> (r: Renderer)
        requires
            targets.wf(),
            targets.configured,
        ensures
            r == (Renderer {
                targets,
                intents: CameraIntents {
                    forward: false,
                    backward: false,
                    left: false,
                    right: false,
                    up: false,
                    down: false,
                },
                mouse_pressed: false,
                instance_count,
            }),
            r.wf(),
    {
        Renderer { targets, intents: CameraIntents::new(), mouse_pressed: false, instance_count }
    }

    /// The input phase's per-event step: keyboard state goes to the camera
    /// controller, wheel events are always consumed (the shell then applies
    /// the scroll delta), and the left mouse button toggles drag-to-look.
    /// Returns whether the event was consumed; an unconsumed event falls
    /// through to the window-level handling.
    pub fn input(&mut self, event: InputEvent) -> (consumed: bool)
        ensures
            final(self).targets == old(self).targets,
            final(self).instance_count == old(self).instance_count,
            match event {
                InputEvent::Keyboard { key, pressed } => {
                    &&& consumed == recognized_key(key)
                    &&& final(self).intents == apply_key(old(self).intents, key, pressed)
                    &&& final(self).mouse_pressed == old(self).mouse_pressed
                },
                InputEvent::MouseWheel => consumed && *final(self) == *old(self),
                InputEvent::MouseButton { button, pressed } => {
                    &&& consumed == (button == MouseButtonKind::Left)
                    &&& final(self).intents == old(self).intents
                    &&& final(self).mouse_pressed == (if button == MouseButtonKind::Left {
                        pressed
                    } else {
                        old(self).mouse_pressed
                    })
                },
                InputEvent::Resized { .. } => !consumed && *final(self) == *old(self),
                InputEvent::CloseRequested => !consumed && *final(self) == *old(self),
            },
    {
        match event {
            InputEvent::Keyboard { key, pressed } => self.intents.process_keyboard(key, pressed),
            InputEvent::MouseWheel => true,
            InputEvent::MouseButton { button: MouseButtonKind::Left, pressed } => {
                self.mouse_pressed = pressed;
                true
            },
            _ => false,
        }
    }

    /// Dispatches one window event: the input phase sees it first; an event
    /// it does not consume is handled here — a close request or a pressed
    /// Escape exits, a non-degenerate resize reconfigures the surface state
    /// and asks the shell to recreate the device targets, and a degenerate
    /// resize is silently ignored with every prior resource kept.
    pub fn handle_window_event(&mut self, event: InputEvent) -> (directive: EventDirective)
        requires
            old(self).wf(),
        ensures
            final(self).wf(),
            final(self).instance_count == old(self).instance_count,
            final(self).targets == targets_after_event(old(self).targets, event),
            match event {
                InputEvent::Keyboard { key, pressed } => {
                    &&& final(self).intents == apply_key(old(self).intents, key, pressed)
                    &&& final(self).targets == old(self).targets
                    &&& final(self).mouse_pressed == old(self).mouse_pressed
                    &&& directive == (if key == KeyCode::Escape && pressed {
                        EventDirective::Exit
                    } else {
                        EventDirective::NoAction
                    })
                },
                InputEvent::CloseRequested => {
                    &&& *final(self) == *old(self)
                    &&& directive == EventDirective::Exit
                },
                InputEvent::Resized { width, height } => {
                    &&& final(self).targets == old(self).targets.resize_transition(width, height)
                    &&& final(self).intents == old(self).intents
                    &&& final(self).mouse_pressed == old(self).mouse_pressed
                    &&& directive == (if width > 0 && height > 0 {
                        EventDirective::RecreateTargets { width, height }
                    } else {
                        EventDirective::NoAction
                    })
                },
                InputEvent::MouseButton { button, pressed } => {
                    &&& final(self).intents == old(self).intents
                    &&& final(self).targets == old(self).targets
                    &&& final(self).mouse_pressed == (if button == MouseButtonKind::Left {
                        pressed
                    } else {
                        old(self).mouse_pressed
                    })
                    &&& directive == EventDirective::NoAction
                },
                InputEvent::MouseWheel => {
                    &&& *final(self) == *old(self)
                    &&& directive == EventDirective::NoAction
                },
            },
    {
        if self.input(event) {
            return EventDirective::NoAction;
        }
        match event {
            InputEvent::CloseRequested => EventDirective::Exit,
            InputEvent::Keyboard { key: KeyCode::Escape, pressed: true } => EventDirective::Exit,
            InputEvent::Resized { width, height } => {
                let applied = self.targets.request_resize(width, height);
                if applied {
                    EventDirective::RecreateTargets { width, height }
                } else {
                    EventDirective::NoAction
                }
            },
            _ => EventDirective::NoAction,
        }
    }
}

/// What one window event does to the surface/target state: only a resize
/// touches it, and a degenerate resize leaves it alone.
pub open spec fn targets_after_event(t: SurfaceTargets, event: InputEvent) -> SurfaceTargets {
    match event {
        InputEvent::Resized { width, height } => t.resize_transition(width, height),
        _ => t,
    }
}

/// The surface/target state after a whole window-event sequence, dispatched
/// in order.
pub open spec fn targets_after_events(t: SurfaceTargets, events: Seq<InputEvent>) -> SurfaceTargets
    decreases events.len(),
{
    if events.len() == 0 {
        t
    } else {
        targets_after_event(targets_after_events(t, events.drop_last()), events.last())
    }
}

/// The resize requests among a window-event sequence, in order.
pub open spec fn resize_requests(events: Seq<InputEvent>) -> Seq<(u32, u32)>
    decreases events.len(),
{
    if events.len() == 0 {
        Seq::empty()
    } else {
        resize_requests(events.drop_last()) + (match events.last() {
            InputEvent::Resized { width, height } => seq![(width, height)],
            _ => Seq::<(u32, u32)>::empty(),
        })
    }
}

/// Only the resize requests among a window-event sequence move the
/// surface/target state.
proof fn lemma_events_reduce_to_resizes(t: SurfaceTargets, events: Seq<InputEvent>)
    ensures
        targets_after_events(t, events) == apply_resize_requests(t, resize_requests(events)),
    decreases events.len(),
{
    if events.len() > 0 {
        lemma_events_reduce_to_resizes(t, events.drop_last());
        let prior = resize_requests(events.drop_last());
        match events.last() {
            InputEvent::Resized { width, height } => {
                assert((prior + seq![(width, height)]).drop_last() =~= prior);
            },
            _ => {
                assert(prior + Seq::<(u32, u32)>::empty() =~= prior);
            },
        }
    }
}

/// Law: however keyboard, mouse, wheel and close events interleave with
/// resizes, dispatching any window-event sequence to a configured renderer
/// leaves the surface and both frame targets well-formed, configured at the
/// most recently applied non-degenerate resize (the prior size when every
/// resize was degenerate), with the one sample count throughout.
pub proof fn lemma_event_sequence_targets(t: SurfaceTargets, events: Seq<InputEvent>)
    requires
        t.wf(),
        t.configured,
    ensures
        ({
            let u = targets_after_events(t, events);
            let size = last_applied_size((t.surface_width, t.surface_height), resize_requests(events));
            &&& u.wf()
            &&& u.configured
            &&& (u.surface_width, u.surface_height) == size
            &&& (u.color.width, u.color.height) == size
            &&& (u.depth.width, u.depth.height) == size
            &&& u.color.sample_count == t.sample_count
            &&& u.depth.sample_count == t.sample_count
        }),
{
    lemma_events_reduce_to_resizes(t, events);
    crate::targets::lemma_resize_sequence(t, resize_requests(events));
}

} // verus!
