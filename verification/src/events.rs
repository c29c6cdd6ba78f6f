use vstd::prelude::*;

use crate::input::{after_key, Direction, Key};
use crate::orbit::{orbit_direction, OrbitController};
use crate::surface::{resized, SurfaceModel, SurfaceState};

verus! {

/// A window event, as far as the scene reads it.
#[derive(Clone, Copy, Debug, PartialEq, Eq, Structural)]
pub enum WindowInput {
    /// The user asked to close the window.
    CloseRequested,
    /// The window has a new inner size.
    Resized { width: u32, height: u32 },
    /// The window asks to be drawn.
    RedrawRequested,
    /// A key with a known code was pressed or released.
    Keyboard { key: Key, pressed: bool },
    /// Anything else.
    Other,
}

/// What the event loop does after the scene has taken an event.
#[derive(Clone, Copy, Debug, PartialEq, Eq, Structural)]
pub enum EventAction {
    /// Nothing more.
    Nothing,
    /// Leave the event loop.
    Exit,
    /// Configure the surface again at its new size and make the depth
    /// texture again.
    Reconfigure,
    /// Update the camera and draw a frame; leave the loop if drawing fails.
    Redraw,
}

/// Whether an event is a press of the escape key.
pub open spec fn is_escape_press(input: WindowInput) -> bool {
    input matches WindowInput::Keyboard { key, pressed } && key == Key::Escape && pressed
}

/// What the loop does after an event: closing the window or pressing
/// escape exits, a resize to a size with no zero side reconfigures, a
/// redraw request draws, and nothing else asks for anything.
pub open spec fn event_action(input: WindowInput) -> EventAction {
    match input {
        WindowInput::CloseRequested => EventAction::Exit,
        WindowInput::Resized { width, height } => if width > 0 && height > 0 {
            EventAction::Reconfigure
        } else {
            EventAction::Nothing
        },
        WindowInput::RedrawRequested => EventAction::Redraw,
        WindowInput::Keyboard { key, pressed } => if key == Key::Escape && pressed {
            EventAction::Exit
        } else {
            EventAction::Nothing
        },
        WindowInput::Other => EventAction::Nothing,
    }
}

/// The surface after an event: only a resize changes it.
pub open spec fn surface_after(s: SurfaceModel, input: WindowInput) -> SurfaceModel {
    match input {
        WindowInput::Resized { width, height } => resized(s, width, height),
        _ => s,
    }
}

/// The pressed directions after an event: a key event other than an
/// escape press goes to the camera controller; nothing else changes them.
pub open spec fn pressed_after(held: Set<Direction>, input: WindowInput) -> Set<Direction> {
    match input {
        WindowInput::Keyboard { key, pressed } => if key == Key::Escape && pressed {
            held
        } else {
            after_key(held, orbit_direction(key), pressed)
        },
        _ => held,
    }
}

/// The part of the render state that window events decide on: the window
/// surface's size and configuration, and the orbiting camera's keys.
pub struct Scene {
    pub surface: SurfaceState,
    pub controller: OrbitController,
}

impl Scene {
    /// A scene for a new window of the given inner size: the surface is not
    /// configured yet and no key is pressed.
    pub fn new(width: u32, height: u32) -> (s: Self)
        ensures
            s.surface@ == (SurfaceModel { width, height, configured: false }),
            s.controller@ == Set::<Direction>::empty(),
    {
        Scene { surface: SurfaceState::new(width, height), controller: OrbitController::new() }
    }

    /// Takes a window event, updates the scene, and says what the loop must
    /// do next.
    pub fn handle_event(&mut self, input: WindowInput) -> (action: EventAction)
        ensures
            action == event_action(input),
            final(self).surface@ == surface_after(old(self).surface@, input),
            final(self).controller@ == pressed_after(old(self).controller@, input),
            // a key event exits exactly when it is a press of escape, and
            // asks for nothing otherwise
            input matches WindowInput::Keyboard { key, pressed } ==> (action == EventAction::Exit
                <==> (key == Key::Escape && pressed)) && (action == EventAction::Exit || action
                == EventAction::Nothing),
            // every other key event, press or release, reaches the camera:
            // its direction is pressed afterwards exactly when the key is
            // down, and no other direction changes
            (match input {
                WindowInput::Keyboard { key, pressed } => !(key == Key::Escape && pressed) ==> forall|
                    d: Direction,
                | #![trigger final(self).controller@.contains(d)]
                    final(self).controller@.contains(d) == if orbit_direction(key) == Some(d) {
                        pressed
                    } else {
                        old(self).controller@.contains(d)
                    },
                _ => true,
            }),
    {
        match input {
            WindowInput::CloseRequested => EventAction::Exit,
            WindowInput::Resized { width, height } => {
                if self.surface.resize(width, height) {
                    EventAction::Reconfigure
                } else {
                    EventAction::Nothing
                }
            },
            WindowInput::RedrawRequested => EventAction::Redraw,
            WindowInput::Keyboard { key, pressed } => {
                if key == Key::Escape && pressed {
                    EventAction::Exit
                } else {
                    self.controller.handle_key(key, pressed);
                    EventAction::Nothing
                }
            },
            WindowInput::Other => EventAction::Nothing,
        }
    }
}

/// A key event exits the loop exactly when it is a press of escape; every
/// other key event, pressed or released, asks for nothing.
pub proof fn lemma_only_escape_press_exits(key: Key, pressed: bool)
    ensures
        event_action(WindowInput::Keyboard { key, pressed }) == EventAction::Exit <==> (key
            == Key::Escape && pressed),
        !(key == Key::Escape && pressed) ==> event_action(WindowInput::Keyboard { key, pressed })
            == EventAction::Nothing,
{
}

/// Every key event but an escape press reaches the orbiting camera, a
/// release as much as a press: afterwards the key's direction is pressed
/// exactly when the key is down, and every other direction is as before.
pub proof fn lemma_key_events_reach_camera(
    held: Set<Direction>,
    key: Key,
    pressed: bool,
    d: Direction,
)
    requires
        !(key == Key::Escape && pressed),
    ensures
        orbit_direction(key) == Some(d) ==> pressed_after(
            held,
            WindowInput::Keyboard { key, pressed },
        ).contains(d) == pressed,
        orbit_direction(key) != Some(d) ==> pressed_after(
            held,
            WindowInput::Keyboard { key, pressed },
        ).contains(d) == held.contains(d),
{
}

/// No event unconfigures the surface: once configured, it stays so.
pub proof fn lemma_events_keep_configuration(s: SurfaceModel, input: WindowInput)
    ensures
        s.configured ==> surface_after(s, input).configured,
{
}

/// Pressing escape exits and leaves the camera's keys and the surface as
/// they were.
pub proof fn lemma_escape_exits_untouched(
    s: SurfaceModel,
    held: Set<Direction>,
    input: WindowInput,
)
    requires
        is_escape_press(input),
    ensures
        event_action(input) == EventAction::Exit,
        surface_after(s, input) == s,
        pressed_after(held, input) == held,
{
}

} // verus!
