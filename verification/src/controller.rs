//! The camera controller's movement intents.
//!
//! Directional keys set or clear an intent that stays active until the key
//! is released; each tick the shell integrates the active intents, together
//! with its accumulated mouse-look and scroll deltas, into the camera's
//! position, yaw and pitch, scaled by the elapsed time and the configured
//! sensitivity. The intents themselves, and which keys the controller
//! recognizes, are decided here.

use vstd::prelude::*;

verus! {

/// The keys the renderer reacts to. Everything else arrives as `Other` and
/// is left for the windowing shell's default handling.
#[derive(Clone, Copy, PartialEq, Eq, Structural, Debug)]
pub enum KeyCode {
    KeyW,
    KeyA,
    KeyS,
    KeyD,
    ArrowUp,
    ArrowDown,
    ArrowLeft,
    ArrowRight,
    Space,
    LeftShift,
    Escape,
    Other,
}

/// The six directional movement intents, each held while its key is down.
#[derive(Clone, Copy, PartialEq, Eq, Structural, Debug)]
pub struct CameraIntents {
    pub forward: bool,
    pub backward: bool,
    pub left: bool,
    pub right: bool,
    pub up: bool,
    pub down: bool,
}

/// Whether the controller recognizes (and so consumes) a key.
pub open spec fn recognized_key(key: KeyCode) -> bool {
    !(key is Escape || key is Other)
}

/// The intents after one key transition: the key's intent takes the new
/// pressed state, every other intent is kept; unrecognized keys change
/// nothing.
pub open spec fn apply_key(s: CameraIntents, key: KeyCode, pressed: bool) -> CameraIntents {
    match key {
        KeyCode::KeyW | KeyCode::ArrowUp => CameraIntents { forward: pressed, ..s },
        KeyCode::KeyS | KeyCode::ArrowDown => CameraIntents { backward: pressed, ..s },
        KeyCode::KeyA | KeyCode::ArrowLeft => CameraIntents { left: pressed, ..s },
        KeyCode::KeyD | KeyCode::ArrowRight => CameraIntents { right: pressed, ..s },
        KeyCode::Space => CameraIntents { up: pressed, ..s },
        KeyCode::LeftShift => CameraIntents { down: pressed, ..s },
        KeyCode::Escape | KeyCode::Other => s,
    }
}

impl CameraIntents {
    /// A controller at rest: no intent active.
    pub fn new() -> (r: CameraIntents)
        ensures
            r == (CameraIntents {
                forward: false,
                backward: false,
                left: false,
                right: false,
                up: false,
                down: false,
            }),
    {
        CameraIntents { forward: false, backward: false, left: false, right: false, up: false, down: false }
    }

    /// Sets or clears the directional intent a key stands for and reports
    /// whether the key was recognized; an unrecognized key leaves every
    /// intent as it was.
    pub fn process_keyboard(&mut self, key: KeyCode, pressed: bool) -> (recognized: bool)
        ensures
            *final(self) == apply_key(*old(self), key, pressed),
            recognized == recognized_key(key),
    {
        match key {
            KeyCode::KeyW | KeyCode::ArrowUp => {
                self.forward = pressed;
                true
            },
            KeyCode::KeyS | KeyCode::ArrowDown => {
                self.backward = pressed;
                true
            },
            KeyCode::KeyA | KeyCode::ArrowLeft => {
                self.left = pressed;
                true
            },
            KeyCode::KeyD | KeyCode::ArrowRight => {
                self.right = pressed;
                true
            },
            KeyCode::Space => {
                self.up = pressed;
                true
            },
            KeyCode::LeftShift => {
                self.down = pressed;
                true
            },
            KeyCode::Escape | KeyCode::Other => false,
        }
    }
}

} // verus!
