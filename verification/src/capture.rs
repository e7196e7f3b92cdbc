//! The cursor-capture gate: whether the pointer drives the camera.

use crate::bindings::KeyBindings;
use crate::input::{just_pressed_keys, key_just_pressed};
use bevy::input::keyboard::KeyCode;
use bevy::input::ButtonInput;
use bevy::window::{Cursor, CursorGrabMode, CursorIcon};
use vstd::prelude::*;

verus! {

/// `bevy::window::CursorGrabMode`, read from the crate itself.
#[verifier::external_type_specification]
pub struct ExCursorGrabMode(CursorGrabMode);

/// `bevy::window::CursorIcon`. Only carried along; nothing here looks inside.
#[verifier::external_type_specification]
#[verifier::external_body]
pub struct ExCursorIcon(CursorIcon);

/// `bevy::window::Cursor`, the cursor data of a window, read from the crate
/// itself: its icon, whether it is visible, how it is grabbed, its hit test.
#[verifier::external_type_specification]
pub struct ExCursor(Cursor);

/// Whether the pointer is left to the desktop or taken by the window.
#[derive(Clone, Copy, Debug, PartialEq, Eq, Structural)]
pub enum CaptureMode {
    Free,
    Captured,
}

/// Why a frame's update was skipped.
#[derive(Clone, Copy, Debug, PartialEq, Eq, Structural)]
pub enum FrameError {
    /// There is not exactly one primary window to read the cursor from.
    PrimaryWindowUnavailable,
}

/// A cursor is free while its window does not grab it, captured otherwise.
pub open spec fn mode_of(cursor: Cursor) -> CaptureMode {
    if cursor.grab_mode is None {
        CaptureMode::Free
    } else {
        CaptureMode::Captured
    }
}

/// The cursor after one toggle: a free cursor becomes confined and hidden,
/// a grabbed one is released and shown. Icon and hit test stay.
pub open spec fn toggled(cursor: Cursor) -> Cursor {
    if cursor.grab_mode is None {
        Cursor {
            icon: cursor.icon,
            visible: false,
            grab_mode: CursorGrabMode::Confined,
            hit_test: cursor.hit_test,
        }
    } else {
        Cursor {
            icon: cursor.icon,
            visible: true,
            grab_mode: CursorGrabMode::None,
            hit_test: cursor.hit_test,
        }
    }
}

/// The capture mode that `cursor` stands for.
pub fn capture_mode(cursor: &Cursor) -> (mode: CaptureMode)
    ensures
        mode == mode_of(*cursor),
{
    match cursor.grab_mode {
        CursorGrabMode::None => CaptureMode::Free,
        _ => CaptureMode::Captured,
    }
}

/// What both camera updates ask before anything else: the capture mode of
/// the primary window's cursor, or the error when there is no such window.
pub fn capture_gate(primary_window: Option<&Cursor>) -> (gate: Result<CaptureMode, FrameError>)
    ensures
        gate == match primary_window {
            None => Err::<CaptureMode, FrameError>(FrameError::PrimaryWindowUnavailable),
            Some(cursor) => Ok(mode_of(*cursor)),
        },
{
    match primary_window {
        None => Err(FrameError::PrimaryWindowUnavailable),
        Some(cursor) => Ok(capture_mode(cursor)),
    }
}

/// Flips the capture: see [`toggled`].
pub fn toggle_grab_cursor(cursor: &mut Cursor)
    ensures
        *final(cursor) == toggled(*old(cursor)),
{
    match cursor.grab_mode {
        CursorGrabMode::None => {
            cursor.grab_mode = CursorGrabMode::Confined;
            cursor.visible = false;
        },
        _ => {
            cursor.grab_mode = CursorGrabMode::None;
            cursor.visible = true;
        },
    }
}

/// The capture toggle of one frame.
///
/// Without a primary window nothing happens and the error says so. With
/// one, the cursor is toggled if the bound key went down in this frame (a
/// key that is merely held does not count), and the result tells whether it
/// was. In the contract `*cursor` is the cursor as it was handed in.
pub fn cursor_grab(
    keys: &ButtonInput<KeyCode>,
    key_bindings: &KeyBindings,
    primary_window: Option<&mut Cursor>,
) -> (flipped: Result<bool, FrameError>)
    ensures
        match primary_window {
            None => flipped == Err::<bool, FrameError>(FrameError::PrimaryWindowUnavailable),
            Some(cursor) => {
                let hit = just_pressed_keys(*keys).contains(key_bindings.toggle_grab_cursor);
                &&& flipped == Ok::<bool, FrameError>(hit)
                &&& *final(cursor) == if hit {
                    toggled(*cursor)
                } else {
                    *cursor
                }
            },
        },
{
    match primary_window {
        None => Err(FrameError::PrimaryWindowUnavailable),
        Some(cursor) => {
            if key_just_pressed(keys, key_bindings.toggle_grab_cursor) {
                toggle_grab_cursor(cursor);
                Ok(true)
            } else {
                Ok(false)
            }
        },
    }
}

/// One press of the toggle changes the capture mode and a second press
/// brings it back. After the first press the cursor is in one of the two
/// states that the toggle itself sets, and from there two presses restore
/// the cursor as a whole.
pub proof fn lemma_toggle_twice_restores_mode(cursor: Cursor)
    ensures
        mode_of(toggled(cursor)) != mode_of(cursor),
        mode_of(toggled(toggled(cursor))) == mode_of(cursor),
        toggled(toggled(toggled(cursor))) == toggled(cursor),
{
}

/// A cursor as the toggle leaves it, free and visible or confined and
/// hidden, is restored as a whole by two presses.
pub proof fn lemma_toggle_twice_restores_cursor(cursor: Cursor)
    requires
        (cursor.grab_mode is None && cursor.visible) || (cursor.grab_mode is Confined
            && !cursor.visible),
    ensures
        toggled(toggled(cursor)) == cursor,
{
}

} // verus!
