//! A first-person fly camera, reduced to the decisions it takes each frame.
//!
//! The host hands over what it read from the window and the input devices;
//! this crate answers which pointer-motion events to apply, along which axes
//! to move, and what becomes of the cursor. Orientation and position are
//! floating-point values and stay with the host.

pub mod bindings;
pub mod capture;
pub mod input;
pub mod look;
pub mod motion;
pub mod movement;

pub use bindings::KeyBindings;
pub use capture::{
    capture_gate, capture_mode, cursor_grab, toggle_grab_cursor, CaptureMode, FrameError,
};
pub use look::cam_look;
pub use motion::MotionReadCursor;
pub use movement::{axes_of, cam_move, MoveAxes};
