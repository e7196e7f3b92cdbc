//! Which key stands for which action.

use bevy::input::keyboard::KeyCode;
use vstd::prelude::*;

verus! {

/// The keys bound to the six movement actions and to the capture toggle.
///
/// Two actions may share a key; both then fire whenever that key is down.
#[derive(Clone, Copy, Debug, PartialEq, Eq)]
pub struct KeyBindings {
    pub move_forward: KeyCode,
    pub move_backward: KeyCode,
    pub move_left: KeyCode,
    pub move_right: KeyCode,
    pub move_ascend: KeyCode,
    pub move_descend: KeyCode,
    pub toggle_grab_cursor: KeyCode,
}

impl KeyBindings {
    /// No key is bound to two actions.
    pub open spec fn pairwise_distinct(self) -> bool {
        let keys = seq![
            self.move_forward,
            self.move_backward,
            self.move_left,
            self.move_right,
            self.move_ascend,
            self.move_descend,
            self.toggle_grab_cursor,
        ];
        keys.no_duplicates()
    }
}

impl Default for KeyBindings {
    /// W/S/A/D to move in the plane, Space and left Shift to rise and sink,
    /// Tab to toggle the capture.
    fn default() -> (b: Self)
        ensures
            b.move_forward == KeyCode::KeyW,
            b.move_backward == KeyCode::KeyS,
            b.move_left == KeyCode::KeyA,
            b.move_right == KeyCode::KeyD,
            b.move_ascend == KeyCode::Space,
            b.move_descend == KeyCode::ShiftLeft,
            b.toggle_grab_cursor == KeyCode::Tab,
            b.pairwise_distinct(),
    {
        KeyBindings {
            move_forward: KeyCode::KeyW,
            move_backward: KeyCode::KeyS,
            move_left: KeyCode::KeyA,
            move_right: KeyCode::KeyD,
            move_ascend: KeyCode::Space,
            move_descend: KeyCode::ShiftLeft,
            toggle_grab_cursor: KeyCode::Tab,
        }
    }
}

} // verus!
