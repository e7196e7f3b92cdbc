//! The movement integrator's decision: along which axes the camera moves.

use crate::bindings::KeyBindings;
use crate::capture::{capture_gate, mode_of, CaptureMode, FrameError};
use crate::input::{held_keys, pressed_keys, same_key};
use bevy::input::keyboard::KeyCode;
use bevy::input::ButtonInput;
use bevy::window::Cursor;
use vstd::prelude::*;

verus! {

/// The net pull of the held keys along the camera's three movement axes:
/// its forward and right axes, laid flat on the ground, and the world's up
/// axis. Each is `1`, `0` or `-1`; the host scales the axes by them, adds
/// them up, brings the sum to unit length (or leaves it zero) and moves the
/// camera along it by speed times elapsed time.
#[derive(Clone, Copy, Debug, PartialEq, Eq, Structural)]
pub struct MoveAxes {
    pub forward: i8,
    pub right: i8,
    pub up: i8,
}

impl MoveAxes {
    /// No pull along any axis.
    pub open spec fn is_zero(self) -> bool {
        self.forward == 0 && self.right == 0 && self.up == 0
    }

    /// Whether the camera is pulled nowhere, so that its position stays.
    pub fn is_still(&self) -> (still: bool)
        ensures
            still == self.is_zero(),
    {
        self.forward == 0 && self.right == 0 && self.up == 0
    }
}

/// One axis: the key that pushes along it counts `+1`, the one that pushes
/// against it `-1`, and both together cancel.
pub open spec fn pull(along: bool, against: bool) -> int {
    (if along { 1int } else { 0int }) - (if against { 1int } else { 0int })
}

/// The axes that a set of held keys gives under `bindings`.
pub open spec fn net_axes(held: Set<KeyCode>, bindings: KeyBindings) -> MoveAxes {
    MoveAxes {
        forward: pull(
            held.contains(bindings.move_forward),
            held.contains(bindings.move_backward),
        ) as i8,
        right: pull(held.contains(bindings.move_right), held.contains(bindings.move_left)) as i8,
        up: pull(held.contains(bindings.move_ascend), held.contains(bindings.move_descend)) as i8,
    }
}

/// What the movement update decides in one frame: an error without a
/// window, nothing while the cursor is free, else the axes of the held keys.
pub open spec fn move_outcome(
    primary_window: Option<&Cursor>,
    held: Set<KeyCode>,
    bindings: KeyBindings,
) -> Result<Option<MoveAxes>, FrameError> {
    match primary_window {
        None => Err(FrameError::PrimaryWindowUnavailable),
        Some(cursor) => if mode_of(*cursor) is Free {
            Ok(None)
        } else {
            Ok(Some(net_axes(held, bindings)))
        },
    }
}

/// Taking one more element into a prefix adds exactly that element.
proof fn lemma_prefix_grows(keys: Seq<KeyCode>, i: int, k: KeyCode)
    requires
        0 <= i < keys.len(),
    ensures
        keys.take(i + 1).contains(k) <==> keys.take(i).contains(k) || keys[i] == k,
{
    let shorter = keys.take(i);
    let longer = keys.take(i + 1);
    if longer.contains(k) {
        let j = choose|j: int| 0 <= j < longer.len() && longer[j] == k;
        if j < i {
            assert(shorter[j] == k);
        }
    }
    if shorter.contains(k) {
        let j = choose|j: int| 0 <= j < shorter.len() && shorter[j] == k;
        assert(longer[j] == k);
    }
    if keys[i] == k {
        assert(longer[i] == k);
    }
}

/// `1`, `0` or `-1` for an axis whose two keys are held or not.
fn axis(along: bool, against: bool) -> (net: i8)
    ensures
        net == pull(along, against),
{
    if along == against {
        0
    } else if along {
        1
    } else {
        -1
    }
}

/// The axes that the held keys give, in whatever order and however often
/// the keys are listed.
///
/// Walks the keys once; each one switches on every action it is bound to.
pub fn axes_of(held: &[KeyCode], key_bindings: &KeyBindings) -> (axes: MoveAxes)
    ensures
        axes == net_axes(held@.to_set(), *key_bindings),
{
    let mut forward = false;
    let mut backward = false;
    let mut right = false;
    let mut left = false;
    let mut ascend = false;
    let mut descend = false;
    let mut i: usize = 0;
    while i < held.len()
        invariant
            i <= held.len(),
            forward == held@.take(i as int).contains(key_bindings.move_forward),
            backward == held@.take(i as int).contains(key_bindings.move_backward),
            right == held@.take(i as int).contains(key_bindings.move_right),
            left == held@.take(i as int).contains(key_bindings.move_left),
            ascend == held@.take(i as int).contains(key_bindings.move_ascend),
            descend == held@.take(i as int).contains(key_bindings.move_descend),
        decreases held.len() - i,
    {
        let key = held[i];
        proof {
            lemma_prefix_grows(held@, i as int, key_bindings.move_forward);
            lemma_prefix_grows(held@, i as int, key_bindings.move_backward);
            lemma_prefix_grows(held@, i as int, key_bindings.move_right);
            lemma_prefix_grows(held@, i as int, key_bindings.move_left);
            lemma_prefix_grows(held@, i as int, key_bindings.move_ascend);
            lemma_prefix_grows(held@, i as int, key_bindings.move_descend);
        }
        if same_key(key, key_bindings.move_forward) {
            forward = true;
        }
        if same_key(key, key_bindings.move_backward) {
            backward = true;
        }
        if same_key(key, key_bindings.move_right) {
            right = true;
        }
        if same_key(key, key_bindings.move_left) {
            left = true;
        }
        if same_key(key, key_bindings.move_ascend) {
            ascend = true;
        }
        if same_key(key, key_bindings.move_descend) {
            descend = true;
        }
        i += 1;
    }
    proof {
        assert(held@.take(held.len() as int) == held@);
    }
    MoveAxes {
        forward: axis(forward, backward),
        right: axis(right, left),
        up: axis(ascend, descend),
    }
}

/// The movement update of one frame: an error without a primary window,
/// nothing while the cursor is free, else the axes of the keys held.
pub fn cam_move(
    primary_window: Option<&Cursor>,
    keys: &ButtonInput<KeyCode>,
    key_bindings: &KeyBindings,
) -> (step: Result<Option<MoveAxes>, FrameError>)
    ensures
        step == move_outcome(primary_window, pressed_keys(*keys), *key_bindings),
{
    match capture_gate(primary_window) {
        Err(e) => Err(e),
        Ok(CaptureMode::Free) => Ok(None),
        Ok(CaptureMode::Captured) => {
            let held = held_keys(keys);
            Ok(Some(axes_of(held.as_slice(), key_bindings)))
        },
    }
}

/// Every axis of a frame is `1`, `0` or `-1`.
pub proof fn lemma_axes_are_signs(held: Set<KeyCode>, bindings: KeyBindings)
    ensures
        -1 <= net_axes(held, bindings).forward <= 1,
        -1 <= net_axes(held, bindings).right <= 1,
        -1 <= net_axes(held, bindings).up <= 1,
{
}

/// With no key held the camera is pulled nowhere, so a captured frame
/// without keys leaves its position alone.
pub proof fn lemma_no_keys_no_pull(cursor: Cursor, bindings: KeyBindings)
    ensures
        net_axes(Set::empty(), bindings).is_zero(),
        mode_of(cursor) is Captured ==> move_outcome(Some(&cursor), Set::empty(), bindings) == Ok::<
            Option<MoveAxes>,
            FrameError,
        >(Some(MoveAxes { forward: 0, right: 0, up: 0 })),
{
}

/// While the cursor is free, no set of held keys moves the camera.
pub proof fn lemma_free_cursor_moves_nothing(
    cursor: Cursor,
    held: Set<KeyCode>,
    bindings: KeyBindings,
)
    requires
        mode_of(cursor) is Free,
    ensures
        move_outcome(Some(&cursor), held, bindings) == Ok::<Option<MoveAxes>, FrameError>(None),
{
}

/// Opposing keys cancel: with the two keys of an axis held together, that
/// axis is pulled neither way, whatever else is held.
pub proof fn lemma_opposing_keys_cancel(held: Set<KeyCode>, bindings: KeyBindings)
    ensures
        held.contains(bindings.move_forward) && held.contains(bindings.move_backward)
            ==> net_axes(held, bindings).forward == 0,
        held.contains(bindings.move_right) && held.contains(bindings.move_left) ==> net_axes(
            held,
            bindings,
        ).right == 0,
        held.contains(bindings.move_ascend) && held.contains(bindings.move_descend) ==> net_axes(
            held,
            bindings,
        ).up == 0,
{
}

/// Holding forward and backward together moves the camera exactly as
/// holding neither does, provided that neither key is bound to a movement
/// action of another axis as well.
pub proof fn lemma_forward_and_backward_as_neither(held: Set<KeyCode>, bindings: KeyBindings)
    requires
        bindings.move_forward != bindings.move_left,
        bindings.move_forward != bindings.move_right,
        bindings.move_forward != bindings.move_ascend,
        bindings.move_forward != bindings.move_descend,
        bindings.move_backward != bindings.move_left,
        bindings.move_backward != bindings.move_right,
        bindings.move_backward != bindings.move_ascend,
        bindings.move_backward != bindings.move_descend,
    ensures
        net_axes(held.insert(bindings.move_forward).insert(bindings.move_backward), bindings)
            == net_axes(held.remove(bindings.move_forward).remove(bindings.move_backward), bindings),
{
}

/// Holding left and right together moves the camera exactly as holding
/// neither does, provided that neither key is bound to a movement action of
/// another axis as well.
pub proof fn lemma_left_and_right_as_neither(held: Set<KeyCode>, bindings: KeyBindings)
    requires
        bindings.move_left != bindings.move_forward,
        bindings.move_left != bindings.move_backward,
        bindings.move_left != bindings.move_ascend,
        bindings.move_left != bindings.move_descend,
        bindings.move_right != bindings.move_forward,
        bindings.move_right != bindings.move_backward,
        bindings.move_right != bindings.move_ascend,
        bindings.move_right != bindings.move_descend,
    ensures
        net_axes(held.insert(bindings.move_left).insert(bindings.move_right), bindings)
            == net_axes(held.remove(bindings.move_left).remove(bindings.move_right), bindings),
{
}

} // verus!
