//! The keyboard snapshot of one frame, as `bevy` keeps it.

use bevy::input::keyboard::{KeyCode, NativeKeyCode};
use bevy::input::ButtonInput;
use std::hash::Hash;
use vstd::prelude::*;

verus! {

/// `bevy::input::keyboard::NativeKeyCode`, the payload of an unidentified key.
/// Its variants are read from the crate itself.
#[verifier::external_type_specification]
pub struct ExNativeKeyCode(NativeKeyCode);

/// `bevy::input::keyboard::KeyCode`. Its variants are read from the crate
/// itself, so two different variants are known to be different keys.
#[verifier::external_type_specification]
pub struct ExKeyCode(KeyCode);

/// `bevy::input::ButtonInput`, the set of pressed buttons together with the
/// sets of those pressed and released since it was last cleared. Nothing of
/// its inside is visible here.
#[verifier::external_type_specification]
#[verifier::external_body]
#[verifier::reject_recursive_types(T)]
pub struct ExButtonInput<T: Copy + Eq + Hash + Send + Sync + 'static>(ButtonInput<T>);

/// The keys that `input` holds as pressed.
pub uninterp spec fn pressed_keys(input: ButtonInput<KeyCode>) -> Set<KeyCode>;

/// The keys whose press `input` has registered since it was last cleared.
pub uninterp spec fn just_pressed_keys(input: ButtonInput<KeyCode>) -> Set<KeyCode>;

/// `ButtonInput::just_pressed`: whether `key` is among the keys pressed
/// since the last clear. Assumed, not proved.
#[verifier::external_body]
pub(crate) fn key_just_pressed(input: &ButtonInput<KeyCode>, key: KeyCode) -> (hit: bool)
    ensures
        hit == just_pressed_keys(*input).contains(key),
{
    input.just_pressed(key)
}

/// `ButtonInput::get_pressed`, collected: the pressed keys and no others, in
/// whatever order the underlying hash set yields them. Assumed, not proved.
#[verifier::external_body]
pub(crate) fn held_keys(input: &ButtonInput<KeyCode>) -> (keys: Vec<KeyCode>)
    ensures
        keys@.to_set() == pressed_keys(*input),
{
    input.get_pressed().copied().collect()
}

/// The `==` that `KeyCode` derives: true exactly for the same variant with
/// the same payload. Assumed, not proved.
#[verifier::external_body]
pub(crate) fn same_key(a: KeyCode, b: KeyCode) -> (same: bool)
    ensures
        same == (a == b),
{
    a == b
}

} // verus!
