use bevy::input::keyboard::KeyCode;
use bevy::input::ButtonInput;
use bevy::window::{Cursor, CursorGrabMode};
use fly_cam::{axes_of, cam_move, FrameError, KeyBindings, MoveAxes};

fn captured() -> Cursor {
    Cursor {
        grab_mode: CursorGrabMode::Confined,
        visible: false,
        ..Cursor::default()
    }
}

fn holding(keys: &[KeyCode]) -> ButtonInput<KeyCode> {
    let mut input = ButtonInput::<KeyCode>::default();
    for key in keys {
        input.press(*key);
    }
    input
}

fn axes(forward: i8, right: i8, up: i8) -> Result<Option<MoveAxes>, FrameError> {
    Ok(Some(MoveAxes { forward, right, up }))
}

#[test]
fn no_keys_pull_nowhere() {
    let step = cam_move(Some(&captured()), &holding(&[]), &KeyBindings::default());
    assert_eq!(step, axes(0, 0, 0));
    assert!(step.unwrap().unwrap().is_still());
}

#[test]
fn each_action_pulls_along_its_axis() {
    let b = KeyBindings::default();
    let c = captured();
    assert_eq!(cam_move(Some(&c), &holding(&[KeyCode::KeyW]), &b), axes(1, 0, 0));
    assert_eq!(cam_move(Some(&c), &holding(&[KeyCode::KeyS]), &b), axes(-1, 0, 0));
    assert_eq!(cam_move(Some(&c), &holding(&[KeyCode::KeyD]), &b), axes(0, 1, 0));
    assert_eq!(cam_move(Some(&c), &holding(&[KeyCode::KeyA]), &b), axes(0, -1, 0));
    assert_eq!(cam_move(Some(&c), &holding(&[KeyCode::Space]), &b), axes(0, 0, 1));
    assert_eq!(cam_move(Some(&c), &holding(&[KeyCode::ShiftLeft]), &b), axes(0, 0, -1));
}

#[test]
fn forward_and_backward_cancel() {
    let b = KeyBindings::default();
    let c = captured();
    let both = cam_move(Some(&c), &holding(&[KeyCode::KeyW, KeyCode::KeyS]), &b);
    let neither = cam_move(Some(&c), &holding(&[]), &b);
    assert_eq!(both, axes(0, 0, 0));
    assert_eq!(both, neither);
}

#[test]
fn left_and_right_cancel() {
    let b = KeyBindings::default();
    let c = captured();
    let both = cam_move(Some(&c), &holding(&[KeyCode::KeyA, KeyCode::KeyD, KeyCode::Space]), &b);
    let neither = cam_move(Some(&c), &holding(&[KeyCode::Space]), &b);
    assert_eq!(both, axes(0, 0, 1));
    assert_eq!(both, neither);
}

#[test]
fn keys_of_different_axes_add_up() {
    let b = KeyBindings::default();
    let c = captured();
    let held = holding(&[KeyCode::KeyW, KeyCode::KeyD, KeyCode::ShiftLeft]);
    assert_eq!(cam_move(Some(&c), &held, &b), axes(1, 1, -1));
    let all = holding(&[
        KeyCode::KeyW,
        KeyCode::KeyS,
        KeyCode::KeyA,
        KeyCode::KeyD,
        KeyCode::Space,
        KeyCode::ShiftLeft,
    ]);
    assert_eq!(cam_move(Some(&c), &all, &b), axes(0, 0, 0));
}

#[test]
fn unbound_and_toggle_keys_do_not_move() {
    let b = KeyBindings::default();
    let held = holding(&[KeyCode::Tab, KeyCode::KeyQ, KeyCode::Enter, KeyCode::KeyA]);
    assert_eq!(cam_move(Some(&captured()), &held, &b), axes(0, -1, 0));
}

#[test]
fn released_keys_do_not_move() {
    let b = KeyBindings::default();
    let mut held = holding(&[KeyCode::KeyW, KeyCode::KeyD]);
    held.release(KeyCode::KeyW);
    assert_eq!(cam_move(Some(&captured()), &held, &b), axes(0, 1, 0));
}

#[test]
fn a_key_bound_twice_fires_both_actions() {
    let mut b = KeyBindings::default();
    b.move_ascend = KeyCode::KeyW;
    let c = captured();
    assert_eq!(cam_move(Some(&c), &holding(&[KeyCode::KeyW]), &b), axes(1, 0, 1));
    b.move_backward = KeyCode::KeyW;
    assert_eq!(cam_move(Some(&c), &holding(&[KeyCode::KeyW]), &b), axes(0, 0, 1));
}

#[test]
fn a_free_cursor_moves_nothing() {
    let b = KeyBindings::default();
    let free = Cursor::default();
    let held = holding(&[KeyCode::KeyW, KeyCode::KeyD, KeyCode::Space]);
    assert_eq!(cam_move(Some(&free), &held, &b), Ok(None));
    assert_eq!(cam_move(Some(&free), &holding(&[]), &b), Ok(None));
}

#[test]
fn a_locked_cursor_counts_as_captured() {
    let b = KeyBindings::default();
    let locked = Cursor {
        grab_mode: CursorGrabMode::Locked,
        ..Cursor::default()
    };
    assert_eq!(cam_move(Some(&locked), &holding(&[KeyCode::KeyS]), &b), axes(-1, 0, 0));
}

#[test]
fn movement_without_a_window_is_skipped() {
    let b = KeyBindings::default();
    let held = holding(&[KeyCode::KeyW]);
    assert_eq!(cam_move(None, &held, &b), Err(FrameError::PrimaryWindowUnavailable));
}

#[test]
fn is_still_only_for_zero_axes() {
    assert!(MoveAxes { forward: 0, right: 0, up: 0 }.is_still());
    assert!(!MoveAxes { forward: 1, right: 0, up: 0 }.is_still());
    assert!(!MoveAxes { forward: 0, right: -1, up: 0 }.is_still());
    assert!(!MoveAxes { forward: 0, right: 0, up: 1 }.is_still());
}

#[test]
fn axes_do_not_depend_on_the_order_of_the_keys() {
    let b = KeyBindings::default();
    let expected = MoveAxes { forward: 1, right: -1, up: 1 };
    let orders = [
        [KeyCode::KeyW, KeyCode::KeyA, KeyCode::Space],
        [KeyCode::KeyW, KeyCode::Space, KeyCode::KeyA],
        [KeyCode::KeyA, KeyCode::KeyW, KeyCode::Space],
        [KeyCode::KeyA, KeyCode::Space, KeyCode::KeyW],
        [KeyCode::Space, KeyCode::KeyW, KeyCode::KeyA],
        [KeyCode::Space, KeyCode::KeyA, KeyCode::KeyW],
    ];
    for order in orders {
        assert_eq!(axes_of(&order, &b), expected);
    }
}

#[test]
fn a_key_listed_twice_counts_once() {
    let b = KeyBindings::default();
    let held = [KeyCode::KeyW, KeyCode::KeyW, KeyCode::KeyD, KeyCode::KeyW];
    assert_eq!(axes_of(&held, &b), MoveAxes { forward: 1, right: 1, up: 0 });
    let cancelled = [KeyCode::KeyW, KeyCode::KeyW, KeyCode::KeyS];
    assert_eq!(axes_of(&cancelled, &b), MoveAxes { forward: 0, right: 0, up: 0 });
}

#[test]
fn axes_of_no_keys_are_zero() {
    let b = KeyBindings::default();
    assert_eq!(axes_of(&[], &b), MoveAxes { forward: 0, right: 0, up: 0 });
    assert_eq!(axes_of(&[KeyCode::Tab, KeyCode::KeyZ], &b), MoveAxes { forward: 0, right: 0, up: 0 });
}

#[test]
fn axes_follow_rebound_keys() {
    let b = KeyBindings {
        move_forward: KeyCode::ArrowUp,
        move_backward: KeyCode::ArrowDown,
        move_left: KeyCode::ArrowLeft,
        move_right: KeyCode::ArrowRight,
        move_ascend: KeyCode::PageUp,
        move_descend: KeyCode::PageDown,
        toggle_grab_cursor: KeyCode::Escape,
    };
    let held = [KeyCode::ArrowDown, KeyCode::ArrowRight, KeyCode::PageDown, KeyCode::KeyW];
    assert_eq!(axes_of(&held, &b), MoveAxes { forward: -1, right: 1, up: -1 });
}
