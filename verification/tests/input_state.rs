//! Behavior of the input accumulator: key flags, pointer snapping, intent.

use sculpt_core::fx::FX_ONE;
use sculpt_core::input::{InputState, KeyEvent};

#[test]
fn keys_set_and_clear_their_flags() {
    let mut input = InputState::new();
    input.set_key(KeyEvent::W, true);
    input.set_key(KeyEvent::D, true);
    assert!(input.w && input.d && !input.a && !input.s);
    input.set_key(KeyEvent::W, false);
    assert!(!input.w && input.d);
    // the jump key carries no movement flag
    input.set_key(KeyEvent::Space, true);
    assert!(!input.w && !input.a && !input.s && input.d);
}

#[test]
fn first_pointer_move_snaps_and_reports_zero_delta() {
    let mut input = InputState::new();
    let dx = input.pointer_moved(100, 50);
    assert_eq!(dx, 0);
    assert_eq!((input.prev_x, input.prev_y), (100, 50));
    assert_eq!((input.mouse_x, input.mouse_y), (100, 50));
}

#[test]
fn first_pointer_move_at_origin_reports_zero_delta() {
    let mut input = InputState::new();
    let dx = input.pointer_moved(0, 0);
    assert_eq!(dx, 0);
    assert_eq!((input.prev_x, input.prev_y), (0, 0));
}

#[test]
fn later_pointer_moves_trail_and_report_the_delta() {
    let mut input = InputState::new();
    input.pointer_moved(100, 50);
    let dx = input.pointer_moved(130, 60);
    // delta is previous x minus new x
    assert_eq!(dx, -30);
    assert_eq!((input.prev_x, input.prev_y), (100, 50));
    assert_eq!((input.mouse_x, input.mouse_y), (130, 60));
    let dx2 = input.pointer_moved(110, 60);
    assert_eq!(dx2, 20);
}

#[test]
fn move_intent_sums_unit_axes_without_normalizing() {
    let mut input = InputState::new();
    let v = input.move_intent();
    assert_eq!((v.x, v.y, v.z), (0, 0, 0));

    input.set_key(KeyEvent::W, true);
    let v = input.move_intent();
    assert_eq!((v.x, v.y, v.z), (0, 0, -FX_ONE));

    // diagonal input exceeds unit speed: both components stay full
    input.set_key(KeyEvent::D, true);
    let v = input.move_intent();
    assert_eq!((v.x, v.y, v.z), (FX_ONE, 0, -FX_ONE));

    // opposite keys cancel
    input.set_key(KeyEvent::S, true);
    input.set_key(KeyEvent::A, true);
    let v = input.move_intent();
    assert_eq!((v.x, v.y, v.z), (0, 0, 0));
}
