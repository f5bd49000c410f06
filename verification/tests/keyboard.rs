use player_controller::input::{InputEvent, KeyCode};
use player_controller::keyboard::Keyboard;

fn key(key_code: KeyCode, pressed: bool) -> InputEvent {
    InputEvent::KeyboardInput { key_code: Some(key_code), pressed }
}

fn flags(keyboard: &Keyboard) -> (bool, bool, bool, bool, bool) {
    (keyboard.move_forward, keyboard.move_backward, keyboard.move_left, keyboard.move_right, keyboard.jump)
}

#[test]
fn new_keyboard_holds_the_given_flags() {
    let keyboard = Keyboard::new(true, false, true, false, true);
    assert_eq!(flags(&keyboard), (true, false, true, false, true));
}

#[test]
fn default_keyboard_holds_no_key() {
    let keyboard = Keyboard::default();
    assert_eq!(flags(&keyboard), (false, false, false, false, false));
}

#[test]
fn pressing_z_sets_forward_only() {
    let mut keyboard = Keyboard::new(false, false, false, false, false);
    keyboard.process_keyboard_event(&key(KeyCode::Z, true));
    assert_eq!(flags(&keyboard), (true, false, false, false, false));
}

#[test]
fn pressing_s_sets_backward_only() {
    let mut keyboard = Keyboard::new(false, false, false, false, false);
    keyboard.process_keyboard_event(&key(KeyCode::S, true));
    assert_eq!(flags(&keyboard), (false, true, false, false, false));
}

#[test]
fn pressing_q_sets_left_only() {
    let mut keyboard = Keyboard::new(false, false, false, false, false);
    keyboard.process_keyboard_event(&key(KeyCode::Q, true));
    assert_eq!(flags(&keyboard), (false, false, true, false, false));
}

#[test]
fn pressing_d_sets_right_only() {
    let mut keyboard = Keyboard::new(false, false, false, false, false);
    keyboard.process_keyboard_event(&key(KeyCode::D, true));
    assert_eq!(flags(&keyboard), (false, false, false, true, false));
}

#[test]
fn pressing_space_sets_jump_only() {
    let mut keyboard = Keyboard::new(false, false, false, false, false);
    keyboard.process_keyboard_event(&key(KeyCode::Space, true));
    assert_eq!(flags(&keyboard), (false, false, false, false, true));
}

#[test]
fn releasing_a_key_clears_its_flag_only() {
    let mut keyboard = Keyboard::new(true, true, true, true, true);
    keyboard.process_keyboard_event(&key(KeyCode::Q, false));
    assert_eq!(flags(&keyboard), (true, true, false, true, true));
    keyboard.process_keyboard_event(&key(KeyCode::Space, false));
    assert_eq!(flags(&keyboard), (true, true, false, true, false));
}

#[test]
fn a_repeated_press_keeps_the_flag() {
    let mut keyboard = Keyboard::new(false, false, false, false, false);
    keyboard.process_keyboard_event(&key(KeyCode::Z, true));
    keyboard.process_keyboard_event(&key(KeyCode::Z, true));
    assert_eq!(flags(&keyboard), (true, false, false, false, false));
}

#[test]
fn an_unbound_key_is_ignored() {
    let mut keyboard = Keyboard::new(true, false, false, true, false);
    keyboard.process_keyboard_event(&key(KeyCode::Other, true));
    assert_eq!(flags(&keyboard), (true, false, false, true, false));
    keyboard.process_keyboard_event(&key(KeyCode::Other, false));
    assert_eq!(flags(&keyboard), (true, false, false, true, false));
}

#[test]
fn a_key_without_a_code_is_ignored() {
    let mut keyboard = Keyboard::new(false, true, false, false, true);
    keyboard.process_keyboard_event(&InputEvent::KeyboardInput { key_code: None, pressed: true });
    keyboard.process_keyboard_event(&InputEvent::KeyboardInput { key_code: None, pressed: false });
    assert_eq!(flags(&keyboard), (false, true, false, false, true));
}

#[test]
fn other_events_leave_the_keyboard_alone() {
    let mut keyboard = Keyboard::new(true, false, true, false, true);
    keyboard.process_keyboard_event(&InputEvent::MouseMotion { dx: 5_000_000, dy: -3_000_000 });
    keyboard.process_keyboard_event(&InputEvent::Other);
    assert_eq!(flags(&keyboard), (true, false, true, false, true));
}

#[test]
fn opposite_keys_can_be_held_together() {
    let mut keyboard = Keyboard::default();
    keyboard.process_keyboard_event(&key(KeyCode::Z, true));
    keyboard.process_keyboard_event(&key(KeyCode::S, true));
    assert_eq!(flags(&keyboard), (true, true, false, false, false));
}
