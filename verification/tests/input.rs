use bomberjack::input::InputState;
use bomberjack::input::Key;
use bomberjack::input::KeyState;

#[test]
fn new_input_state_has_no_key_pressed() {
    let state = InputState::new();
    assert!(!state.up_pressed);
    assert!(!state.down_pressed);
    assert!(!state.left_pressed);
    assert!(!state.right_pressed);
}

#[test]
fn a_press_sets_only_its_own_key() {
    let mut state = InputState::new();
    state.update(Some(Key::Up), KeyState::Pressed);
    assert_eq!(
        state,
        InputState { up_pressed: true, down_pressed: false, left_pressed: false, right_pressed: false }
    );
    state.update(Some(Key::Left), KeyState::Pressed);
    assert_eq!(
        state,
        InputState { up_pressed: true, down_pressed: false, left_pressed: true, right_pressed: false }
    );
    state.update(Some(Key::Down), KeyState::Pressed);
    state.update(Some(Key::Right), KeyState::Pressed);
    assert_eq!(
        state,
        InputState { up_pressed: true, down_pressed: true, left_pressed: true, right_pressed: true }
    );
}

#[test]
fn a_release_clears_only_its_own_key() {
    let mut state =
        InputState { up_pressed: true, down_pressed: true, left_pressed: true, right_pressed: true };
    state.update(Some(Key::Right), KeyState::Released);
    assert_eq!(
        state,
        InputState { up_pressed: true, down_pressed: true, left_pressed: true, right_pressed: false }
    );
    state.update(Some(Key::Up), KeyState::Released);
    assert_eq!(
        state,
        InputState { up_pressed: false, down_pressed: true, left_pressed: true, right_pressed: false }
    );
}

#[test]
fn a_key_stays_pressed_until_it_is_released() {
    let mut state = InputState::new();
    state.update(Some(Key::Left), KeyState::Pressed);
    state.update(Some(Key::Right), KeyState::Pressed);
    state.update(Some(Key::Right), KeyState::Released);
    state.update(None, KeyState::Released);
    assert!(state.left_pressed);
    state.update(Some(Key::Left), KeyState::Pressed);
    assert!(state.left_pressed);
    state.update(Some(Key::Left), KeyState::Released);
    assert!(!state.left_pressed);
}

#[test]
fn an_event_without_a_direction_key_changes_nothing() {
    let mut state =
        InputState { up_pressed: true, down_pressed: false, left_pressed: true, right_pressed: false };
    let before = state;
    state.update(None, KeyState::Pressed);
    assert_eq!(state, before);
    state.update(None, KeyState::Released);
    assert_eq!(state, before);
}
