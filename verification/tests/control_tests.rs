use star_scene::control::{ElementState, State, VirtualKeyCode};

#[test]
fn input_state_starts_idle() {
    let s = State::new();
    assert!(!s.move_up && !s.move_down && !s.move_left && !s.move_right);
    assert!(!s.moving());
}

#[test]
fn left_key_press_and_release() {
    let mut s = State::new();
    s.handle_key_input(ElementState::Pressed, Some(VirtualKeyCode::Left));
    assert_eq!(
        s,
        State { move_up: false, move_down: false, move_left: true, move_right: false }
    );
    assert!(s.moving());
    s.handle_key_input(ElementState::Released, Some(VirtualKeyCode::Left));
    assert_eq!(s, State::new());
    assert!(!s.moving());
}

#[test]
fn each_key_sets_its_own_flag() {
    let keys = [
        (VirtualKeyCode::Up, State { move_up: true, move_down: false, move_left: false, move_right: false }),
        (VirtualKeyCode::Down, State { move_up: false, move_down: true, move_left: false, move_right: false }),
        (VirtualKeyCode::Left, State { move_up: false, move_down: false, move_left: true, move_right: false }),
        (VirtualKeyCode::Right, State { move_up: false, move_down: false, move_left: false, move_right: true }),
    ];
    for (key, expected) in keys {
        let mut s = State::new();
        s.handle_key_input(ElementState::Pressed, Some(key));
        assert_eq!(s, expected);
        assert!(s.moving());
        s.handle_key_input(ElementState::Pressed, Some(key));
        assert_eq!(s, expected);
        s.handle_key_input(ElementState::Released, Some(key));
        assert_eq!(s, State::new());
    }
}

#[test]
fn other_keys_and_unknown_keys_change_nothing() {
    let held = State { move_up: true, move_down: false, move_left: false, move_right: true };
    for state in [ElementState::Pressed, ElementState::Released] {
        let mut s = held;
        s.handle_key_input(state, Some(VirtualKeyCode::Other));
        assert_eq!(s, held);
        s.handle_key_input(state, None);
        assert_eq!(s, held);
        let mut idle = State::new();
        idle.handle_key_input(state, None);
        assert_eq!(idle, State::new());
    }
}

#[test]
fn release_clears_only_the_named_key() {
    let mut s = State { move_up: true, move_down: true, move_left: true, move_right: true };
    s.handle_key_input(ElementState::Released, Some(VirtualKeyCode::Down));
    assert_eq!(s, State { move_up: true, move_down: false, move_left: true, move_right: true });
    assert!(s.moving());
    s.handle_key_input(ElementState::Released, Some(VirtualKeyCode::Up));
    s.handle_key_input(ElementState::Released, Some(VirtualKeyCode::Left));
    assert!(s.moving());
    s.handle_key_input(ElementState::Released, Some(VirtualKeyCode::Right));
    assert!(!s.moving());
}

#[test]
fn state_written_out() {
    assert_eq!(
        State::new().describe(),
        "move_up: false, move_down: false, move_left: false, move_right: false"
    );
    let s = State { move_up: true, move_down: false, move_left: true, move_right: false };
    assert_eq!(
        s.describe(),
        "move_up: true, move_down: false, move_left: true, move_right: false"
    );
}
