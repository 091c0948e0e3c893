use meru::input::InputState;
use meru::key_assign::Gamepad;
use meru::key_assign::GamepadButton;
use meru::key_assign::GamepadButtonType;
use meru::key_assign::KeyCode;
use meru::key_assign::MultiKey;
use meru::key_assign::SingleKey;
use meru::menu::current_pressed;
use meru::menu::ChordCaptureSession;
use meru::menu::SessionState;

fn keys(held: Vec<KeyCode>) -> InputState {
    InputState::new(held, vec![], vec![], vec![], vec![])
}

#[test]
fn ctrl_then_r_then_release_commits_ctrl_r() {
    let mut session = ChordCaptureSession::new();
    assert_eq!(session.feed(&keys(vec![KeyCode::LControl])), SessionState::Accumulating);
    assert_eq!(
        session.feed(&keys(vec![KeyCode::LControl, KeyCode::R])),
        SessionState::Accumulating
    );
    assert_eq!(
        session.feed(&keys(vec![KeyCode::R])),
        SessionState::Committed(MultiKey(vec![
            SingleKey::KeyCode(KeyCode::LControl),
            SingleKey::KeyCode(KeyCode::R),
        ]))
    );
    assert_eq!(session.gesture(), None);
}

#[test]
fn session_without_a_press_waits() {
    let mut session = ChordCaptureSession::new();
    for _ in 0..3 {
        assert_eq!(session.feed(&keys(vec![])), SessionState::Waiting);
        assert_eq!(session.gesture(), None);
    }
}

#[test]
fn gesture_grows_in_first_seen_order_without_repeats() {
    let south = GamepadButton::new(Gamepad::new(0), GamepadButtonType::South);
    let mut session = ChordCaptureSession::new();
    session.feed(&keys(vec![KeyCode::B]));
    let state = InputState::new(vec![KeyCode::A, KeyCode::B], vec![], vec![south], vec![], vec![]);
    assert_eq!(session.feed(&state), SessionState::Accumulating);
    assert_eq!(session.feed(&state), SessionState::Accumulating);
    assert_eq!(
        session.gesture(),
        Some(vec![
            SingleKey::KeyCode(KeyCode::B),
            SingleKey::KeyCode(KeyCode::A),
            SingleKey::GamepadButton(south),
        ])
    );
    let released = InputState::new(vec![KeyCode::A, KeyCode::B], vec![], vec![], vec![], vec![]);
    assert_eq!(
        session.feed(&released),
        SessionState::Committed(MultiKey(vec![
            SingleKey::KeyCode(KeyCode::B),
            SingleKey::KeyCode(KeyCode::A),
            SingleKey::GamepadButton(south),
        ]))
    );
}

#[test]
fn single_key_commits_on_release() {
    let mut session = ChordCaptureSession::new();
    session.feed(&keys(vec![KeyCode::F5]));
    assert_eq!(
        session.feed(&keys(vec![])),
        SessionState::Committed(MultiKey(vec![SingleKey::KeyCode(KeyCode::F5)]))
    );
    assert_eq!(session.feed(&keys(vec![])), SessionState::Waiting);
}

#[test]
fn held_members_list_keys_before_buttons() {
    let east = GamepadButton::new(Gamepad::new(1), GamepadButtonType::East);
    let state = InputState::new(vec![KeyCode::Z, KeyCode::X], vec![], vec![east], vec![], vec![]);
    assert_eq!(
        current_pressed(&state),
        vec![
            SingleKey::KeyCode(KeyCode::Z),
            SingleKey::KeyCode(KeyCode::X),
            SingleKey::GamepadButton(east),
        ]
    );
}
