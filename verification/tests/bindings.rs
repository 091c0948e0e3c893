use meru::input::InputState;
use meru::key_assign::Gamepad;
use meru::key_assign::GamepadAxis;
use meru::key_assign::GamepadAxisDir;
use meru::key_assign::GamepadAxisType;
use meru::key_assign::GamepadButton;
use meru::key_assign::GamepadButtonType;
use meru::key_assign::KeyAssign;
use meru::key_assign::KeyCode;
use meru::key_assign::MultiKey;
use meru::key_assign::SingleKey;

fn key(code: KeyCode) -> KeyAssign {
    KeyAssign(vec![MultiKey(vec![SingleKey::KeyCode(code)])])
}

fn pad(id: usize, button: GamepadButtonType) -> KeyAssign {
    KeyAssign(vec![MultiKey(vec![SingleKey::GamepadButton(
        GamepadButton::new(Gamepad::new(id), button),
    )])])
}

fn held(keys: Vec<KeyCode>, buttons: Vec<GamepadButton>) -> InputState {
    InputState::new(keys, vec![], buttons, vec![], vec![])
}

#[test]
fn or_is_active_on_gamepad_alone() {
    let binding = key(KeyCode::Up).or(pad(0, GamepadButtonType::DPadUp));
    let state = held(
        vec![],
        vec![GamepadButton::new(Gamepad::new(0), GamepadButtonType::DPadUp)],
    );
    assert!(binding.pressed(&state));
    assert!(!binding.just_pressed(&state));
    let idle = held(vec![], vec![]);
    assert!(!binding.pressed(&idle));
}

#[test]
fn and_builds_the_cross_product_row_by_row() {
    let lhs = key(KeyCode::A).or(key(KeyCode::B));
    let rhs = key(KeyCode::X).or(key(KeyCode::Y));
    let both = lhs.and(rhs);
    let chord = |a, b| MultiKey(vec![SingleKey::KeyCode(a), SingleKey::KeyCode(b)]);
    assert_eq!(
        both,
        KeyAssign(vec![
            chord(KeyCode::A, KeyCode::X),
            chord(KeyCode::A, KeyCode::Y),
            chord(KeyCode::B, KeyCode::X),
            chord(KeyCode::B, KeyCode::Y),
        ])
    );
}

#[test]
fn and_is_active_only_when_both_are() {
    let binding = key(KeyCode::LControl).and(key(KeyCode::Plus).or(key(KeyCode::Equals)));
    assert!(!binding.pressed(&held(vec![KeyCode::LControl], vec![])));
    assert!(!binding.pressed(&held(vec![KeyCode::Equals], vec![])));
    assert!(binding.pressed(&held(vec![KeyCode::Equals, KeyCode::LControl], vec![])));
    assert!(binding.pressed(&held(vec![KeyCode::LControl, KeyCode::Plus], vec![])));
}

#[test]
fn chord_fires_on_the_tick_of_its_last_member() {
    let chord = MultiKey(vec![
        SingleKey::KeyCode(KeyCode::LControl),
        SingleKey::KeyCode(KeyCode::R),
    ]);
    let ctrl_only = InputState::new(
        vec![KeyCode::LControl],
        vec![KeyCode::LControl],
        vec![],
        vec![],
        vec![],
    );
    assert!(!chord.pressed(&ctrl_only));
    assert!(!chord.just_pressed(&ctrl_only));
    let r_down = InputState::new(
        vec![KeyCode::LControl, KeyCode::R],
        vec![KeyCode::R],
        vec![],
        vec![],
        vec![],
    );
    assert!(chord.pressed(&r_down));
    assert!(chord.just_pressed(&r_down));
    let both_kept = InputState::new(
        vec![KeyCode::LControl, KeyCode::R],
        vec![],
        vec![],
        vec![],
        vec![],
    );
    assert!(chord.pressed(&both_kept));
    assert!(!chord.just_pressed(&both_kept));
    let fresh_but_partial = InputState::new(
        vec![KeyCode::R],
        vec![KeyCode::R],
        vec![],
        vec![],
        vec![],
    );
    assert!(!chord.just_pressed(&fresh_but_partial));
}

#[test]
fn axis_counts_from_half_travel_and_never_fires() {
    let axis = GamepadAxis::new(Gamepad::new(1), GamepadAxisType::LeftStickX);
    let right = MultiKey(vec![SingleKey::GamepadAxis(axis, GamepadAxisDir::Pos)]);
    let left = MultiKey(vec![SingleKey::GamepadAxis(axis, GamepadAxisDir::Neg)]);
    let at = |v: i32| InputState::new(vec![], vec![], vec![], vec![], vec![(axis, v)]);
    assert!(right.pressed(&at(500)));
    assert!(!right.pressed(&at(499)));
    assert!(right.pressed(&at(1000)));
    assert!(!left.pressed(&at(500)));
    assert!(left.pressed(&at(-500)));
    assert!(!left.pressed(&at(-499)));
    assert!(!right.just_pressed(&at(1000)));
    let none = InputState::new(vec![], vec![], vec![], vec![], vec![]);
    assert!(!right.pressed(&none));
    assert!(!left.pressed(&none));
    assert_eq!(at(700).axis_value(axis), Some(700));
    assert_eq!(none.axis_value(axis), None);
}

#[test]
fn extract_after_insert_gives_the_key_back() {
    let mut binding = key(KeyCode::Escape);
    binding.insert_keycode(KeyCode::Q);
    assert_eq!(binding.extract_keycode(), Some(KeyCode::Q));
    assert_eq!(binding, key(KeyCode::Q));

    let mut binding = pad(0, GamepadButtonType::South);
    binding.insert_keycode(KeyCode::Z);
    assert_eq!(binding.extract_keycode(), Some(KeyCode::Z));
    assert_eq!(
        binding,
        pad(0, GamepadButtonType::South).or(key(KeyCode::Z))
    );
    let east = GamepadButton::new(Gamepad::new(2), GamepadButtonType::East);
    binding.insert_gamepad(east);
    assert_eq!(binding.extract_gamepad(), Some(east));
    assert_eq!(binding.0.len(), 2);
}

#[test]
fn insert_leaves_longer_chords_alone() {
    let chord = MultiKey(vec![
        SingleKey::KeyCode(KeyCode::LControl),
        SingleKey::KeyCode(KeyCode::R),
    ]);
    let lone = MultiKey(vec![SingleKey::KeyCode(KeyCode::A)]);
    let mut binding = KeyAssign(vec![chord.clone(), lone]);
    assert_eq!(binding.extract_keycode(), Some(KeyCode::A));
    assert_eq!(binding.extract_gamepad(), None);
    binding.insert_keycode(KeyCode::B);
    assert_eq!(
        binding,
        KeyAssign(vec![chord, MultiKey(vec![SingleKey::KeyCode(KeyCode::B)])])
    );
}

#[test]
fn empty_chord_is_held_and_empty_binding_is_not() {
    let idle = held(vec![], vec![]);
    assert!(MultiKey(vec![]).pressed(&idle));
    assert!(!MultiKey(vec![]).just_pressed(&idle));
    assert!(!KeyAssign(vec![]).pressed(&idle));
    assert!(!KeyAssign(vec![]).just_pressed(&idle));
    assert!(KeyAssign(vec![MultiKey(vec![])]).pressed(&idle));
    assert_eq!(KeyAssign(vec![]).extract_keycode(), None);
    assert_eq!(KeyAssign::default(), KeyAssign(vec![]));
}

#[test]
fn binding_fires_when_one_chord_fires() {
    let binding = key(KeyCode::Back).or(
        pad(0, GamepadButtonType::LeftTrigger2).and(pad(0, GamepadButtonType::RightTrigger2)),
    );
    let left = GamepadButton::new(Gamepad::new(0), GamepadButtonType::LeftTrigger2);
    let right = GamepadButton::new(Gamepad::new(0), GamepadButtonType::RightTrigger2);
    let one = InputState::new(vec![], vec![], vec![left], vec![left], vec![]);
    assert!(!binding.pressed(&one));
    assert!(!binding.just_pressed(&one));
    let two = InputState::new(vec![], vec![], vec![left, right], vec![right], vec![]);
    assert!(binding.pressed(&two));
    assert!(binding.just_pressed(&two));
    let other_pad = GamepadButton::new(Gamepad::new(1), GamepadButtonType::RightTrigger2);
    let mixed = InputState::new(vec![], vec![], vec![left, other_pad], vec![other_pad], vec![]);
    assert!(!binding.pressed(&mixed));
}
