use meru::config::SystemKey;
use meru::config::SystemKeys;
use meru::hotkey::HotKey;
use meru::hotkey::HotKeys;
use meru::input::InputState;
use meru::input::KeyConfig;
use meru::key_assign::keycode;
use meru::key_assign::pad_button;
use meru::key_assign::Gamepad;
use meru::key_assign::GamepadButton;
use meru::key_assign::GamepadButtonType;
use meru::key_assign::KeyAssign;
use meru::key_assign::KeyCode;
use meru::key_assign::MultiKey;
use meru::key_assign::SingleKey;

fn pad0(button: GamepadButtonType) -> GamepadButton {
    GamepadButton::new(Gamepad::new(0), button)
}

#[test]
fn default_system_keys_are_key_or_pad() {
    let table = SystemKeys::default();
    let names: Vec<SystemKey> = table.0.iter().map(|e| e.0).collect();
    assert_eq!(
        names,
        vec![
            SystemKey::Up,
            SystemKey::Down,
            SystemKey::Left,
            SystemKey::Right,
            SystemKey::Confirm,
            SystemKey::Cancel,
        ]
    );
    assert_eq!(
        table.key_assign(&SystemKey::Up),
        Some(&keycode(KeyCode::Up).or(pad_button(0, GamepadButtonType::DPadUp)))
    );
    assert_eq!(
        table.key_assign(&SystemKey::Confirm),
        Some(&keycode(KeyCode::Return).or(pad_button(0, GamepadButtonType::East)))
    );
    assert_eq!(
        table.key_assign(&SystemKey::Cancel),
        Some(&keycode(KeyCode::Back).or(pad_button(0, GamepadButtonType::South)))
    );
}

#[test]
fn up_is_active_on_the_directional_pad_alone() {
    let table = SystemKeys::default();
    let state = InputState::new(
        vec![],
        vec![],
        vec![pad0(GamepadButtonType::DPadUp)],
        vec![pad0(GamepadButtonType::DPadUp)],
        vec![],
    );
    assert!(table.pressed(&SystemKey::Up, &state));
    assert!(table.just_pressed(&SystemKey::Up, &state));
    assert!(!table.pressed(&SystemKey::Down, &state));
    let all = table.evaluate_all(&state);
    assert_eq!(all.len(), 6);
    assert_eq!(all[0], (SystemKey::Up, true, true));
    for entry in &all[1..] {
        assert_eq!((entry.1, entry.2), (false, false));
    }
}

#[test]
fn default_hotkeys() {
    let table = HotKeys::default();
    assert_eq!(table.0.len(), 11);
    let pair = |a, b| KeyAssign(vec![MultiKey(vec![SingleKey::KeyCode(a), SingleKey::KeyCode(b)])]);
    assert_eq!(table.key_assign(&HotKey::Reset), Some(&pair(KeyCode::LControl, KeyCode::R)));
    assert_eq!(table.key_assign(&HotKey::Menu), Some(&keycode(KeyCode::Escape)));
    assert_eq!(
        table.key_assign(&HotKey::Rewind),
        Some(&KeyAssign(vec![
            MultiKey(vec![SingleKey::KeyCode(KeyCode::Back)]),
            MultiKey(vec![
                SingleKey::GamepadButton(pad0(GamepadButtonType::LeftTrigger2)),
                SingleKey::GamepadButton(pad0(GamepadButtonType::RightTrigger2)),
            ]),
        ]))
    );
    assert_eq!(
        table.key_assign(&HotKey::ScaleUp),
        Some(&KeyAssign(vec![
            MultiKey(vec![
                SingleKey::KeyCode(KeyCode::LControl),
                SingleKey::KeyCode(KeyCode::Plus),
            ]),
            MultiKey(vec![
                SingleKey::KeyCode(KeyCode::LControl),
                SingleKey::KeyCode(KeyCode::Equals),
            ]),
        ]))
    );
    let names: Vec<HotKey> = table.0.iter().map(|e| e.0).collect();
    assert_eq!(names, HotKey::all());
    assert_eq!(HotKey::Rewind.name(), "Start Rewindng");
    assert_eq!(SystemKey::Confirm.name(), "Ok");
}

#[test]
fn rewind_fires_when_the_second_trigger_goes_down() {
    let table = HotKeys::default();
    let state = InputState::new(
        vec![],
        vec![],
        vec![pad0(GamepadButtonType::LeftTrigger2), pad0(GamepadButtonType::RightTrigger2)],
        vec![pad0(GamepadButtonType::RightTrigger2)],
        vec![],
    );
    assert!(table.just_pressed(&HotKey::Rewind, &state));
    assert!(table.pressed(&HotKey::Turbo, &state));
    assert!(!table.just_pressed(&HotKey::Turbo, &state));
}

#[test]
fn table_rebinding() {
    let mut table: KeyConfig<SystemKey> = KeyConfig(vec![]);
    assert_eq!(table.key_assign(&SystemKey::Left), None);
    let idle = InputState::new(vec![], vec![], vec![], vec![], vec![]);
    assert!(!table.pressed(&SystemKey::Left, &idle));
    table.insert_keycode(&SystemKey::Left, KeyCode::A);
    assert_eq!(table.key_assign(&SystemKey::Left), Some(&keycode(KeyCode::A)));
    table.insert_gamepad(&SystemKey::Left, pad0(GamepadButtonType::West));
    table.insert_keycode(&SystemKey::Left, KeyCode::H);
    assert_eq!(
        table.key_assign(&SystemKey::Left),
        Some(&keycode(KeyCode::H).or(pad_button(0, GamepadButtonType::West)))
    );
    if let Some(binding) = table.key_assign_mut(&SystemKey::Left) {
        *binding = keycode(KeyCode::J);
    }
    assert_eq!(table.key_assign(&SystemKey::Left), Some(&keycode(KeyCode::J)));
    assert!(table.key_assign_mut(&SystemKey::Right).is_none());
    table.reset_to_defaults();
    assert_eq!(table.0.len(), 6);
    assert_eq!(
        table.key_assign(&SystemKey::Left),
        Some(&keycode(KeyCode::Left).or(pad_button(0, GamepadButtonType::DPadLeft)))
    );
}
