use meru::config::File;
use meru::config::PersistentState;
use meru::config::RecentFile;
use meru::config::SystemKey;
use meru::config::SystemKeys;
use meru::controller::default_gb_key_config;
use meru::controller::default_gba_key_config;
use meru::controller::KeyConfig;
use meru::hotkey::check_hotkey;
use meru::hotkey::process_hotkey;
use meru::hotkey::AppState;
use meru::hotkey::HotKey;
use meru::hotkey::HotKeyAction;
use meru::hotkey::HotKeyContext;
use meru::hotkey::HotKeys;
use meru::input::InputState;
use meru::key_assign::keycode;
use meru::key_assign::pad_button;
use meru::key_assign::GamepadButtonType;
use meru::key_assign::KeyAssign;
use meru::key_assign::KeyCode;
use meru::key_assign::MultiKey;
use meru::key_assign::Gamepad;
use meru::key_assign::GamepadButton;
use meru::menu::assign_chord;
use meru::menu::commit_capture;
use meru::menu::locate_slot;
use meru::menu::remove_selected;
use meru::menu::rebind_button_gamepad;
use meru::menu::rebind_button_keycode;
use meru::menu::rebind_row_gamepad;
use meru::menu::rebind_row_keycode;
use meru::menu::remove_chord;
use meru::key_assign::SingleKey;

fn recent(path: &str) -> RecentFile {
    RecentFile { path: path.to_string() }
}

fn paths(state: &PersistentState) -> Vec<String> {
    state.recent.iter().map(|r| r.path.clone()).collect()
}

#[test]
fn recent_games_latest_first_and_once() {
    let mut state = PersistentState::default();
    state.add_recent(recent("a.gb"));
    state.add_recent(recent("b.gba"));
    state.add_recent(recent("c.gb"));
    assert_eq!(paths(&state), vec!["c.gb", "b.gba", "a.gb"]);
    state.add_recent(recent("a.gb"));
    assert_eq!(paths(&state), vec!["a.gb", "c.gb", "b.gba"]);
    state.add_recent(recent("a.gb"));
    assert_eq!(paths(&state), vec!["a.gb", "c.gb", "b.gba"]);
}

#[test]
fn recent_games_are_capped_at_twenty() {
    let mut state = PersistentState::default();
    for i in 0..25 {
        state.add_recent(recent(&format!("game{i}")));
    }
    assert_eq!(state.recent.len(), 20);
    assert_eq!(state.recent[0].path, "game24");
    assert_eq!(state.recent[19].path, "game5");
    state.add_recent(recent("game5"));
    assert_eq!(state.recent.len(), 20);
    assert_eq!(state.recent[0].path, "game5");
    assert_eq!(state.recent[19].path, "game6");
}

#[test]
fn controller_input_keeps_names_and_places() {
    let config = KeyConfig {
        controllers: vec![
            vec![
                ("A".to_string(), keycode(KeyCode::X)),
                ("B".to_string(), keycode(KeyCode::Z).or(pad_button(0, GamepadButtonType::South))),
            ],
            vec![],
            vec![("Start".to_string(), KeyAssign(vec![]))],
        ],
    };
    let state = InputState::new(vec![KeyCode::Z], vec![], vec![], vec![], vec![]);
    let data = config.input(&state);
    assert_eq!(
        data.controllers,
        vec![
            vec![("A".to_string(), false), ("B".to_string(), true)],
            vec![],
            vec![("Start".to_string(), false)],
        ]
    );
}

#[test]
fn hotkeys_that_fire() {
    let table = HotKeys::default();
    let state = InputState::new(
        vec![KeyCode::LControl, KeyCode::S, KeyCode::R, KeyCode::Tab],
        vec![KeyCode::S],
        vec![],
        vec![],
        vec![],
    );
    assert_eq!(check_hotkey(&table, &state), (vec![HotKey::StateSave], true));
    let state = InputState::new(
        vec![KeyCode::S, KeyCode::R, KeyCode::LControl],
        vec![KeyCode::S, KeyCode::LControl],
        vec![],
        vec![],
        vec![],
    );
    assert_eq!(
        check_hotkey(&table, &state),
        (vec![HotKey::Reset, HotKey::StateSave], false)
    );
    let idle = InputState::new(vec![], vec![], vec![], vec![], vec![]);
    assert_eq!(check_hotkey(&table, &idle), (vec![], false));
}

#[test]
fn what_hotkeys_do() {
    let running = HotKeyContext {
        app_state: AppState::Running,
        emulator_loaded: true,
        state_save_slot: 3,
        scaling: 2,
    };
    assert_eq!(process_hotkey(HotKey::Reset, &running), HotKeyAction::ResetMachine);
    assert_eq!(process_hotkey(HotKey::Turbo, &running), HotKeyAction::Nothing);
    assert_eq!(process_hotkey(HotKey::StateSave, &running), HotKeyAction::SaveState(3));
    assert_eq!(process_hotkey(HotKey::StateLoad, &running), HotKeyAction::LoadState(3));
    assert_eq!(process_hotkey(HotKey::NextSlot, &running), HotKeyAction::SelectSlot(4));
    assert_eq!(process_hotkey(HotKey::PrevSlot, &running), HotKeyAction::SelectSlot(2));
    assert_eq!(process_hotkey(HotKey::Rewind, &running), HotKeyAction::StartRewind);
    assert_eq!(process_hotkey(HotKey::Menu, &running), HotKeyAction::Show(AppState::Menu));
    assert_eq!(process_hotkey(HotKey::FullScreen, &running), HotKeyAction::ToggleFullscreen);
    assert_eq!(process_hotkey(HotKey::ScaleUp, &running), HotKeyAction::Rescale(3));
    assert_eq!(process_hotkey(HotKey::ScaleDown, &running), HotKeyAction::Rescale(1));

    let menu = HotKeyContext {
        app_state: AppState::Menu,
        state_save_slot: 0,
        scaling: 1,
        ..running
    };
    assert_eq!(process_hotkey(HotKey::Menu, &menu), HotKeyAction::Show(AppState::Running));
    assert_eq!(process_hotkey(HotKey::Rewind, &menu), HotKeyAction::Nothing);
    assert_eq!(process_hotkey(HotKey::PrevSlot, &menu), HotKeyAction::SelectSlot(0));
    assert_eq!(process_hotkey(HotKey::ScaleDown, &menu), HotKeyAction::Rescale(1));

    let empty = HotKeyContext { emulator_loaded: false, ..menu };
    assert_eq!(process_hotkey(HotKey::Menu, &empty), HotKeyAction::Nothing);
    assert_eq!(process_hotkey(HotKey::Reset, &empty), HotKeyAction::Nothing);
    assert_eq!(process_hotkey(HotKey::StateSave, &empty), HotKeyAction::Nothing);
    assert_eq!(process_hotkey(HotKey::StateLoad, &empty), HotKeyAction::Nothing);

    let rewinding = HotKeyContext { app_state: AppState::Rewinding, ..running };
    assert_eq!(process_hotkey(HotKey::Menu, &rewinding), HotKeyAction::Nothing);
    assert_eq!(process_hotkey(HotKey::Rewind, &rewinding), HotKeyAction::Nothing);
}

#[test]
fn chords_go_into_slots() {
    let chord = |k| MultiKey(vec![SingleKey::KeyCode(k)]);
    let mut binding = KeyAssign(vec![chord(KeyCode::A), chord(KeyCode::B)]);
    assert!(assign_chord(&mut binding, 1, chord(KeyCode::C)));
    assert_eq!(binding, KeyAssign(vec![chord(KeyCode::A), chord(KeyCode::C)]));
    assert!(assign_chord(&mut binding, 2, chord(KeyCode::D)));
    assert_eq!(
        binding,
        KeyAssign(vec![chord(KeyCode::A), chord(KeyCode::C), chord(KeyCode::D)])
    );
    assert!(!assign_chord(&mut binding, 4, chord(KeyCode::E)));
    assert_eq!(binding.0.len(), 3);
    assert!(remove_chord(&mut binding, 0));
    assert_eq!(binding, KeyAssign(vec![chord(KeyCode::C), chord(KeyCode::D)]));
    assert!(!remove_chord(&mut binding, 2));
    assert_eq!(binding.0.len(), 2);
}

#[test]
fn selected_row_is_rebound_on_a_press() {
    let rows = SystemKey::all();
    assert_eq!(rows.len(), 6);
    let mut table = SystemKeys::default();
    // No row selected, or nothing pressed: nothing happens.
    assert_eq!(rebind_row_keycode(&mut table, &rows, 0, &vec![KeyCode::W]), 0);
    assert_eq!(rebind_row_keycode(&mut table, &rows, 7, &vec![KeyCode::W]), 7);
    assert_eq!(rebind_row_keycode(&mut table, &rows, 1, &vec![]), 1);
    assert_eq!(table.0, SystemKeys::default().0);
    // Row 1 is Up; the first key that went down is taken.
    assert_eq!(rebind_row_keycode(&mut table, &rows, 1, &vec![KeyCode::W, KeyCode::Q]), 2);
    assert_eq!(
        table.key_assign(&SystemKey::Up),
        Some(&keycode(KeyCode::W).or(pad_button(0, GamepadButtonType::DPadUp)))
    );
    let north = GamepadButton::new(Gamepad::new(1), GamepadButtonType::North);
    assert_eq!(rebind_row_gamepad(&mut table, &rows, 6, &vec![north]), 7);
    assert_eq!(
        table.key_assign(&SystemKey::Cancel).unwrap().extract_gamepad(),
        Some(north)
    );
    assert_eq!(
        table.key_assign(&SystemKey::Cancel).unwrap().extract_keycode(),
        Some(KeyCode::Back)
    );
}

#[test]
fn selected_button_is_rebound_on_a_press() {
    let mut buttons = vec![
        ("A".to_string(), keycode(KeyCode::X)),
        ("B".to_string(), KeyAssign(vec![])),
    ];
    assert_eq!(rebind_button_keycode(&mut buttons, 0, &vec![KeyCode::C]), 0);
    assert_eq!(rebind_button_keycode(&mut buttons, 3, &vec![KeyCode::C]), 3);
    assert_eq!(rebind_button_keycode(&mut buttons, 2, &vec![]), 2);
    assert_eq!(rebind_button_keycode(&mut buttons, 2, &vec![KeyCode::C]), 3);
    let south = GamepadButton::new(Gamepad::new(0), GamepadButtonType::South);
    assert_eq!(rebind_button_gamepad(&mut buttons, 1, &vec![south]), 2);
    assert_eq!(
        buttons,
        vec![
            ("A".to_string(), keycode(KeyCode::X).or(pad_button(0, GamepadButtonType::South))),
            ("B".to_string(), keycode(KeyCode::C)),
        ]
    );
}

#[test]
fn running_numbers_of_the_hotkey_slots() {
    let table = HotKeys::default();
    assert_eq!(locate_slot(&table, 0), None);
    // Reset has one chord and one slot to add.
    assert_eq!(locate_slot(&table, 1), Some((HotKey::Reset, 0)));
    assert_eq!(locate_slot(&table, 2), Some((HotKey::Reset, 1)));
    // Turbo has two chords.
    assert_eq!(locate_slot(&table, 3), Some((HotKey::Turbo, 0)));
    assert_eq!(locate_slot(&table, 4), Some((HotKey::Turbo, 1)));
    assert_eq!(locate_slot(&table, 5), Some((HotKey::Turbo, 2)));
    assert_eq!(locate_slot(&table, 6), Some((HotKey::StateSave, 0)));
    // 11 hotkeys with 14 chords in all make 25 slots.
    assert_eq!(locate_slot(&table, 24), Some((HotKey::ScaleDown, 0)));
    assert_eq!(locate_slot(&table, 25), Some((HotKey::ScaleDown, 1)));
    assert_eq!(locate_slot(&table, 26), None);
    assert_eq!(locate_slot(&table, usize::MAX), None);
    // A hotkey without an entry has the slot to add alone.
    let sparse: HotKeys = meru::input::KeyConfig(vec![(HotKey::Menu, keycode(KeyCode::Escape))]);
    assert_eq!(locate_slot(&sparse, 1), Some((HotKey::Reset, 0)));
    assert_eq!(locate_slot(&sparse, 7), Some((HotKey::Rewind, 0)));
    assert_eq!(locate_slot(&sparse, 8), Some((HotKey::Menu, 0)));
    assert_eq!(locate_slot(&sparse, 9), Some((HotKey::Menu, 1)));
    assert_eq!(locate_slot(&sparse, 10), Some((HotKey::FullScreen, 0)));
    assert_eq!(locate_slot(&sparse, 12), Some((HotKey::ScaleDown, 0)));
    assert_eq!(locate_slot(&sparse, 13), None);
}

#[test]
fn captured_chord_goes_into_the_selected_slot() {
    let chord = |k| MultiKey(vec![SingleKey::KeyCode(k)]);
    let mut table = HotKeys::default();
    assert_eq!(commit_capture(&mut table, 0, chord(KeyCode::F1)), 0);
    assert_eq!(commit_capture(&mut table, 26, chord(KeyCode::F1)), 26);
    assert_eq!(table, HotKeys::default());
    // Slot 4 is the second chord of Turbo, slot 5 its slot to add.
    assert_eq!(commit_capture(&mut table, 4, chord(KeyCode::F1)), 0);
    assert_eq!(commit_capture(&mut table, 5, chord(KeyCode::F2)), 0);
    assert_eq!(
        table.key_assign(&HotKey::Turbo),
        Some(&KeyAssign(vec![chord(KeyCode::Tab), chord(KeyCode::F1), chord(KeyCode::F2)]))
    );
    assert_eq!(table.0.len(), 11);
    // Turbo has three chords now: slot 7 is StateSave.
    assert_eq!(locate_slot(&table, 7), Some((HotKey::StateSave, 0)));
    assert!(remove_selected(&mut table, 3));
    assert_eq!(
        table.key_assign(&HotKey::Turbo),
        Some(&KeyAssign(vec![chord(KeyCode::F1), chord(KeyCode::F2)]))
    );
    // The slot to add holds no chord to take out.
    assert!(!remove_selected(&mut table, 5));
    assert!(!remove_selected(&mut table, 0));
    let mut sparse: HotKeys = meru::input::KeyConfig(vec![]);
    assert_eq!(commit_capture(&mut sparse, 7, chord(KeyCode::F9)), 0);
    assert_eq!(sparse, meru::input::KeyConfig(vec![(HotKey::Rewind, keycode(KeyCode::F9))]));
    assert!(!remove_selected(&mut sparse, 1));
}

#[test]
fn first_bindings_of_the_cores() {
    let gb = default_gb_key_config();
    assert_eq!(gb.controllers.len(), 1);
    let names: Vec<&str> = gb.controllers[0].iter().map(|e| e.0.as_str()).collect();
    assert_eq!(names, vec!["up", "down", "left", "right", "a", "b", "start", "select"]);
    assert_eq!(
        gb.controllers[0][4].1,
        keycode(KeyCode::X).or(pad_button(0, GamepadButtonType::South))
    );
    assert_eq!(
        gb.controllers[0][7].1,
        keycode(KeyCode::RShift).or(pad_button(0, GamepadButtonType::Select))
    );
    let gba = default_gba_key_config();
    assert_eq!(gba.controllers.len(), 1);
    let names: Vec<&str> = gba.controllers[0].iter().map(|e| e.0.as_str()).collect();
    assert_eq!(
        names,
        vec!["up", "down", "left", "right", "a", "b", "l", "r", "start", "select"]
    );
    assert_eq!(
        gba.controllers[0][6].1,
        keycode(KeyCode::A).or(pad_button(0, GamepadButtonType::LeftTrigger))
    );
    assert_eq!(
        gba.controllers[0][7].1,
        keycode(KeyCode::S).or(pad_button(0, GamepadButtonType::RightTrigger))
    );
    assert_eq!(gba.controllers[0][..6], gb.controllers[0][..6]);
    assert_ne!(gb, gba);
    let state = InputState::new(vec![KeyCode::X, KeyCode::S], vec![], vec![], vec![], vec![]);
    let data = gba.input(&state);
    let held: Vec<&str> = data.controllers[0]
        .iter()
        .filter(|e| e.1)
        .map(|e| e.0.as_str())
        .collect();
    assert_eq!(held, vec!["a", "r"]);
}

#[test]
fn file_keeps_its_path() {
    let file = File::new("roms/game.gb".to_string(), vec![1, 2, 3]);
    assert_eq!(file.path(), "roms/game.gb");
    assert_eq!(file.clone(), file);
    assert_eq!(File::new(String::new(), vec![]).path(), "");
}

#[test]
fn tables_compare_and_clone() {
    let table = SystemKeys::default();
    let mut other = table.clone();
    assert!(table == other);
    other.insert_keycode(&SystemKey::Up, KeyCode::W);
    assert!(table != other);
}
