use meru::color::Color;
use meru::color::ParseColorError;
use meru::key_assign::Gamepad;
use meru::key_assign::GamepadAxis;
use meru::key_assign::GamepadAxisDir;
use meru::key_assign::GamepadAxisType;
use meru::key_assign::GamepadButton;
use meru::key_assign::GamepadButtonType;
use meru::key_assign::KeyCode;
use meru::key_assign::MultiKey;
use meru::key_assign::SingleKey;
use meru::label::decimal_string;

#[test]
fn key_names_are_the_names_of_their_codes() {
    assert_eq!(KeyCode::LControl.name(), "LControl");
    assert_eq!(KeyCode::Key1.name(), "Key1");
    assert_eq!(KeyCode::NumpadAdd.name(), "NumpadAdd");
    assert_eq!(KeyCode::Cut.name(), "Cut");
    assert_eq!(KeyCode::Up.name(), format!("{:?}", KeyCode::Up));
    assert_eq!(KeyCode::WebSearch.name(), format!("{:?}", KeyCode::WebSearch));
}

#[test]
fn button_and_axis_names() {
    assert_eq!(GamepadButtonType::South.name(), "S");
    assert_eq!(GamepadButtonType::LeftTrigger.name(), "LB");
    assert_eq!(GamepadButtonType::LeftTrigger2.name(), "LT");
    assert_eq!(GamepadButtonType::RightTrigger.name(), "RB");
    assert_eq!(GamepadButtonType::RightTrigger2.name(), "RT");
    assert_eq!(GamepadButtonType::LeftThumb.name(), "LS");
    assert_eq!(GamepadButtonType::RightThumb.name(), "RS");
    assert_eq!(GamepadButtonType::DPadLeft.name(), "DPadLeft");
    assert_eq!(GamepadAxisType::LeftStickX.name(), "LX");
    assert_eq!(GamepadAxisType::RightZ.name(), "RZ");
    assert_eq!(GamepadAxisDir::Pos.name(), "+");
    assert_eq!(GamepadAxisDir::Neg.name(), "-");
}

#[test]
fn numbers_in_decimal() {
    assert_eq!(decimal_string(0), "0");
    assert_eq!(decimal_string(7), "7");
    assert_eq!(decimal_string(10), "10");
    assert_eq!(decimal_string(4096), "4096");
    assert_eq!(decimal_string(usize::MAX), usize::MAX.to_string());
}

#[test]
fn members_and_chords_as_text() {
    let button = GamepadButton::new(Gamepad::new(0), GamepadButtonType::DPadUp);
    assert_eq!(button.to_string(), "Pad0.DPadUp");
    let axis = GamepadAxis::new(Gamepad::new(12), GamepadAxisType::LeftStickY);
    assert_eq!(axis.to_string(), "Pad12.LY");
    assert_eq!(SingleKey::GamepadAxis(axis, GamepadAxisDir::Neg).to_string(), "Pad12.LY-");
    assert_eq!(SingleKey::KeyCode(KeyCode::Escape).to_string(), "Escape");
    assert_eq!(MultiKey(vec![]).to_string(), "");
    assert_eq!(MultiKey(vec![SingleKey::KeyCode(KeyCode::A)]).to_string(), "A");
    assert_eq!(
        MultiKey(vec![
            SingleKey::KeyCode(KeyCode::LControl),
            SingleKey::KeyCode(KeyCode::R),
            SingleKey::GamepadButton(button),
        ])
        .to_string(),
        "LControl+R+Pad0.DPadUp"
    );
}

#[test]
fn color_codes() {
    assert_eq!(Color::try_from("#FF8000".to_string()), Ok(Color::new(255, 128, 0)));
    assert_eq!(Color::try_from("#0a0B0c".to_string()), Ok(Color::new(10, 11, 12)));
    assert_eq!(Color::parse(b"#ffffff"), Ok(Color::new(255, 255, 255)));
    assert_eq!(Color::new(255, 128, 0).to_string(), "#FF8000");
    assert_eq!(Color::new(1, 2, 171).to_string(), "#0102AB");
    assert_eq!(Color::default(), Color::new(0, 0, 0));
    let bad_codes = [
        "",
        "#",
        "FF8000",
        "#FF800",
        "#FF80000",
        "#GG8000",
        "#FF 000",
        "0FF8000",
        "#+F8000",
        "\u{e9}12345",
    ];
    for bad in bad_codes {
        assert_eq!(Color::try_from(bad.to_string()), Err(ParseColorError::InvalidFormat));
    }
    assert_eq!(
        ParseColorError::InvalidFormat.to_string(),
        "Color string must be hex color code: `#RRGGBB`"
    );
}

#[test]
fn color_code_round_trip() {
    for v in [0u8, 9, 10, 15, 16, 127, 200, 255] {
        let c = Color::new(v, 255 - v, v / 2);
        assert_eq!(Color::try_from(c.to_string()), Ok(c));
    }
}
