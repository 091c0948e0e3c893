use crate::key_assign::GamepadAxis;
use crate::key_assign::GamepadAxisDir;
use crate::key_assign::GamepadAxisType;
use crate::key_assign::GamepadButton;
use crate::key_assign::GamepadButtonType;
use crate::key_assign::KeyCode;
use crate::key_assign::MultiKey;
use crate::key_assign::SingleKey;
use vstd::prelude::*;
use vstd::string::StringExecFns;

verus! {

impl KeyCode {
    /// The name of the key as it is shown: the name of its code.
    pub open spec fn label(self) -> Seq<char> {
        match self {
            KeyCode::Key1 => "Key1"@,
            KeyCode::Key2 => "Key2"@,
            KeyCode::Key3 => "Key3"@,
            KeyCode::Key4 => "Key4"@,
            KeyCode::Key5 => "Key5"@,
            KeyCode::Key6 => "Key6"@,
            KeyCode::Key7 => "Key7"@,
            KeyCode::Key8 => "Key8"@,
            KeyCode::Key9 => "Key9"@,
            KeyCode::Key0 => "Key0"@,
            KeyCode::A => "A"@,
            KeyCode::B => "B"@,
            KeyCode::C => "C"@,
            KeyCode::D => "D"@,
            KeyCode::E => "E"@,
            KeyCode::F => "F"@,
            KeyCode::G => "G"@,
            KeyCode::H => "H"@,
            KeyCode::I => "I"@,
            KeyCode::J => "J"@,
            KeyCode::K => "K"@,
            KeyCode::L => "L"@,
            KeyCode::M => "M"@,
            KeyCode::N => "N"@,
            KeyCode::O => "O"@,
            KeyCode::P => "P"@,
            KeyCode::Q => "Q"@,
            KeyCode::R => "R"@,
            KeyCode::S => "S"@,
            KeyCode::T => "T"@,
            KeyCode::U => "U"@,
            KeyCode::V => "V"@,
            KeyCode::W => "W"@,
            KeyCode::X => "X"@,
            KeyCode::Y => "Y"@,
            KeyCode::Z => "Z"@,
            KeyCode::Escape => "Escape"@,
            KeyCode::F1 => "F1"@,
            KeyCode::F2 => "F2"@,
            KeyCode::F3 => "F3"@,
            KeyCode::F4 => "F4"@,
            KeyCode::F5 => "F5"@,
            KeyCode::F6 => "F6"@,
            KeyCode::F7 => "F7"@,
            KeyCode::F8 => "F8"@,
            KeyCode::F9 => "F9"@,
            KeyCode::F10 => "F10"@,
            KeyCode::F11 => "F11"@,
            KeyCode::F12 => "F12"@,
            KeyCode::F13 => "F13"@,
            KeyCode::F14 => "F14"@,
            KeyCode::F15 => "F15"@,
            KeyCode::F16 => "F16"@,
            KeyCode::F17 => "F17"@,
            KeyCode::F18 => "F18"@,
            KeyCode::F19 => "F19"@,
            KeyCode::F20 => "F20"@,
            KeyCode::F21 => "F21"@,
            KeyCode::F22 => "F22"@,
            KeyCode::F23 => "F23"@,
            KeyCode::F24 => "F24"@,
            KeyCode::Snapshot => "Snapshot"@,
            KeyCode::Scroll => "Scroll"@,
            KeyCode::Pause => "Pause"@,
            KeyCode::Insert => "Insert"@,
            KeyCode::Home => "Home"@,
            KeyCode::Delete => "Delete"@,
            KeyCode::End => "End"@,
            KeyCode::PageDown => "PageDown"@,
            KeyCode::PageUp => "PageUp"@,
            KeyCode::Left => "Left"@,
            KeyCode::Up => "Up"@,
            KeyCode::Right => "Right"@,
            KeyCode::Down => "Down"@,
            KeyCode::Back => "Back"@,
            KeyCode::Return => "Return"@,
            KeyCode::Space => "Space"@,
            KeyCode::Compose => "Compose"@,
            KeyCode::Caret => "Caret"@,
            KeyCode::Numlock => "Numlock"@,
            KeyCode::Numpad0 => "Numpad0"@,
            KeyCode::Numpad1 => "Numpad1"@,
            KeyCode::Numpad2 => "Numpad2"@,
            KeyCode::Numpad3 => "Numpad3"@,
            KeyCode::Numpad4 => "Numpad4"@,
            KeyCode::Numpad5 => "Numpad5"@,
            KeyCode::Numpad6 => "Numpad6"@,
            KeyCode::Numpad7 => "Numpad7"@,
            KeyCode::Numpad8 => "Numpad8"@,
            KeyCode::Numpad9 => "Numpad9"@,
            KeyCode::AbntC1 => "AbntC1"@,
            KeyCode::AbntC2 => "AbntC2"@,
            KeyCode::NumpadAdd => "NumpadAdd"@,
            KeyCode::Apostrophe => "Apostrophe"@,
            KeyCode::Apps => "Apps"@,
            KeyCode::Asterisk => "Asterisk"@,
            KeyCode::Plus => "Plus"@,
            KeyCode::At => "At"@,
            KeyCode::Ax => "Ax"@,
            KeyCode::Backslash => "Backslash"@,
            KeyCode::Calculator => "Calculator"@,
            KeyCode::Capital => "Capital"@,
            KeyCode::Colon => "Colon"@,
            KeyCode::Comma => "Comma"@,
            KeyCode::Convert => "Convert"@,
            KeyCode::NumpadDecimal => "NumpadDecimal"@,
            KeyCode::NumpadDivide => "NumpadDivide"@,
            KeyCode::Equals => "Equals"@,
            KeyCode::Grave => "Grave"@,
            KeyCode::Kana => "Kana"@,
            KeyCode::Kanji => "Kanji"@,
            KeyCode::LAlt => "LAlt"@,
            KeyCode::LBracket => "LBracket"@,
            KeyCode::LControl => "LControl"@,
            KeyCode::LShift => "LShift"@,
            KeyCode::LWin => "LWin"@,
            KeyCode::Mail => "Mail"@,
            KeyCode::MediaSelect => "MediaSelect"@,
            KeyCode::MediaStop => "MediaStop"@,
            KeyCode::Minus => "Minus"@,
            KeyCode::NumpadMultiply => "NumpadMultiply"@,
            KeyCode::Mute => "Mute"@,
            KeyCode::MyComputer => "MyComputer"@,
            KeyCode::NavigateForward => "NavigateForward"@,
            KeyCode::NavigateBackward => "NavigateBackward"@,
            KeyCode::NextTrack => "NextTrack"@,
            KeyCode::NoConvert => "NoConvert"@,
            KeyCode::NumpadComma => "NumpadComma"@,
            KeyCode::NumpadEnter => "NumpadEnter"@,
            KeyCode::NumpadEquals => "NumpadEquals"@,
            KeyCode::Oem102 => "Oem102"@,
            KeyCode::Period => "Period"@,
            KeyCode::PlayPause => "PlayPause"@,
            KeyCode::Power => "Power"@,
            KeyCode::PrevTrack => "PrevTrack"@,
            KeyCode::RAlt => "RAlt"@,
            KeyCode::RBracket => "RBracket"@,
            KeyCode::RControl => "RControl"@,
            KeyCode::RShift => "RShift"@,
            KeyCode::RWin => "RWin"@,
            KeyCode::Semicolon => "Semicolon"@,
            KeyCode::Slash => "Slash"@,
            KeyCode::Sleep => "Sleep"@,
            KeyCode::Stop => "Stop"@,
            KeyCode::NumpadSubtract => "NumpadSubtract"@,
            KeyCode::Sysrq => "Sysrq"@,
            KeyCode::Tab => "Tab"@,
            KeyCode::Underline => "Underline"@,
            KeyCode::Unlabeled => "Unlabeled"@,
            KeyCode::VolumeDown => "VolumeDown"@,
            KeyCode::VolumeUp => "VolumeUp"@,
            KeyCode::Wake => "Wake"@,
            KeyCode::WebBack => "WebBack"@,
            KeyCode::WebFavorites => "WebFavorites"@,
            KeyCode::WebForward => "WebForward"@,
            KeyCode::WebHome => "WebHome"@,
            KeyCode::WebRefresh => "WebRefresh"@,
            KeyCode::WebSearch => "WebSearch"@,
            KeyCode::WebStop => "WebStop"@,
            KeyCode::Yen => "Yen"@,
            KeyCode::Copy => "Copy"@,
            KeyCode::Paste => "Paste"@,
            KeyCode::Cut => "Cut"@,
        }
    }

    /// The name of the key as it is shown: the name of its code.
    pub fn name(&self) -> (r: &'static str)
        ensures
            r@ == self.label(),
    {
        match self {
            KeyCode::Key1 => "Key1",
            KeyCode::Key2 => "Key2",
            KeyCode::Key3 => "Key3",
            KeyCode::Key4 => "Key4",
            KeyCode::Key5 => "Key5",
            KeyCode::Key6 => "Key6",
            KeyCode::Key7 => "Key7",
            KeyCode::Key8 => "Key8",
            KeyCode::Key9 => "Key9",
            KeyCode::Key0 => "Key0",
            KeyCode::A => "A",
            KeyCode::B => "B",
            KeyCode::C => "C",
            KeyCode::D => "D",
            KeyCode::E => "E",
            KeyCode::F => "F",
            KeyCode::G => "G",
            KeyCode::H => "H",
            KeyCode::I => "I",
            KeyCode::J => "J",
            KeyCode::K => "K",
            KeyCode::L => "L",
            KeyCode::M => "M",
            KeyCode::N => "N",
            KeyCode::O => "O",
            KeyCode::P => "P",
            KeyCode::Q => "Q",
            KeyCode::R => "R",
            KeyCode::S => "S",
            KeyCode::T => "T",
            KeyCode::U => "U",
            KeyCode::V => "V",
            KeyCode::W => "W",
            KeyCode::X => "X",
            KeyCode::Y => "Y",
            KeyCode::Z => "Z",
            KeyCode::Escape => "Escape",
            KeyCode::F1 => "F1",
            KeyCode::F2 => "F2",
            KeyCode::F3 => "F3",
            KeyCode::F4 => "F4",
            KeyCode::F5 => "F5",
            KeyCode::F6 => "F6",
            KeyCode::F7 => "F7",
            KeyCode::F8 => "F8",
            KeyCode::F9 => "F9",
            KeyCode::F10 => "F10",
            KeyCode::F11 => "F11",
            KeyCode::F12 => "F12",
            KeyCode::F13 => "F13",
            KeyCode::F14 => "F14",
            KeyCode::F15 => "F15",
            KeyCode::F16 => "F16",
            KeyCode::F17 => "F17",
            KeyCode::F18 => "F18",
            KeyCode::F19 => "F19",
            KeyCode::F20 => "F20",
            KeyCode::F21 => "F21",
            KeyCode::F22 => "F22",
            KeyCode::F23 => "F23",
            KeyCode::F24 => "F24",
            KeyCode::Snapshot => "Snapshot",
            KeyCode::Scroll => "Scroll",
            KeyCode::Pause => "Pause",
            KeyCode::Insert => "Insert",
            KeyCode::Home => "Home",
            KeyCode::Delete => "Delete",
            KeyCode::End => "End",
            KeyCode::PageDown => "PageDown",
            KeyCode::PageUp => "PageUp",
            KeyCode::Left => "Left",
            KeyCode::Up => "Up",
            KeyCode::Right => "Right",
            KeyCode::Down => "Down",
            KeyCode::Back => "Back",
            KeyCode::Return => "Return",
            KeyCode::Space => "Space",
            KeyCode::Compose => "Compose",
            KeyCode::Caret => "Caret",
            KeyCode::Numlock => "Numlock",
            KeyCode::Numpad0 => "Numpad0",
            KeyCode::Numpad1 => "Numpad1",
            KeyCode::Numpad2 => "Numpad2",
            KeyCode::Numpad3 => "Numpad3",
            KeyCode::Numpad4 => "Numpad4",
            KeyCode::Numpad5 => "Numpad5",
            KeyCode::Numpad6 => "Numpad6",
            KeyCode::Numpad7 => "Numpad7",
            KeyCode::Numpad8 => "Numpad8",
            KeyCode::Numpad9 => "Numpad9",
            KeyCode::AbntC1 => "AbntC1",
            KeyCode::AbntC2 => "AbntC2",
            KeyCode::NumpadAdd => "NumpadAdd",
            KeyCode::Apostrophe => "Apostrophe",
            KeyCode::Apps => "Apps",
            KeyCode::Asterisk => "Asterisk",
            KeyCode::Plus => "Plus",
            KeyCode::At => "At",
            KeyCode::Ax => "Ax",
            KeyCode::Backslash => "Backslash",
            KeyCode::Calculator => "Calculator",
            KeyCode::Capital => "Capital",
            KeyCode::Colon => "Colon",
            KeyCode::Comma => "Comma",
            KeyCode::Convert => "Convert",
            KeyCode::NumpadDecimal => "NumpadDecimal",
            KeyCode::NumpadDivide => "NumpadDivide",
            KeyCode::Equals => "Equals",
            KeyCode::Grave => "Grave",
            KeyCode::Kana => "Kana",
            KeyCode::Kanji => "Kanji",
            KeyCode::LAlt => "LAlt",
            KeyCode::LBracket => "LBracket",
            KeyCode::LControl => "LControl",
            KeyCode::LShift => "LShift",
            KeyCode::LWin => "LWin",
            KeyCode::Mail => "Mail",
            KeyCode::MediaSelect => "MediaSelect",
            KeyCode::MediaStop => "MediaStop",
            KeyCode::Minus => "Minus",
            KeyCode::NumpadMultiply => "NumpadMultiply",
            KeyCode::Mute => "Mute",
            KeyCode::MyComputer => "MyComputer",
            KeyCode::NavigateForward => "NavigateForward",
            KeyCode::NavigateBackward => "NavigateBackward",
            KeyCode::NextTrack => "NextTrack",
            KeyCode::NoConvert => "NoConvert",
            KeyCode::NumpadComma => "NumpadComma",
            KeyCode::NumpadEnter => "NumpadEnter",
            KeyCode::NumpadEquals => "NumpadEquals",
            KeyCode::Oem102 => "Oem102",
            KeyCode::Period => "Period",
            KeyCode::PlayPause => "PlayPause",
            KeyCode::Power => "Power",
            KeyCode::PrevTrack => "PrevTrack",
            KeyCode::RAlt => "RAlt",
            KeyCode::RBracket => "RBracket",
            KeyCode::RControl => "RControl",
            KeyCode::RShift => "RShift",
            KeyCode::RWin => "RWin",
            KeyCode::Semicolon => "Semicolon",
            KeyCode::Slash => "Slash",
            KeyCode::Sleep => "Sleep",
            KeyCode::Stop => "Stop",
            KeyCode::NumpadSubtract => "NumpadSubtract",
            KeyCode::Sysrq => "Sysrq",
            KeyCode::Tab => "Tab",
            KeyCode::Underline => "Underline",
            KeyCode::Unlabeled => "Unlabeled",
            KeyCode::VolumeDown => "VolumeDown",
            KeyCode::VolumeUp => "VolumeUp",
            KeyCode::Wake => "Wake",
            KeyCode::WebBack => "WebBack",
            KeyCode::WebFavorites => "WebFavorites",
            KeyCode::WebForward => "WebForward",
            KeyCode::WebHome => "WebHome",
            KeyCode::WebRefresh => "WebRefresh",
            KeyCode::WebSearch => "WebSearch",
            KeyCode::WebStop => "WebStop",
            KeyCode::Yen => "Yen",
            KeyCode::Copy => "Copy",
            KeyCode::Paste => "Paste",
            KeyCode::Cut => "Cut",
        }
    }
}

impl GamepadButtonType {
    /// The short name of the button as it is shown.
    pub open spec fn label(self) -> Seq<char> {
        match self {
            GamepadButtonType::South => "S"@,
            GamepadButtonType::East => "E"@,
            GamepadButtonType::North => "N"@,
            GamepadButtonType::West => "W"@,
            GamepadButtonType::C => "C"@,
            GamepadButtonType::Z => "Z"@,
            GamepadButtonType::LeftTrigger => "LB"@,
            GamepadButtonType::LeftTrigger2 => "LT"@,
            GamepadButtonType::RightTrigger => "RB"@,
            GamepadButtonType::RightTrigger2 => "RT"@,
            GamepadButtonType::Select => "Select"@,
            GamepadButtonType::Start => "Start"@,
            GamepadButtonType::Mode => "Mode"@,
            GamepadButtonType::LeftThumb => "LS"@,
            GamepadButtonType::RightThumb => "RS"@,
            GamepadButtonType::DPadUp => "DPadUp"@,
            GamepadButtonType::DPadDown => "DPadDown"@,
            GamepadButtonType::DPadLeft => "DPadLeft"@,
            GamepadButtonType::DPadRight => "DPadRight"@,
        }
    }

    /// The short name of the button as it is shown.
    pub fn name(&self) -> (r: &'static str)
        ensures
            r@ == self.label(),
    {
        match self {
            GamepadButtonType::South => "S",
            GamepadButtonType::East => "E",
            GamepadButtonType::North => "N",
            GamepadButtonType::West => "W",
            GamepadButtonType::C => "C",
            GamepadButtonType::Z => "Z",
            GamepadButtonType::LeftTrigger => "LB",
            GamepadButtonType::LeftTrigger2 => "LT",
            GamepadButtonType::RightTrigger => "RB",
            GamepadButtonType::RightTrigger2 => "RT",
            GamepadButtonType::Select => "Select",
            GamepadButtonType::Start => "Start",
            GamepadButtonType::Mode => "Mode",
            GamepadButtonType::LeftThumb => "LS",
            GamepadButtonType::RightThumb => "RS",
            GamepadButtonType::DPadUp => "DPadUp",
            GamepadButtonType::DPadDown => "DPadDown",
            GamepadButtonType::DPadLeft => "DPadLeft",
            GamepadButtonType::DPadRight => "DPadRight",
        }
    }
}

impl GamepadAxisType {
    /// The short name of the axis as it is shown.
    pub open spec fn label(self) -> Seq<char> {
        match self {
            GamepadAxisType::LeftStickX => "LX"@,
            GamepadAxisType::LeftStickY => "LY"@,
            GamepadAxisType::LeftZ => "LZ"@,
            GamepadAxisType::RightStickX => "RX"@,
            GamepadAxisType::RightStickY => "RY"@,
            GamepadAxisType::RightZ => "RZ"@,
        }
    }

    /// The short name of the axis as it is shown.
    pub fn name(&self) -> (r: &'static str)
        ensures
            r@ == self.label(),
    {
        match self {
            GamepadAxisType::LeftStickX => "LX",
            GamepadAxisType::LeftStickY => "LY",
            GamepadAxisType::LeftZ => "LZ",
            GamepadAxisType::RightStickX => "RX",
            GamepadAxisType::RightStickY => "RY",
            GamepadAxisType::RightZ => "RZ",
        }
    }
}

impl GamepadAxisDir {
    /// The sign of the direction as it is shown.
    pub open spec fn label(self) -> Seq<char> {
        match self {
            GamepadAxisDir::Pos => "+"@,
            GamepadAxisDir::Neg => "-"@,
        }
    }

    /// The sign of the direction as it is shown.
    pub fn name(&self) -> (r: &'static str)
        ensures
            r@ == self.label(),
    {
        match self {
            GamepadAxisDir::Pos => "+",
            GamepadAxisDir::Neg => "-",
        }
    }
}

/// The decimal digit of a number below ten.
pub open spec fn digit(d: nat) -> Seq<char> {
    if d == 0 {
        "0"@
    } else if d == 1 {
        "1"@
    } else if d == 2 {
        "2"@
    } else if d == 3 {
        "3"@
    } else if d == 4 {
        "4"@
    } else if d == 5 {
        "5"@
    } else if d == 6 {
        "6"@
    } else if d == 7 {
        "7"@
    } else if d == 8 {
        "8"@
    } else {
        "9"@
    }
}

/// A number written in decimal digits, without leading zeros.
pub open spec fn decimal(n: nat) -> Seq<char>
    decreases n,
{
    if n < 10 {
        digit(n)
    } else {
        decimal(n / 10) + digit(n % 10)
    }
}

fn digit_name(d: usize) -> (r: &'static str)
    requires
        d < 10,
    ensures
        r@ == digit(d as nat),
{
    if d == 0 {
        "0"
    } else if d == 1 {
        "1"
    } else if d == 2 {
        "2"
    } else if d == 3 {
        "3"
    } else if d == 4 {
        "4"
    } else if d == 5 {
        "5"
    } else if d == 6 {
        "6"
    } else if d == 7 {
        "7"
    } else if d == 8 {
        "8"
    } else {
        "9"
    }
}

/// A number written in decimal digits.
pub fn decimal_string(n: usize) -> (r: String)
    ensures
        r@ == decimal(n as nat),
    decreases n,
{
    if n < 10 {
        String::from_str(digit_name(n))
    } else {
        let mut s = decimal_string(n / 10);
        s.append(digit_name(n % 10));
        s
    }
}

/// How a gamepad is shown: the word `Pad`, the number of its slot, a dot.
pub open spec fn pad_prefix(id: usize) -> Seq<char> {
    "Pad"@ + decimal(id as nat) + "."@
}

fn pad_prefix_string(id: usize) -> (r: String)
    ensures
        r@ == pad_prefix(id),
{
    let mut s = String::from_str("Pad");
    let number = decimal_string(id);
    s.append(number.as_str());
    s.append(".");
    s
}

impl GamepadButton {
    /// How the button is shown: its gamepad, then its short name.
    pub open spec fn label(self) -> Seq<char> {
        pad_prefix(self.gamepad.id) + self.button_type.label()
    }

    /// How the button is shown.
    pub fn to_string(&self) -> (r: String)
        ensures
            r@ == self.label(),
    {
        let mut s = pad_prefix_string(self.gamepad.id);
        s.append(self.button_type.name());
        s
    }
}

impl GamepadAxis {
    /// How the axis is shown: its gamepad, then its short name.
    pub open spec fn label(self) -> Seq<char> {
        pad_prefix(self.gamepad.id) + self.axis_type.label()
    }

    /// How the axis is shown.
    pub fn to_string(&self) -> (r: String)
        ensures
            r@ == self.label(),
    {
        let mut s = pad_prefix_string(self.gamepad.id);
        s.append(self.axis_type.name());
        s
    }
}

impl SingleKey {
    /// How the input source is shown: a key by its name, a button by its
    /// gamepad and name, an axis by its gamepad, name and sign.
    pub open spec fn label(self) -> Seq<char> {
        match self {
            SingleKey::KeyCode(code) => code.label(),
            SingleKey::GamepadButton(button) => button.label(),
            SingleKey::GamepadAxis(axis, dir) => axis.label() + dir.label(),
        }
    }

    /// How the input source is shown.
    pub fn to_string(&self) -> (r: String)
        ensures
            r@ == self.label(),
    {
        match self {
            SingleKey::KeyCode(code) => String::from_str(code.name()),
            SingleKey::GamepadButton(button) => button.to_string(),
            SingleKey::GamepadAxis(axis, dir) => {
                let mut s = axis.to_string();
                s.append(dir.name());
                s
            },
        }
    }
}

/// How a chord is shown: its members in their order, joined by `+`.
pub open spec fn chord_label(keys: Seq<SingleKey>) -> Seq<char>
    decreases keys.len(),
{
    if keys.len() == 0 {
        Seq::empty()
    } else if keys.len() == 1 {
        keys[0].label()
    } else {
        chord_label(keys.drop_last()) + "+"@ + keys.last().label()
    }
}

impl MultiKey {
    /// How the chord is shown.
    pub fn to_string(&self) -> (r: String)
        ensures
            r@ == chord_label(self@),
    {
        let mut s = String::new();
        let mut i: usize = 0;
        while i < self.0.len()
            invariant
                i <= self.0.len(),
                s@ == chord_label(self@.subrange(0, i as int)),
            decreases self.0.len() - i,
        {
            proof {
                let next = self@.subrange(0, i + 1);
                assert(next.drop_last() =~= self@.subrange(0, i as int));
            }
            if i > 0 {
                s.append("+");
            }
            let member = self.0[i].to_string();
            s.append(member.as_str());
            i += 1;
        }
        assert(self@.subrange(0, i as int) =~= self@);
        s
    }
}

} // verus!
