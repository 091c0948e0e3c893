use crate::config::key_chord;
use crate::config::pad_chord;
use crate::key_assign::binding_held;
use crate::key_assign::keycode;
use crate::key_assign::pad_button;
use crate::key_assign::GamepadButtonType;
use crate::key_assign::InputState;
use crate::key_assign::KeyAssign;
use crate::key_assign::KeyCode;
use crate::key_assign::SingleKey;
use vstd::prelude::*;
use vstd::string::StringExecFns;

verus! {

/// The bindings of the buttons of a machine's controllers: for each
/// controller, the buttons by name, each with its binding.
#[derive(PartialEq, Eq, Clone, Debug)]
pub struct KeyConfig {
    pub controllers: Vec<Vec<(String, KeyAssign)>>,
}

/// The buttons of one controller, as mathematical values: the names and
/// the bindings.
pub open spec fn pad_view(pad: Seq<(String, KeyAssign)>) -> Seq<(Seq<char>, Seq<Seq<SingleKey>>)> {
    Seq::new(pad.len(), |i: int| (pad[i].0@, pad[i].1@))
}

impl View for KeyConfig {
    type V = Seq<Seq<(Seq<char>, Seq<Seq<SingleKey>>)>>;

    open spec fn view(&self) -> Seq<Seq<(Seq<char>, Seq<Seq<SingleKey>>)>> {
        Seq::new(self.controllers@.len(), |c: int| pad_view(self.controllers@[c]@))
    }
}

/// The buttons of a machine's controllers during one tick: for each
/// controller, the buttons by name, each with whether it is held.
#[derive(Default)]
pub struct InputData {
    pub controllers: Vec<Vec<(String, bool)>>,
}

/// `data` says of every button of `pad`, under its name and in its
/// place, whether its binding is held.
pub open spec fn pad_answers<S: InputState>(
    pad: Seq<(String, KeyAssign)>,
    data: Seq<(String, bool)>,
    s: &S,
) -> bool {
    &&& data.len() == pad.len()
    &&& forall|i: int|
        0 <= i < pad.len() ==> (#[trigger] data[i]).0 == pad[i].0 && data[i].1 == binding_held(
            pad[i].1@,
            s,
        )
}

fn pad_input<S: InputState>(pad: &Vec<(String, KeyAssign)>, input_state: &S) -> (r: Vec<
    (String, bool),
>)
    ensures
        pad_answers(pad@, r@, input_state),
{
    let mut out: Vec<(String, bool)> = Vec::new();
    let mut i: usize = 0;
    while i < pad.len()
        invariant
            i <= pad.len(),
            out@.len() == i,
            forall|j: int|
                0 <= j < i ==> (#[trigger] out@[j]).0 == pad@[j].0 && out@[j].1 == binding_held(
                    pad@[j].1@,
                    input_state,
                ),
        decreases pad.len() - i,
    {
        let held = pad[i].1.pressed(input_state);
        out.push((pad[i].0.clone(), held));
        i += 1;
    }
    out
}

impl KeyConfig {
    /// What the controllers' buttons are during a tick: every button of
    /// every controller, under its name and in its place, with whether its
    /// binding is held.
    pub fn input<S: InputState>(&self, input_state: &S) -> (r: InputData)
        ensures
            r.controllers@.len() == self.controllers@.len(),
            forall|c: int|
                0 <= c < self.controllers@.len() ==> pad_answers(
                    self.controllers@[c]@,
                    (#[trigger] r.controllers@[c])@,
                    input_state,
                ),
    {
        let mut controllers: Vec<Vec<(String, bool)>> = Vec::new();
        let mut c: usize = 0;
        while c < self.controllers.len()
            invariant
                c <= self.controllers.len(),
                controllers@.len() == c,
                forall|d: int|
                    0 <= d < c ==> pad_answers(
                        self.controllers@[d]@,
                        (#[trigger] controllers@[d])@,
                        input_state,
                    ),
            decreases self.controllers.len() - c,
        {
            controllers.push(pad_input(&self.controllers[c], input_state));
            c += 1;
        }
        InputData { controllers }
    }
}

/// A button of a controller that a key or a button of the first gamepad
/// presses.
pub open spec fn button_entry(name: Seq<char>, code: KeyCode, button: GamepadButtonType) -> (
    Seq<char>,
    Seq<Seq<SingleKey>>,
) {
    (name, seq![key_chord(code), pad_chord(0, button)])
}

/// The buttons of the Game Boy as they are bound at first.
pub open spec fn default_gb_buttons() -> Seq<(Seq<char>, Seq<Seq<SingleKey>>)> {
    seq![
        button_entry("up"@, KeyCode::Up, GamepadButtonType::DPadUp),
        button_entry("down"@, KeyCode::Down, GamepadButtonType::DPadDown),
        button_entry("left"@, KeyCode::Left, GamepadButtonType::DPadLeft),
        button_entry("right"@, KeyCode::Right, GamepadButtonType::DPadRight),
        button_entry("a"@, KeyCode::X, GamepadButtonType::South),
        button_entry("b"@, KeyCode::Z, GamepadButtonType::West),
        button_entry("start"@, KeyCode::Return, GamepadButtonType::Start),
        button_entry("select"@, KeyCode::RShift, GamepadButtonType::Select),
    ]
}

/// The buttons of the Game Boy Advance as they are bound at first.
pub open spec fn default_gba_buttons() -> Seq<(Seq<char>, Seq<Seq<SingleKey>>)> {
    seq![
        button_entry("up"@, KeyCode::Up, GamepadButtonType::DPadUp),
        button_entry("down"@, KeyCode::Down, GamepadButtonType::DPadDown),
        button_entry("left"@, KeyCode::Left, GamepadButtonType::DPadLeft),
        button_entry("right"@, KeyCode::Right, GamepadButtonType::DPadRight),
        button_entry("a"@, KeyCode::X, GamepadButtonType::South),
        button_entry("b"@, KeyCode::Z, GamepadButtonType::West),
        button_entry("l"@, KeyCode::A, GamepadButtonType::LeftTrigger),
        button_entry("r"@, KeyCode::S, GamepadButtonType::RightTrigger),
        button_entry("start"@, KeyCode::Return, GamepadButtonType::Start),
        button_entry("select"@, KeyCode::RShift, GamepadButtonType::Select),
    ]
}

fn button(name: &str, code: KeyCode, pad: GamepadButtonType) -> (r: (String, KeyAssign))
    ensures
        (r.0@, r.1@) == button_entry(name@, code, pad),
{
    let binding = keycode(code).or(pad_button(0, pad));
    assert(binding@ =~= seq![key_chord(code), pad_chord(0, pad)]);
    (String::from_str(name), binding)
}

/// The table of a machine with the one controller `buttons`.
fn one_controller(buttons: Vec<(String, KeyAssign)>) -> (r: KeyConfig)
    ensures
        r@ == seq![pad_view(buttons@)],
{
    let mut controllers: Vec<Vec<(String, KeyAssign)>> = Vec::new();
    controllers.push(buttons);
    let r = KeyConfig { controllers };
    assert(r@ =~= seq![pad_view(buttons@)]);
    r
}

/// The bindings of the Game Boy as they are at first: one controller.
pub fn default_gb_key_config() -> (r: KeyConfig)
    ensures
        r@ == seq![default_gb_buttons()],
{
    let mut keys: Vec<(String, KeyAssign)> = Vec::new();
    keys.push(button("up", KeyCode::Up, GamepadButtonType::DPadUp));
    keys.push(button("down", KeyCode::Down, GamepadButtonType::DPadDown));
    keys.push(button("left", KeyCode::Left, GamepadButtonType::DPadLeft));
    keys.push(button("right", KeyCode::Right, GamepadButtonType::DPadRight));
    keys.push(button("a", KeyCode::X, GamepadButtonType::South));
    keys.push(button("b", KeyCode::Z, GamepadButtonType::West));
    keys.push(button("start", KeyCode::Return, GamepadButtonType::Start));
    keys.push(button("select", KeyCode::RShift, GamepadButtonType::Select));
    assert(pad_view(keys@) =~= default_gb_buttons());
    one_controller(keys)
}

/// The bindings of the Game Boy Advance as they are at first: one
/// controller.
pub fn default_gba_key_config() -> (r: KeyConfig)
    ensures
        r@ == seq![default_gba_buttons()],
{
    let mut keys: Vec<(String, KeyAssign)> = Vec::new();
    keys.push(button("up", KeyCode::Up, GamepadButtonType::DPadUp));
    keys.push(button("down", KeyCode::Down, GamepadButtonType::DPadDown));
    keys.push(button("left", KeyCode::Left, GamepadButtonType::DPadLeft));
    keys.push(button("right", KeyCode::Right, GamepadButtonType::DPadRight));
    keys.push(button("a", KeyCode::X, GamepadButtonType::South));
    keys.push(button("b", KeyCode::Z, GamepadButtonType::West));
    keys.push(button("l", KeyCode::A, GamepadButtonType::LeftTrigger));
    keys.push(button("r", KeyCode::S, GamepadButtonType::RightTrigger));
    keys.push(button("start", KeyCode::Return, GamepadButtonType::Start));
    keys.push(button("select", KeyCode::RShift, GamepadButtonType::Select));
    assert(pad_view(keys@) =~= default_gba_buttons());
    one_controller(keys)
}

} // verus!
