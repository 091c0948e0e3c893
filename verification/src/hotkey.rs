use crate::config::key_chord;
use crate::config::pad_chord;
use crate::input::binding_of;
use crate::input::ActionKey;
use crate::input::InputState;
use crate::input::KeyConfig;
use crate::key_assign::binding_fired;
use crate::key_assign::binding_held;
use crate::key_assign::keycode;
use crate::key_assign::lemma_cross_single;
use crate::key_assign::pad_button;
use crate::key_assign::GamepadButtonType;
use crate::key_assign::KeyAssign;
use crate::key_assign::KeyCode;
use crate::key_assign::SingleKey;
use vstd::prelude::*;

verus! {

/// The actions that a key press triggers while a game runs.
#[derive(PartialEq, Eq, Clone, Copy, Debug, Structural)]
pub enum HotKey {
    Reset,
    Turbo,
    StateSave,
    StateLoad,
    NextSlot,
    PrevSlot,
    Rewind,
    Menu,
    FullScreen,
    ScaleUp,
    ScaleDown,
}

impl ActionKey for HotKey {
    fn same(&self, other: &Self) -> (r: bool) {
        *self == *other
    }

    fn duplicate(&self) -> (r: Self) {
        *self
    }
}

impl HotKey {
    /// The name under which the action is shown.
    pub open spec fn label(self) -> Seq<char> {
        match self {
            HotKey::Reset => "Reset"@,
            HotKey::Turbo => "Turbo"@,
            HotKey::StateSave => "State Save"@,
            HotKey::StateLoad => "State Load"@,
            HotKey::NextSlot => "State Slot Next"@,
            HotKey::PrevSlot => "State Slot Prev"@,
            HotKey::Rewind => "Start Rewindng"@,
            HotKey::Menu => "Enter/Leave Menu"@,
            HotKey::FullScreen => "Fullsceen"@,
            HotKey::ScaleUp => "Window Scale +"@,
            HotKey::ScaleDown => "Window Scale -"@,
        }
    }

    /// The name under which the action is shown.
    pub fn name(&self) -> (r: &'static str)
        ensures
            r@ == self.label(),
    {
        match self {
            HotKey::Reset => "Reset",
            HotKey::Turbo => "Turbo",
            HotKey::StateSave => "State Save",
            HotKey::StateLoad => "State Load",
            HotKey::NextSlot => "State Slot Next",
            HotKey::PrevSlot => "State Slot Prev",
            HotKey::Rewind => "Start Rewindng",
            HotKey::Menu => "Enter/Leave Menu",
            HotKey::FullScreen => "Fullsceen",
            HotKey::ScaleUp => "Window Scale +",
            HotKey::ScaleDown => "Window Scale -",
        }
    }

    /// All the actions, in the order of display.
    pub open spec fn every() -> Seq<HotKey> {
        seq![
            HotKey::Reset,
            HotKey::Turbo,
            HotKey::StateSave,
            HotKey::StateLoad,
            HotKey::NextSlot,
            HotKey::PrevSlot,
            HotKey::Rewind,
            HotKey::Menu,
            HotKey::FullScreen,
            HotKey::ScaleUp,
            HotKey::ScaleDown,
        ]
    }

    /// All the actions, in the order of display.
    pub fn all() -> (r: Vec<HotKey>)
        ensures
            r@ == HotKey::every(),
    {
        vec![
            HotKey::Reset,
            HotKey::Turbo,
            HotKey::StateSave,
            HotKey::StateLoad,
            HotKey::NextSlot,
            HotKey::PrevSlot,
            HotKey::Rewind,
            HotKey::Menu,
            HotKey::FullScreen,
            HotKey::ScaleUp,
            HotKey::ScaleDown,
        ]
    }
}

/// The table of the hotkeys.
pub type HotKeys = KeyConfig<HotKey>;

/// The chord of two keys.
pub open spec fn key_pair(first: KeyCode, second: KeyCode) -> Seq<SingleKey> {
    seq![SingleKey::KeyCode(first), SingleKey::KeyCode(second)]
}

/// The hotkeys as they are bound at first.
pub open spec fn default_hotkeys() -> Seq<(HotKey, Seq<Seq<SingleKey>>)> {
    seq![
        (HotKey::Reset, seq![key_pair(KeyCode::LControl, KeyCode::R)]),
        (
            HotKey::Turbo,
            seq![key_chord(KeyCode::Tab), pad_chord(0, GamepadButtonType::LeftTrigger2)],
        ),
        (HotKey::StateSave, seq![key_pair(KeyCode::LControl, KeyCode::S)]),
        (HotKey::StateLoad, seq![key_pair(KeyCode::LControl, KeyCode::L)]),
        (HotKey::NextSlot, seq![key_pair(KeyCode::LControl, KeyCode::N)]),
        (HotKey::PrevSlot, seq![key_pair(KeyCode::LControl, KeyCode::P)]),
        (
            HotKey::Rewind,
            seq![
                key_chord(KeyCode::Back),
                pad_chord(0, GamepadButtonType::LeftTrigger2) + pad_chord(
                    0,
                    GamepadButtonType::RightTrigger2,
                ),
            ],
        ),
        (HotKey::Menu, seq![key_chord(KeyCode::Escape)]),
        (HotKey::FullScreen, seq![key_pair(KeyCode::RAlt, KeyCode::Return)]),
        (
            HotKey::ScaleUp,
            seq![
                key_pair(KeyCode::LControl, KeyCode::Plus),
                key_pair(KeyCode::LControl, KeyCode::Equals),
            ],
        ),
        (HotKey::ScaleDown, seq![key_pair(KeyCode::LControl, KeyCode::Minus)]),
    ]
}

/// The binding of two keys held at once.
fn both(first: KeyCode, second: KeyCode) -> (r: KeyAssign)
    ensures
        r@ == seq![key_pair(first, second)],
{
    let r = keycode(first).and(keycode(second));
    proof {
        lemma_cross_single(key_chord(first), seq![key_chord(second)]);
        assert(r@[0] =~= key_pair(first, second));
        assert(r@ =~= seq![key_pair(first, second)]);
    }
    r
}

impl Default for KeyConfig<HotKey> {
    fn default() -> (r: Self)
        ensures
            r@ == default_hotkeys(),
    {
        let turbo = keycode(KeyCode::Tab).or(pad_button(0, GamepadButtonType::LeftTrigger2));
        assert(turbo@ =~= seq![
            key_chord(KeyCode::Tab),
            pad_chord(0, GamepadButtonType::LeftTrigger2),
        ]);
        let triggers = pad_button(0, GamepadButtonType::LeftTrigger2).and(
            pad_button(0, GamepadButtonType::RightTrigger2),
        );
        proof {
            lemma_cross_single(
                pad_chord(0, GamepadButtonType::LeftTrigger2),
                seq![pad_chord(0, GamepadButtonType::RightTrigger2)],
            );
        }
        let rewind = keycode(KeyCode::Back).or(triggers);
        assert(rewind@ =~= seq![
            key_chord(KeyCode::Back),
            pad_chord(0, GamepadButtonType::LeftTrigger2) + pad_chord(
                0,
                GamepadButtonType::RightTrigger2,
            ),
        ]);
        let plus_or_equals = keycode(KeyCode::Plus).or(keycode(KeyCode::Equals));
        assert(plus_or_equals@ =~= seq![key_chord(KeyCode::Plus), key_chord(KeyCode::Equals)]);
        let scale_up = keycode(KeyCode::LControl).and(plus_or_equals);
        proof {
            lemma_cross_single(
                key_chord(KeyCode::LControl),
                seq![key_chord(KeyCode::Plus), key_chord(KeyCode::Equals)],
            );
            assert(scale_up@[0] =~= key_pair(KeyCode::LControl, KeyCode::Plus));
            assert(scale_up@[1] =~= key_pair(KeyCode::LControl, KeyCode::Equals));
            assert(scale_up@ =~= seq![
                key_pair(KeyCode::LControl, KeyCode::Plus),
                key_pair(KeyCode::LControl, KeyCode::Equals),
            ]);
        }
        let mut table: Vec<(HotKey, KeyAssign)> = Vec::new();
        table.push((HotKey::Reset, both(KeyCode::LControl, KeyCode::R)));
        table.push((HotKey::Turbo, turbo));
        table.push((HotKey::StateSave, both(KeyCode::LControl, KeyCode::S)));
        table.push((HotKey::StateLoad, both(KeyCode::LControl, KeyCode::L)));
        table.push((HotKey::NextSlot, both(KeyCode::LControl, KeyCode::N)));
        table.push((HotKey::PrevSlot, both(KeyCode::LControl, KeyCode::P)));
        table.push((HotKey::Rewind, rewind));
        table.push((HotKey::Menu, keycode(KeyCode::Escape)));
        table.push((HotKey::FullScreen, both(KeyCode::RAlt, KeyCode::Return)));
        table.push((HotKey::ScaleUp, scale_up));
        table.push((HotKey::ScaleDown, both(KeyCode::LControl, KeyCode::Minus)));
        let r = KeyConfig(table);
        assert(r@ =~= default_hotkeys());
        r
    }
}

/// The first bindings have one entry for each hotkey.
pub proof fn lemma_default_hotkeys_distinct()
    ensures
        crate::input::distinct_actions(default_hotkeys()),
{
}

impl KeyConfig<HotKey> {
    /// Puts the first bindings back in place of whatever the table holds.
    pub fn reset_to_defaults(&mut self)
        ensures
            final(self)@ == default_hotkeys(),
    {
        *self = KeyConfig::<HotKey>::default();
    }
}

/// Whether the hotkey fires under a table: its binding fires. A hotkey
/// without an entry never does.
pub open spec fn hotkey_fired(
    table: Seq<(HotKey, Seq<Seq<SingleKey>>)>,
    hotkey: HotKey,
    s: &InputState,
) -> bool {
    match binding_of(table, hotkey) {
        Some(binding) => binding_fired(binding, s),
        None => false,
    }
}

/// Those of `keys` that fire, in their order.
pub open spec fn fired_of(
    keys: Seq<HotKey>,
    table: Seq<(HotKey, Seq<Seq<SingleKey>>)>,
    s: &InputState,
) -> Seq<HotKey>
    decreases keys.len(),
{
    if keys.len() == 0 {
        keys
    } else if hotkey_fired(table, keys.last(), s) {
        fired_of(keys.drop_last(), table, s).push(keys.last())
    } else {
        fired_of(keys.drop_last(), table, s)
    }
}

/// The hotkeys that fire in this tick, in the order of display, and
/// whether the turbo hotkey is held.
pub fn check_hotkey(hotkeys: &HotKeys, input_state: &InputState) -> (r: (Vec<HotKey>, bool))
    ensures
        r.0@ == fired_of(HotKey::every(), hotkeys@, input_state),
        r.1 == match binding_of(hotkeys@, HotKey::Turbo) {
            Some(binding) => binding_held(binding, input_state),
            None => false,
        },
{
    let every = HotKey::all();
    let mut fired: Vec<HotKey> = Vec::new();
    let mut i: usize = 0;
    while i < every.len()
        invariant
            i <= every.len(),
            every@ == HotKey::every(),
            fired@ == fired_of(every@.subrange(0, i as int), hotkeys@, input_state),
        decreases every.len() - i,
    {
        proof {
            let next = every@.subrange(0, i + 1);
            assert(next.drop_last() =~= every@.subrange(0, i as int));
        }
        if hotkeys.just_pressed(&every[i], input_state) {
            fired.push(every[i]);
        }
        i += 1;
    }
    assert(every@.subrange(0, i as int) =~= every@);
    let turbo = hotkeys.pressed(&HotKey::Turbo, input_state);
    (fired, turbo)
}

/// What the program is showing.
#[derive(Debug, Clone, Copy, PartialEq, Eq, Hash, Structural)]
pub enum AppState {
    Menu,
    Running,
    Rewinding,
}

/// What a hotkey's effect depends on.
#[derive(Debug, Clone, Copy, PartialEq, Eq, Structural)]
pub struct HotKeyContext {
    /// What the program is showing.
    pub app_state: AppState,
    /// Whether a game is loaded.
    pub emulator_loaded: bool,
    /// The slot that states are saved to and loaded from.
    pub state_save_slot: usize,
    /// The factor by which the picture is scaled.
    pub scaling: usize,
}

/// What the host has to do for a hotkey.
#[derive(Debug, Clone, Copy, PartialEq, Eq, Structural)]
pub enum HotKeyAction {
    /// Nothing.
    Nothing,
    /// Reset the machine.
    ResetMachine,
    /// Save the machine's state to the slot.
    SaveState(usize),
    /// Load the machine's state from the slot.
    LoadState(usize),
    /// Make this the slot for states.
    SelectSlot(usize),
    /// Take a record of the game and open the timeline.
    StartRewind,
    /// Show this instead.
    Show(AppState),
    /// Switch between window and full screen.
    ToggleFullscreen,
    /// Scale the picture by this factor and restore the window.
    Rescale(usize),
}

/// What a hotkey does in a context.
///
/// Resetting, saving and loading need a game. The slot moves by one and
/// does not go below zero. The timeline opens only from the running game.
/// The menu hotkey leads from the game to the menu, and back if a game is
/// loaded. The scale moves by one and does not go below one. The turbo
/// hotkey acts while it is held, not when it fires.
pub open spec fn hotkey_action(hotkey: HotKey, context: HotKeyContext) -> HotKeyAction {
    match hotkey {
        HotKey::Reset => if context.emulator_loaded {
            HotKeyAction::ResetMachine
        } else {
            HotKeyAction::Nothing
        },
        HotKey::Turbo => HotKeyAction::Nothing,
        HotKey::StateSave => if context.emulator_loaded {
            HotKeyAction::SaveState(context.state_save_slot)
        } else {
            HotKeyAction::Nothing
        },
        HotKey::StateLoad => if context.emulator_loaded {
            HotKeyAction::LoadState(context.state_save_slot)
        } else {
            HotKeyAction::Nothing
        },
        HotKey::NextSlot => HotKeyAction::SelectSlot((context.state_save_slot + 1) as usize),
        HotKey::PrevSlot => HotKeyAction::SelectSlot(
            if context.state_save_slot == 0 {
                0
            } else {
                (context.state_save_slot - 1) as usize
            },
        ),
        HotKey::Rewind => if context.app_state == AppState::Running && context.emulator_loaded {
            HotKeyAction::StartRewind
        } else {
            HotKeyAction::Nothing
        },
        HotKey::Menu => if context.app_state == AppState::Running {
            HotKeyAction::Show(AppState::Menu)
        } else if context.app_state == AppState::Menu && context.emulator_loaded {
            HotKeyAction::Show(AppState::Running)
        } else {
            HotKeyAction::Nothing
        },
        HotKey::FullScreen => HotKeyAction::ToggleFullscreen,
        HotKey::ScaleUp => HotKeyAction::Rescale((context.scaling + 1) as usize),
        HotKey::ScaleDown => HotKeyAction::Rescale(
            if context.scaling <= 2 {
                1
            } else {
                (context.scaling - 1) as usize
            },
        ),
    }
}

/// What a hotkey that fired does. The slot and the scale must have room
/// to grow where the hotkey raises them, and the scale must be at least
/// one where the hotkey lowers it.
pub fn process_hotkey(hotkey: HotKey, context: &HotKeyContext) -> (r: HotKeyAction)
    requires
        hotkey == HotKey::NextSlot ==> context.state_save_slot < usize::MAX,
        hotkey == HotKey::ScaleUp ==> context.scaling < usize::MAX,
        hotkey == HotKey::ScaleDown ==> context.scaling >= 1,
    ensures
        r == hotkey_action(hotkey, *context),
{
    match hotkey {
        HotKey::Reset => if context.emulator_loaded {
            HotKeyAction::ResetMachine
        } else {
            HotKeyAction::Nothing
        },
        HotKey::Turbo => HotKeyAction::Nothing,
        HotKey::StateSave => if context.emulator_loaded {
            HotKeyAction::SaveState(context.state_save_slot)
        } else {
            HotKeyAction::Nothing
        },
        HotKey::StateLoad => if context.emulator_loaded {
            HotKeyAction::LoadState(context.state_save_slot)
        } else {
            HotKeyAction::Nothing
        },
        HotKey::NextSlot => HotKeyAction::SelectSlot(context.state_save_slot + 1),
        HotKey::PrevSlot => HotKeyAction::SelectSlot(
            if context.state_save_slot == 0 {
                0
            } else {
                context.state_save_slot - 1
            },
        ),
        HotKey::Rewind => if context.app_state == AppState::Running && context.emulator_loaded {
            HotKeyAction::StartRewind
        } else {
            HotKeyAction::Nothing
        },
        HotKey::Menu => if context.app_state == AppState::Running {
            HotKeyAction::Show(AppState::Menu)
        } else if context.app_state == AppState::Menu && context.emulator_loaded {
            HotKeyAction::Show(AppState::Running)
        } else {
            HotKeyAction::Nothing
        },
        HotKey::FullScreen => HotKeyAction::ToggleFullscreen,
        HotKey::ScaleUp => HotKeyAction::Rescale(context.scaling + 1),
        HotKey::ScaleDown => {
            let lower = context.scaling - 1;
            HotKeyAction::Rescale(
                if lower < 1 {
                    1
                } else {
                    lower
                },
            )
        },
    }
}

} // verus!
