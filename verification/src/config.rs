use crate::input::ActionKey;
use crate::input::KeyConfig;
use crate::key_assign::keycode;
use crate::key_assign::pad_button;
use crate::key_assign::Gamepad;
use crate::key_assign::GamepadButton;
use crate::key_assign::GamepadButtonType;
use crate::key_assign::KeyCode;
use crate::key_assign::SingleKey;
use std::collections::VecDeque;
use vstd::prelude::*;

verus! {

/// The actions by which menus and the timeline are steered.
#[derive(PartialEq, Eq, Clone, Copy, Debug, Structural)]
pub enum SystemKey {
    Up,
    Down,
    Left,
    Right,
    Confirm,
    Cancel,
}

impl ActionKey for SystemKey {
    fn same(&self, other: &Self) -> (r: bool) {
        *self == *other
    }

    fn duplicate(&self) -> (r: Self) {
        *self
    }
}

impl SystemKey {
    /// The name under which the action is shown.
    pub open spec fn label(self) -> Seq<char> {
        match self {
            SystemKey::Up => "Up"@,
            SystemKey::Down => "Down"@,
            SystemKey::Left => "Left"@,
            SystemKey::Right => "Right"@,
            SystemKey::Confirm => "Ok"@,
            SystemKey::Cancel => "Cancel"@,
        }
    }

    /// All the actions, in the order of display.
    pub open spec fn every() -> Seq<SystemKey> {
        seq![
            SystemKey::Up,
            SystemKey::Down,
            SystemKey::Left,
            SystemKey::Right,
            SystemKey::Confirm,
            SystemKey::Cancel,
        ]
    }

    /// All the actions, in the order of display.
    pub fn all() -> (r: Vec<SystemKey>)
        ensures
            r@ == SystemKey::every(),
    {
        vec![
            SystemKey::Up,
            SystemKey::Down,
            SystemKey::Left,
            SystemKey::Right,
            SystemKey::Confirm,
            SystemKey::Cancel,
        ]
    }

    /// The name under which the action is shown.
    pub fn name(&self) -> (r: &'static str)
        ensures
            r@ == self.label(),
    {
        match self {
            SystemKey::Up => "Up",
            SystemKey::Down => "Down",
            SystemKey::Left => "Left",
            SystemKey::Right => "Right",
            SystemKey::Confirm => "Ok",
            SystemKey::Cancel => "Cancel",
        }
    }
}

/// The table of the system actions.
pub type SystemKeys = KeyConfig<SystemKey>;

/// The chord of one key.
pub open spec fn key_chord(code: KeyCode) -> Seq<SingleKey> {
    seq![SingleKey::KeyCode(code)]
}

/// The chord of one button of the gamepad in slot `id`.
pub open spec fn pad_chord(id: usize, button: GamepadButtonType) -> Seq<SingleKey> {
    seq![
        SingleKey::GamepadButton(GamepadButton { gamepad: Gamepad { id }, button_type: button }),
    ]
}

/// The entry of a system action that a key or a button of the first
/// gamepad satisfies.
pub open spec fn key_or_pad(action: SystemKey, code: KeyCode, button: GamepadButtonType) -> (
    SystemKey,
    Seq<Seq<SingleKey>>,
) {
    (action, seq![key_chord(code), pad_chord(0, button)])
}

/// The system actions as they are bound at first: the arrow keys or the
/// directional pad, Return or East to confirm, Back or South to cancel.
pub open spec fn default_system_keys() -> Seq<(SystemKey, Seq<Seq<SingleKey>>)> {
    seq![
        key_or_pad(SystemKey::Up, KeyCode::Up, GamepadButtonType::DPadUp),
        key_or_pad(SystemKey::Down, KeyCode::Down, GamepadButtonType::DPadDown),
        key_or_pad(SystemKey::Left, KeyCode::Left, GamepadButtonType::DPadLeft),
        key_or_pad(SystemKey::Right, KeyCode::Right, GamepadButtonType::DPadRight),
        key_or_pad(SystemKey::Confirm, KeyCode::Return, GamepadButtonType::East),
        key_or_pad(SystemKey::Cancel, KeyCode::Back, GamepadButtonType::South),
    ]
}

fn system_entry(action: SystemKey, code: KeyCode, button: GamepadButtonType) -> (r: (
    SystemKey,
    crate::key_assign::KeyAssign,
))
    ensures
        (r.0, r.1@) == key_or_pad(action, code, button),
{
    let binding = keycode(code).or(pad_button(0, button));
    assert(binding@ =~= seq![key_chord(code), pad_chord(0, button)]);
    (action, binding)
}

impl Default for KeyConfig<SystemKey> {
    fn default() -> (r: Self)
        ensures
            r@ == default_system_keys(),
    {
        let mut table: Vec<(SystemKey, crate::key_assign::KeyAssign)> = Vec::new();
        table.push(system_entry(SystemKey::Up, KeyCode::Up, GamepadButtonType::DPadUp));
        table.push(system_entry(SystemKey::Down, KeyCode::Down, GamepadButtonType::DPadDown));
        table.push(system_entry(SystemKey::Left, KeyCode::Left, GamepadButtonType::DPadLeft));
        table.push(system_entry(SystemKey::Right, KeyCode::Right, GamepadButtonType::DPadRight));
        table.push(system_entry(SystemKey::Confirm, KeyCode::Return, GamepadButtonType::East));
        table.push(system_entry(SystemKey::Cancel, KeyCode::Back, GamepadButtonType::South));
        let r = KeyConfig(table);
        assert(r@ =~= default_system_keys());
        r
    }
}

/// The first bindings have one entry for each system action.
pub proof fn lemma_default_system_keys_distinct()
    ensures
        crate::input::distinct_actions(default_system_keys()),
{
}

impl KeyConfig<SystemKey> {
    /// Puts the first bindings back in place of whatever the table holds.
    pub fn reset_to_defaults(&mut self)
        ensures
            final(self)@ == default_system_keys(),
    {
        *self = KeyConfig::<SystemKey>::default();
    }
}

/// A file that a setting names, by its path. Its content is read where
/// it is needed.
#[derive(Clone, Debug, PartialEq, Eq)]
pub struct File {
    path: String,
}

impl File {
    /// The path that the setting names.
    pub closed spec fn path_text(&self) -> Seq<char> {
        self.path@
    }

    /// The file at `path`. The content that came with it is not kept: it
    /// stays on disk.
    #[allow(unused_variables)]
    pub fn new(path: String, data: Vec<u8>) -> (r: Self)
        ensures
            r.path_text() == path@,
    {
        File { path }
    }

    /// The path of the file.
    pub fn path(&self) -> (r: &str)
        ensures
            r@ == self.path_text(),
    {
        self.path.as_str()
    }
}

/// A game that was opened, by the path of its file.
#[derive(Clone, Debug, PartialEq, Eq)]
pub struct RecentFile {
    pub path: String,
}

/// What is kept from one run of the program to the next: the games that
/// were opened, the latest first.
#[derive(Default)]
pub struct PersistentState {
    pub recent: VecDeque<RecentFile>,
}

/// The number of games that the list of recent games holds at most.
pub const RECENT_LIMIT: usize = 20;

impl View for PersistentState {
    type V = Seq<Seq<char>>;

    open spec fn view(&self) -> Seq<Seq<char>> {
        Seq::new(self.recent@.len(), |i: int| self.recent@[i].path@)
    }
}

/// The paths without every occurrence of `path`, in their order.
pub open spec fn without(paths: Seq<Seq<char>>, path: Seq<char>) -> Seq<Seq<char>>
    decreases paths.len(),
{
    if paths.len() == 0 {
        paths
    } else if paths.last() == path {
        without(paths.drop_last(), path)
    } else {
        without(paths.drop_last(), path).push(paths.last())
    }
}

/// The list of recent games after `path` was opened: `path` comes first
/// and occurs once, the others follow in their order, and what is behind
/// the limit is dropped.
pub open spec fn with_recent(paths: Seq<Seq<char>>, path: Seq<char>) -> Seq<Seq<char>> {
    let all = seq![path] + without(paths, path);
    if all.len() > RECENT_LIMIT {
        all.subrange(0, RECENT_LIMIT as int)
    } else {
        all
    }
}

impl PersistentState {
    /// Notes that a game was opened.
    pub fn add_recent(&mut self, recent: RecentFile)
        ensures
            final(self)@ == with_recent(old(self)@, recent.path@),
    {
        let ghost before = self@;
        let ghost path = recent.path@;
        let needle = recent.path.clone();
        let mut kept: VecDeque<RecentFile> = VecDeque::new();
        kept.push_back(recent);
        let mut i: usize = 0;
        while i < self.recent.len()
            invariant
                i <= self.recent.len(),
                before == self@,
                before.len() == self.recent@.len(),
                needle@ == path,
                kept@.len() >= 1,
                Seq::new(kept@.len(), |j: int| kept@[j].path@) == seq![path] + without(
                    before.subrange(0, i as int),
                    path,
                ),
            decreases self.recent.len() - i,
        {
            proof {
                let next = before.subrange(0, i + 1);
                assert(next.drop_last() =~= before.subrange(0, i as int));
                assert(next.last() == self.recent@[i as int].path@);
            }
            let ghost prior = Seq::new(kept@.len(), |j: int| kept@[j].path@);
            if !(self.recent[i].path == needle) {
                kept.push_back(RecentFile { path: self.recent[i].path.clone() });
                assert(Seq::new(kept@.len(), |j: int| kept@[j].path@) =~= prior.push(
                    self.recent@[i as int].path@,
                ));
            }
            i += 1;
        }
        assert(before.subrange(0, i as int) =~= before);
        let ghost all = Seq::new(kept@.len(), |j: int| kept@[j].path@);
        while kept.len() > RECENT_LIMIT
            invariant
                kept@.len() <= all.len(),
                kept@.len() == all.len() || kept@.len() >= RECENT_LIMIT,
                Seq::new(kept@.len(), |j: int| kept@[j].path@) == all.subrange(
                    0,
                    kept@.len() as int,
                ),
            decreases kept.len(),
        {
            let _ = kept.pop_back();
            assert(Seq::new(kept@.len(), |j: int| kept@[j].path@) =~= all.subrange(
                0,
                kept@.len() as int,
            ));
        }
        assert(all.subrange(0, all.len() as int) =~= all);
        self.recent = kept;
        assert(self@ =~= with_recent(before, path));
    }
}

} // verus!
