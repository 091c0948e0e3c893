use vstd::prelude::*;

verus! {

/// A key of the keyboard, named by its position-independent code.
#[derive(PartialEq, Eq, Copy, Clone, Debug, Structural)]
pub enum KeyCode {
    Key1,
    Key2,
    Key3,
    Key4,
    Key5,
    Key6,
    Key7,
    Key8,
    Key9,
    Key0,
    A,
    B,
    C,
    D,
    E,
    F,
    G,
    H,
    I,
    J,
    K,
    L,
    M,
    N,
    O,
    P,
    Q,
    R,
    S,
    T,
    U,
    V,
    W,
    X,
    Y,
    Z,
    Escape,
    F1,
    F2,
    F3,
    F4,
    F5,
    F6,
    F7,
    F8,
    F9,
    F10,
    F11,
    F12,
    F13,
    F14,
    F15,
    F16,
    F17,
    F18,
    F19,
    F20,
    F21,
    F22,
    F23,
    F24,
    Snapshot,
    Scroll,
    Pause,
    Insert,
    Home,
    Delete,
    End,
    PageDown,
    PageUp,
    Left,
    Up,
    Right,
    Down,
    Back,
    Return,
    Space,
    Compose,
    Caret,
    Numlock,
    Numpad0,
    Numpad1,
    Numpad2,
    Numpad3,
    Numpad4,
    Numpad5,
    Numpad6,
    Numpad7,
    Numpad8,
    Numpad9,
    AbntC1,
    AbntC2,
    NumpadAdd,
    Apostrophe,
    Apps,
    Asterisk,
    Plus,
    At,
    Ax,
    Backslash,
    Calculator,
    Capital,
    Colon,
    Comma,
    Convert,
    NumpadDecimal,
    NumpadDivide,
    Equals,
    Grave,
    Kana,
    Kanji,
    LAlt,
    LBracket,
    LControl,
    LShift,
    LWin,
    Mail,
    MediaSelect,
    MediaStop,
    Minus,
    NumpadMultiply,
    Mute,
    MyComputer,
    NavigateForward,
    NavigateBackward,
    NextTrack,
    NoConvert,
    NumpadComma,
    NumpadEnter,
    NumpadEquals,
    Oem102,
    Period,
    PlayPause,
    Power,
    PrevTrack,
    RAlt,
    RBracket,
    RControl,
    RShift,
    RWin,
    Semicolon,
    Slash,
    Sleep,
    Stop,
    NumpadSubtract,
    Sysrq,
    Tab,
    Underline,
    Unlabeled,
    VolumeDown,
    VolumeUp,
    Wake,
    WebBack,
    WebFavorites,
    WebForward,
    WebHome,
    WebRefresh,
    WebSearch,
    WebStop,
    Yen,
    Copy,
    Paste,
    Cut,
}

/// A gamepad, identified by the slot it is plugged into.
#[derive(Clone, Copy, Debug, PartialEq, Eq, Structural)]
pub struct Gamepad {
    pub id: usize,
}

impl Gamepad {
    pub fn new(id: usize) -> (r: Self)
        ensures
            r.id == id,
    {
        Gamepad { id }
    }
}

/// The digital buttons of a gamepad.
#[derive(PartialEq, Eq, Copy, Clone, Debug, Structural)]
pub enum GamepadButtonType {
    South,
    East,
    North,
    West,
    C,
    Z,
    LeftTrigger,
    LeftTrigger2,
    RightTrigger,
    RightTrigger2,
    Select,
    Start,
    Mode,
    LeftThumb,
    RightThumb,
    DPadUp,
    DPadDown,
    DPadLeft,
    DPadRight,
}

/// One button of one gamepad.
#[derive(Clone, Copy, Debug, PartialEq, Eq, Structural)]
pub struct GamepadButton {
    pub gamepad: Gamepad,
    pub button_type: GamepadButtonType,
}

impl GamepadButton {
    pub fn new(gamepad: Gamepad, button_type: GamepadButtonType) -> (r: Self)
        ensures
            r.gamepad == gamepad,
            r.button_type == button_type,
    {
        GamepadButton { gamepad, button_type }
    }
}

/// The analog axes of a gamepad.
#[derive(Clone, Copy, Debug, PartialEq, Eq, Structural)]
pub enum GamepadAxisType {
    LeftStickX,
    LeftStickY,
    LeftZ,
    RightStickX,
    RightStickY,
    RightZ,
}

/// One axis of one gamepad.
#[derive(Clone, Copy, Debug, PartialEq, Eq, Structural)]
pub struct GamepadAxis {
    pub gamepad: Gamepad,
    pub axis_type: GamepadAxisType,
}

impl GamepadAxis {
    pub fn new(gamepad: Gamepad, axis_type: GamepadAxisType) -> (r: Self)
        ensures
            r.gamepad == gamepad,
            r.axis_type == axis_type,
    {
        GamepadAxis { gamepad, axis_type }
    }
}

/// The half of an axis that counts as a press.
#[derive(Clone, Copy, Debug, PartialEq, Eq, Structural)]
pub enum GamepadAxisDir {
    Pos,
    Neg,
}

/// One physical input source: a key, a gamepad button, or an axis pushed
/// past half of its travel in one direction.
#[derive(Clone, Copy, Debug, PartialEq, Eq, Structural)]
pub enum SingleKey {
    KeyCode(KeyCode),
    GamepadButton(GamepadButton),
    GamepadAxis(GamepadAxis, GamepadAxisDir),
}

/// A chord: input sources that count only while all of them are held.
/// The order is kept for display and does not affect matching.
#[derive(Clone, Debug, PartialEq, Eq)]
pub struct MultiKey(pub Vec<SingleKey>);

impl View for MultiKey {
    type V = Seq<SingleKey>;

    open spec fn view(&self) -> Seq<SingleKey> {
        self.0@
    }
}

/// A binding: chords of which any one satisfies the action.
#[derive(PartialEq, Eq, Default, Clone, Debug)]
pub struct KeyAssign(pub Vec<MultiKey>);

impl View for KeyAssign {
    type V = Seq<Seq<SingleKey>>;

    open spec fn view(&self) -> Seq<Seq<SingleKey>> {
        Seq::new(self.0@.len(), |i: int| self.0@[i]@)
    }
}

/// The state of the input devices during one tick, as far as bindings
/// look at it.
pub trait InputState {
    /// Whether the source is held during this tick.
    spec fn held(&self, key: SingleKey) -> bool;

    /// Whether the source went from released to held in this tick.
    spec fn newly_held(&self, key: SingleKey) -> bool;

    /// Whether the source is held during this tick.
    fn pressed(&self, key: &SingleKey) -> (r: bool)
        ensures
            r == self.held(*key),
    ;

    /// Whether the source went from released to held in this tick.
    fn just_pressed(&self, key: &SingleKey) -> (r: bool)
        ensures
            r == self.newly_held(*key),
    ;
}

/// A chord is held when every member is held.
pub open spec fn chord_held<S: InputState>(keys: Seq<SingleKey>, s: &S) -> bool {
    forall|i: int| 0 <= i < keys.len() ==> s.held(#[trigger] keys[i])
}

/// Some member of the chord went down in this tick.
pub open spec fn chord_touched<S: InputState>(keys: Seq<SingleKey>, s: &S) -> bool {
    exists|i: int| 0 <= i < keys.len() && s.newly_held(#[trigger] keys[i])
}

/// A chord fires in the tick in which it becomes fully held: all members
/// are held and at least one of them went down in this tick.
pub open spec fn chord_fired<S: InputState>(keys: Seq<SingleKey>, s: &S) -> bool {
    chord_held(keys, s) && chord_touched(keys, s)
}

/// A binding is held when any of its chords is held.
pub open spec fn binding_held<S: InputState>(chords: Seq<Seq<SingleKey>>, s: &S) -> bool {
    exists|i: int| 0 <= i < chords.len() && chord_held(#[trigger] chords[i], s)
}

/// A binding fires when any of its chords fires.
pub open spec fn binding_fired<S: InputState>(chords: Seq<Seq<SingleKey>>, s: &S) -> bool {
    exists|i: int| 0 <= i < chords.len() && chord_fired(#[trigger] chords[i], s)
}

impl MultiKey {
    /// Whether all members of the chord are held.
    pub fn pressed<S: InputState>(&self, input_state: &S) -> (r: bool)
        ensures
            r == chord_held(self@, input_state),
    {
        let mut i: usize = 0;
        while i < self.0.len()
            invariant
                i <= self.0.len(),
                forall|j: int| 0 <= j < i ==> input_state.held(#[trigger] self@[j]),
            decreases self.0.len() - i,
        {
            if !input_state.pressed(&self.0[i]) {
                return false;
            }
            i += 1;
        }
        true
    }

    /// Whether the chord fires in this tick.
    pub fn just_pressed<S: InputState>(&self, input_state: &S) -> (r: bool)
        ensures
            r == chord_fired(self@, input_state),
            r ==> chord_held(self@, input_state),
    {
        if !self.pressed(input_state) {
            return false;
        }
        let mut i: usize = 0;
        while i < self.0.len()
            invariant
                i <= self.0.len(),
                chord_held(self@, input_state),
                forall|j: int| 0 <= j < i ==> !input_state.newly_held(#[trigger] self@[j]),
            decreases self.0.len() - i,
        {
            if input_state.just_pressed(&self.0[i]) {
                return true;
            }
            i += 1;
        }
        false
    }
}

impl KeyAssign {
    /// The binding of one chord of one member.
    pub fn single(key: SingleKey) -> (r: Self)
        ensures
            r@ == seq![seq![key]],
    {
        let mut chord: Vec<SingleKey> = Vec::new();
        chord.push(key);
        let mut chords: Vec<MultiKey> = Vec::new();
        chords.push(MultiKey(chord));
        let r = KeyAssign(chords);
        assert(r@[0] =~= seq![key]);
        assert(r@ =~= seq![seq![key]]);
        r
    }
}

/// The binding of one key.
pub fn keycode(code: KeyCode) -> (r: KeyAssign)
    ensures
        r@ == seq![seq![SingleKey::KeyCode(code)]],
{
    KeyAssign::single(SingleKey::KeyCode(code))
}

/// The binding of one button of the gamepad in slot `id`.
pub fn pad_button(id: usize, button: GamepadButtonType) -> (r: KeyAssign)
    ensures
        r@ == seq![
            seq![
                SingleKey::GamepadButton(
                    GamepadButton { gamepad: Gamepad { id }, button_type: button },
                ),
            ],
        ],
{
    KeyAssign::single(SingleKey::GamepadButton(GamepadButton::new(Gamepad::new(id), button)))
}

/// The chords of `a` each extended by each chord of `b`, row by row: the
/// pairs are ordered by the chord of `a` first, then by the chord of `b`.
pub open spec fn cross(a: Seq<Seq<SingleKey>>, b: Seq<Seq<SingleKey>>) -> Seq<Seq<SingleKey>> {
    Seq::new(
        (a.len() * b.len()) as nat,
        |k: int| a[k / (b.len() as int)] + b[k % (b.len() as int)],
    )
}

/// The members of `l` followed by those of `r`.
fn joined(l: &Vec<SingleKey>, r: &Vec<SingleKey>) -> (t: Vec<SingleKey>)
    ensures
        t@ == l@ + r@,
{
    let mut t: Vec<SingleKey> = Vec::new();
    let mut i: usize = 0;
    while i < l.len()
        invariant
            i <= l.len(),
            t@ == l@.subrange(0, i as int),
        decreases l.len() - i,
    {
        t.push(l[i]);
        assert(t@ =~= l@.subrange(0, i + 1));
        i += 1;
    }
    assert(t@ =~= l@);
    let mut j: usize = 0;
    while j < r.len()
        invariant
            j <= r.len(),
            t@ == l@ + r@.subrange(0, j as int),
        decreases r.len() - j,
    {
        t.push(r[j]);
        assert(t@ =~= l@ + r@.subrange(0, j + 1));
        j += 1;
    }
    assert(t@ =~= l@ + r@);
    t
}

impl KeyAssign {
    /// The binding that needs a chord of `self` and a chord of `rhs` at
    /// once. Neither operand may be empty.
    pub fn and(self, rhs: Self) -> (r: Self)
        requires
            self@.len() > 0,
            rhs@.len() > 0,
        ensures
            r@ == cross(self@, rhs@),
    {
        let ghost n = rhs@.len() as int;
        let mut ret: Vec<MultiKey> = Vec::new();
        let mut i: usize = 0;
        while i < self.0.len()
            invariant
                i <= self.0.len(),
                n == rhs@.len(),
                n == rhs.0@.len(),
                n > 0,
                ret@.len() == i * n,
                forall|k: int|
                    0 <= k < ret@.len() ==> (#[trigger] ret@[k])@ == self@[k / n] + rhs@[k % n],
            decreases self.0.len() - i,
        {
            let mut j: usize = 0;
            while j < rhs.0.len()
                invariant
                    i < self.0.len(),
                    j <= rhs.0.len(),
                    n == rhs@.len(),
                    n == rhs.0@.len(),
                    n > 0,
                    ret@.len() == i * n + j,
                    forall|k: int|
                        0 <= k < ret@.len() ==> (#[trigger] ret@[k])@ == self@[k / n] + rhs@[k
                            % n],
                decreases rhs.0.len() - j,
            {
                let t = joined(&self.0[i].0, &rhs.0[j].0);
                proof {
                    let k = i * n + j;
                    vstd::arithmetic::div_mod::lemma_fundamental_div_mod_converse(
                        k,
                        n,
                        i as int,
                        j as int,
                    );
                }
                ret.push(MultiKey(t));
                j += 1;
            }
            assert((i + 1) * n == i * n + n) by (nonlinear_arith);
            i += 1;
        }
        let r = KeyAssign(ret);
        proof {
            assert(self.0@.len() == self@.len());
            assert(r@.len() == self@.len() * rhs@.len());
            assert(r@ =~= cross(self@, rhs@));
        }
        r
    }

    /// The binding that is satisfied by a chord of `self` or by one of
    /// `rhs`; the chords of `self` come first.
    pub fn or(self, rhs: Self) -> (r: Self)
        ensures
            r@ == self@ + rhs@,
    {
        let mut lhs = self;
        let mut tail = rhs;
        lhs.0.append(&mut tail.0);
        assert(lhs@ =~= self@ + rhs@);
        lhs
    }

    /// Whether some chord of the binding is held.
    pub fn pressed<S: InputState>(&self, input_state: &S) -> (r: bool)
        ensures
            r == binding_held(self@, input_state),
    {
        let mut i: usize = 0;
        while i < self.0.len()
            invariant
                i <= self.0.len(),
                self.0@.len() == self@.len(),
                forall|j: int| 0 <= j < i ==> !chord_held(#[trigger] self@[j], input_state),
            decreases self.0.len() - i,
        {
            if self.0[i].pressed(input_state) {
                assert(chord_held(self@[i as int], input_state));
                return true;
            }
            i += 1;
        }
        false
    }

    /// Whether some chord of the binding fires in this tick.
    pub fn just_pressed<S: InputState>(&self, input_state: &S) -> (r: bool)
        ensures
            r == binding_fired(self@, input_state),
    {
        let mut i: usize = 0;
        while i < self.0.len()
            invariant
                i <= self.0.len(),
                self.0@.len() == self@.len(),
                forall|j: int| 0 <= j < i ==> !chord_fired(#[trigger] self@[j], input_state),
            decreases self.0.len() - i,
        {
            if self.0[i].just_pressed(input_state) {
                assert(chord_fired(self@[i as int], input_state));
                return true;
            }
            i += 1;
        }
        false
    }
}

/// A chord of exactly one member on one device channel: a gamepad button
/// where `pad` is set, a key where it is not.
pub open spec fn lone(chord: Seq<SingleKey>, pad: bool) -> bool {
    chord.len() == 1 && if pad {
        chord[0] is GamepadButton
    } else {
        chord[0] is KeyCode
    }
}

/// `i` is the place of the first single-member chord of the channel.
pub open spec fn first_lone_at(chords: Seq<Seq<SingleKey>>, pad: bool, i: int) -> bool {
    &&& 0 <= i < chords.len()
    &&& lone(chords[i], pad)
    &&& forall|j: int| 0 <= j < i ==> !lone(#[trigger] chords[j], pad)
}

/// No chord of the binding is a single member of the channel.
pub open spec fn no_lone(chords: Seq<Seq<SingleKey>>, pad: bool) -> bool {
    forall|i: int| 0 <= i < chords.len() ==> !lone(#[trigger] chords[i], pad)
}

/// The place of the first single-member chord of the channel, if there
/// is one.
pub open spec fn first_lone(chords: Seq<Seq<SingleKey>>, pad: bool) -> Option<int> {
    if exists|i: int| first_lone_at(chords, pad, i) {
        Some(choose|i: int| first_lone_at(chords, pad, i))
    } else {
        None
    }
}

/// The member of the first single-member chord of the channel.
pub open spec fn extracted(chords: Seq<Seq<SingleKey>>, pad: bool) -> Option<SingleKey> {
    match first_lone(chords, pad) {
        Some(i) => Some(chords[i][0]),
        None => None,
    }
}

/// The binding after rebinding a channel to `key`: the first
/// single-member chord of the channel is overwritten; where there is
/// none, a new chord is appended. All other chords stay as they are.
pub open spec fn rebound(chords: Seq<Seq<SingleKey>>, pad: bool, key: SingleKey) -> Seq<
    Seq<SingleKey>,
> {
    match first_lone(chords, pad) {
        Some(i) => chords.update(i, seq![key]),
        None => chords.push(seq![key]),
    }
}

/// There is at most one first single-member chord, and `first_lone`
/// names it.
pub proof fn lemma_first_lone(chords: Seq<Seq<SingleKey>>, pad: bool, i: int)
    requires
        first_lone_at(chords, pad, i),
    ensures
        first_lone(chords, pad) == Some(i),
{
    let c = choose|c: int| first_lone_at(chords, pad, c);
    if c < i {
        assert(!lone(chords[c], pad));
    } else if i < c {
        assert(!lone(chords[i], pad));
    }
}

/// Where no chord is a single member of the channel, `first_lone` finds
/// none.
pub proof fn lemma_no_lone(chords: Seq<Seq<SingleKey>>, pad: bool)
    requires
        no_lone(chords, pad),
    ensures
        first_lone(chords, pad) is None,
{
    if exists|i: int| first_lone_at(chords, pad, i) {
        let c = choose|c: int| first_lone_at(chords, pad, c);
        assert(!lone(chords[c], pad));
    }
}

impl KeyAssign {
    /// The place of the first single-member chord of the channel.
    fn find_lone(&self, pad: bool) -> (r: Option<usize>)
        ensures
            match r {
                Some(i) => first_lone(self@, pad) == Some(i as int) && i < self.0@.len(),
                None => first_lone(self@, pad) is None,
            },
    {
        let mut i: usize = 0;
        while i < self.0.len()
            invariant
                i <= self.0.len(),
                self.0@.len() == self@.len(),
                forall|j: int| 0 <= j < i ==> !lone(#[trigger] self@[j], pad),
            decreases self.0.len() - i,
        {
            let chord = &self.0[i].0;
            if chord.len() == 1 {
                let hit = match chord[0] {
                    SingleKey::KeyCode(_) => !pad,
                    SingleKey::GamepadButton(_) => pad,
                    SingleKey::GamepadAxis(_, _) => false,
                };
                if hit {
                    proof {
                        assert(self@[i as int] == chord@);
                        lemma_first_lone(self@, pad, i as int);
                    }
                    return Some(i);
                }
            }
            assert(!lone(self@[i as int], pad));
            i += 1;
        }
        proof {
            lemma_no_lone(self@, pad);
        }
        None
    }

    /// Rebinds one channel to the single member `key`.
    fn rebind(&mut self, pad: bool, key: SingleKey)
        ensures
            final(self)@ == rebound(old(self)@, pad, key),
    {
        let mut chord: Vec<SingleKey> = Vec::new();
        chord.push(key);
        assert(chord@ =~= seq![key]);
        match self.find_lone(pad) {
            Some(i) => {
                self.0.set(i, MultiKey(chord));
                assert(self@ =~= old(self)@.update(i as int, seq![key]));
            },
            None => {
                self.0.push(MultiKey(chord));
                assert(self@ =~= old(self)@.push(seq![key]));
            },
        }
    }

    /// The key of the first chord that is a single key.
    pub fn extract_keycode(&self) -> (r: Option<KeyCode>)
        ensures
            r == match extracted(self@, false) {
                Some(key) => Some(key->KeyCode_0),
                None => None,
            },
    {
        match self.find_lone(false) {
            Some(i) => match self.0[i].0[0] {
                SingleKey::KeyCode(kc) => Some(kc),
                _ => None,
            },
            None => None,
        }
    }

    /// Rebinds the keyboard channel: the first chord that is a single key
    /// becomes `kc`; where there is none, the chord `kc` is appended.
    pub fn insert_keycode(&mut self, kc: KeyCode)
        ensures
            final(self)@ == rebound(old(self)@, false, SingleKey::KeyCode(kc)),
    {
        self.rebind(false, SingleKey::KeyCode(kc));
    }

    /// The button of the first chord that is a single gamepad button.
    pub fn extract_gamepad(&self) -> (r: Option<GamepadButton>)
        ensures
            r == match extracted(self@, true) {
                Some(key) => Some(key->GamepadButton_0),
                None => None,
            },
    {
        match self.find_lone(true) {
            Some(i) => match self.0[i].0[0] {
                SingleKey::GamepadButton(button) => Some(button),
                _ => None,
            },
            None => None,
        }
    }

    /// Rebinds the gamepad channel: the first chord that is a single
    /// button becomes `button`; where there is none, the chord `button`
    /// is appended.
    pub fn insert_gamepad(&mut self, button: GamepadButton)
        ensures
            final(self)@ == rebound(old(self)@, true, SingleKey::GamepadButton(button)),
    {
        self.rebind(true, SingleKey::GamepadButton(button));
    }
}

/// A chord made of two parts is held exactly when both parts are.
pub proof fn lemma_chord_held_concat<S: InputState>(l: Seq<SingleKey>, r: Seq<SingleKey>, s: &S)
    ensures
        chord_held(l + r, s) <==> chord_held(l, s) && chord_held(r, s),
{
    let t = l + r;
    if chord_held(t, s) {
        assert forall|i: int| 0 <= i < l.len() implies s.held(#[trigger] l[i]) by {
            assert(t[i] == l[i]);
        }
        assert forall|i: int| 0 <= i < r.len() implies s.held(#[trigger] r[i]) by {
            assert(t[l.len() + i] == r[i]);
        }
    }
    if chord_held(l, s) && chord_held(r, s) {
        assert forall|i: int| 0 <= i < t.len() implies s.held(#[trigger] t[i]) by {
            if i < l.len() {
                assert(t[i] == l[i]);
            } else {
                assert(t[i] == r[i - l.len()]);
            }
        }
    }
}

/// A chord fires only while it is held.
pub proof fn lemma_fired_implies_held<S: InputState>(chord: Seq<SingleKey>, s: &S)
    ensures
        !chord_held(chord, s) ==> !chord_fired(chord, s),
{
}

/// A binding fires only while it is held.
pub proof fn lemma_binding_fired_implies_held<S: InputState>(chords: Seq<Seq<SingleKey>>, s: &S)
    ensures
        binding_fired(chords, s) ==> binding_held(chords, s),
{
    if binding_fired(chords, s) {
        let i = choose|i: int| 0 <= i < chords.len() && chord_fired(#[trigger] chords[i], s);
        assert(chord_held(chords[i], s));
    }
}

/// The conjunction of two bindings is held exactly when both are held.
pub proof fn lemma_and_held<S: InputState>(a: Seq<Seq<SingleKey>>, b: Seq<Seq<SingleKey>>, s: &S)
    ensures
        binding_held(cross(a, b), s) <==> binding_held(a, s) && binding_held(b, s),
{
    let c = cross(a, b);
    let n = b.len() as int;
    if binding_held(c, s) {
        let k = choose|k: int| 0 <= k < c.len() && chord_held(#[trigger] c[k], s);
        assert(n > 0) by {
            if n == 0 {
                assert(a.len() * b.len() == 0) by (nonlinear_arith)
                    requires
                        b.len() == 0,
                ;
            }
        }
        let i = k / n;
        let j = k % n;
        assert(0 <= i < a.len()) by {
            vstd::arithmetic::div_mod::lemma_fundamental_div_mod(k, n);
            vstd::arithmetic::div_mod::lemma_mod_bound(k, n);
            assert(i < a.len()) by (nonlinear_arith)
                requires
                    k == n * i + j,
                    0 <= j < n,
                    k < a.len() * n,
            ;
            assert(0 <= i) by (nonlinear_arith)
                requires
                    k == n * i + j,
                    0 <= j < n,
                    0 <= k,
            ;
        }
        assert(0 <= j < n) by {
            vstd::arithmetic::div_mod::lemma_mod_bound(k, n);
        }
        assert(c[k] == a[i] + b[j]);
        lemma_chord_held_concat(a[i], b[j], s);
        assert(chord_held(a[i], s));
        assert(chord_held(b[j], s));
    }
    if binding_held(a, s) && binding_held(b, s) {
        let i = choose|i: int| 0 <= i < a.len() && chord_held(#[trigger] a[i], s);
        let j = choose|j: int| 0 <= j < b.len() && chord_held(#[trigger] b[j], s);
        let k = i * n + j;
        vstd::arithmetic::div_mod::lemma_fundamental_div_mod_converse(k, n, i, j);
        assert(0 <= k < a.len() * n) by (nonlinear_arith)
            requires
                k == i * n + j,
                0 <= i < a.len(),
                0 <= j < n,
        ;
        assert(c[k] == a[i] + b[j]);
        lemma_chord_held_concat(a[i], b[j], s);
        assert(chord_held(c[k], s));
    }
}

/// The conjunction of a single chord with a binding extends each chord
/// of the binding by that chord, in order.
pub proof fn lemma_cross_single(a: Seq<SingleKey>, b: Seq<Seq<SingleKey>>)
    ensures
        cross(seq![a], b) == Seq::new(b.len(), |j: int| a + b[j]),
{
    let n = b.len() as int;
    let c = cross(seq![a], b);
    assert(1 * b.len() == b.len()) by (nonlinear_arith);
    assert forall|k: int| 0 <= k < n implies #[trigger] c[k] == a + b[k] by {
        vstd::arithmetic::div_mod::lemma_fundamental_div_mod_converse(k, n, 0, k);
    }
    assert(c =~= Seq::new(b.len(), |j: int| a + b[j]));
}

/// Conjunction is associative: the chords come out the same, in the same
/// order, however three bindings are grouped.
pub proof fn lemma_and_associative(
    a: Seq<Seq<SingleKey>>,
    b: Seq<Seq<SingleKey>>,
    c: Seq<Seq<SingleKey>>,
)
    ensures
        cross(cross(a, b), c) == cross(a, cross(b, c)),
{
    let na = a.len() as int;
    let nb = b.len() as int;
    let nc = c.len() as int;
    let l = cross(cross(a, b), c);
    let r = cross(a, cross(b, c));
    assert((na * nb) * nc == na * (nb * nc)) by (nonlinear_arith);
    assert(l.len() == r.len());
    if nb == 0 || nc == 0 {
        assert(na * (nb * nc) == 0) by (nonlinear_arith)
            requires
                nb == 0 || nc == 0,
        ;
        assert(l =~= r);
    } else {
        assert(nb * nc > 0) by (nonlinear_arith)
            requires
                nb > 0,
                nc > 0,
        ;
        assert(nb * nc == nc * nb) by (nonlinear_arith);
        assert forall|k: int| 0 <= k < l.len() implies l[k] == r[k] by {
            let q = (k / nc) % nb;
            let m = k % (nb * nc);
            vstd::arithmetic::div_mod::lemma_div_denominator(k, nc, nb);
            vstd::arithmetic::div_mod::lemma_mod_breakdown(k, nc, nb);
            vstd::arithmetic::div_mod::lemma_mod_bound(k, nc);
            vstd::arithmetic::div_mod::lemma_mod_bound(k / nc, nb);
            vstd::arithmetic::div_mod::lemma_mod_bound(k, nb * nc);
            assert(m == q * nc + k % nc) by (nonlinear_arith)
                requires
                    m == nc * q + k % nc,
            ;
            vstd::arithmetic::div_mod::lemma_fundamental_div_mod_converse(m, nc, q, k % nc);
            vstd::arithmetic::div_mod::lemma_fundamental_div_mod(k, nc);
            assert(0 <= k / nc < na * nb) by (nonlinear_arith)
                requires
                    k == nc * (k / nc) + k % nc,
                    0 <= k % nc < nc,
                    0 <= k < (na * nb) * nc,
            ;
            assert(cross(a, b)[k / nc] == a[(k / nc) / nb] + b[q]);
            assert(cross(b, c)[m] == b[m / nc] + c[m % nc]);
            assert(l[k] == cross(a, b)[k / nc] + c[k % nc]);
            assert(r[k] == a[k / (nb * nc)] + cross(b, c)[m]);
            assert((a[(k / nc) / nb] + b[q]) + c[k % nc] =~= a[(k / nc) / nb] + (b[q] + c[k
                % nc]));
        }
        assert(l =~= r);
    }
}

/// Disjunction is associative.
pub proof fn lemma_or_associative(
    a: Seq<Seq<SingleKey>>,
    b: Seq<Seq<SingleKey>>,
    c: Seq<Seq<SingleKey>>,
)
    ensures
        (a + b) + c == a + (b + c),
{
    assert((a + b) + c =~= a + (b + c));
}

/// Whether a chord is held depends on its members alone, not on their
/// order or on how often one occurs.
pub proof fn lemma_chord_held_by_members<S: InputState>(
    a: Seq<SingleKey>,
    b: Seq<SingleKey>,
    s: &S,
)
    requires
        a.to_set() == b.to_set(),
    ensures
        chord_held(a, s) == chord_held(b, s),
        chord_fired(a, s) == chord_fired(b, s),
{
    assert forall|x: Seq<SingleKey>, y: Seq<SingleKey>|
        x.to_set() == y.to_set() && chord_held(x, s) implies chord_held(y, s) by {
        assert forall|i: int| 0 <= i < y.len() implies s.held(#[trigger] y[i]) by {
            assert(y.to_set().contains(y[i]));
            assert(x.contains(y[i]));
            let j = choose|j: int| 0 <= j < x.len() && x[j] == y[i];
            assert(s.held(x[j]));
        }
    }
    assert forall|x: Seq<SingleKey>, y: Seq<SingleKey>|
        x.to_set() == y.to_set() && chord_touched(x, s) implies chord_touched(y, s) by {
        let i = choose|i: int| 0 <= i < x.len() && s.newly_held(#[trigger] x[i]);
        assert(x.to_set().contains(x[i]));
        assert(y.contains(x[i]));
        let j = choose|j: int| 0 <= j < y.len() && y[j] == x[i];
        assert(s.newly_held(y[j]));
    }
}

/// The disjunction of two bindings is held exactly when one of them is.
pub proof fn lemma_or_held<S: InputState>(a: Seq<Seq<SingleKey>>, b: Seq<Seq<SingleKey>>, s: &S)
    ensures
        binding_held(a + b, s) <==> binding_held(a, s) || binding_held(b, s),
{
    let c = a + b;
    if binding_held(c, s) {
        let k = choose|k: int| 0 <= k < c.len() && chord_held(#[trigger] c[k], s);
        if k < a.len() {
            assert(c[k] == a[k]);
        } else {
            assert(c[k] == b[k - a.len()]);
        }
    }
    if binding_held(a, s) {
        let i = choose|i: int| 0 <= i < a.len() && chord_held(#[trigger] a[i], s);
        assert(c[i] == a[i]);
    }
    if binding_held(b, s) {
        let j = choose|j: int| 0 <= j < b.len() && chord_held(#[trigger] b[j], s);
        assert(c[a.len() + j] == b[j]);
    }
}

/// The disjunction of two bindings fires exactly when one of them does.
pub proof fn lemma_or_fired<S: InputState>(a: Seq<Seq<SingleKey>>, b: Seq<Seq<SingleKey>>, s: &S)
    ensures
        binding_fired(a + b, s) <==> binding_fired(a, s) || binding_fired(b, s),
{
    let c = a + b;
    if binding_fired(c, s) {
        let k = choose|k: int| 0 <= k < c.len() && chord_fired(#[trigger] c[k], s);
        if k < a.len() {
            assert(c[k] == a[k]);
        } else {
            assert(c[k] == b[k - a.len()]);
        }
    }
    if binding_fired(a, s) {
        let i = choose|i: int| 0 <= i < a.len() && chord_fired(#[trigger] a[i], s);
        assert(c[i] == a[i]);
    }
    if binding_fired(b, s) {
        let j = choose|j: int| 0 <= j < b.len() && chord_fired(#[trigger] b[j], s);
        assert(c[a.len() + j] == b[j]);
    }
}

/// After a channel is rebound to a member of that channel, extraction on
/// the channel gives that member back, whatever the binding held before.
pub proof fn lemma_extract_after_insert(chords: Seq<Seq<SingleKey>>, pad: bool, key: SingleKey)
    requires
        lone(seq![key], pad),
    ensures
        extracted(rebound(chords, pad, key), pad) == Some(key),
{
    let after = rebound(chords, pad, key);
    match first_lone(chords, pad) {
        Some(i) => {
            assert(first_lone_at(chords, pad, i));
            assert(after[i] == seq![key]);
            assert forall|j: int| 0 <= j < i implies !lone(#[trigger] after[j], pad) by {
                assert(after[j] == chords[j]);
                assert(!lone(chords[j], pad));
            }
            lemma_first_lone(after, pad, i);
        },
        None => {
            let n = chords.len() as int;
            assert(after[n] == seq![key]);
            assert forall|j: int| 0 <= j < n implies !lone(#[trigger] after[j], pad) by {
                assert(after[j] == chords[j]);
                if lone(chords[j], pad) {
                    lemma_some_lone(chords, pad, j);
                }
            }
            lemma_first_lone(after, pad, n);
        },
    }
}

/// Where some chord is a single member of the channel, there is a first
/// one.
pub proof fn lemma_some_lone(chords: Seq<Seq<SingleKey>>, pad: bool, i: int)
    requires
        0 <= i < chords.len(),
        lone(chords[i], pad),
    ensures
        first_lone(chords, pad) is Some,
    decreases i,
{
    if exists|j: int| 0 <= j < i && lone(#[trigger] chords[j], pad) {
        let j = choose|j: int| 0 <= j < i && lone(#[trigger] chords[j], pad);
        lemma_some_lone(chords, pad, j);
    } else {
        assert(first_lone_at(chords, pad, i));
    }
}

} // verus!
