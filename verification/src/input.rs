use crate::key_assign::GamepadAxis;
use crate::key_assign::GamepadAxisDir;
use crate::key_assign::GamepadButton;
use crate::key_assign::KeyAssign;
use crate::key_assign::KeyCode;
use crate::key_assign::SingleKey;
use vstd::prelude::*;

verus! {

/// The deflection of an axis is counted in thousandths of its full travel.
pub const AXIS_FULL: i32 = 1000;

/// An axis counts as pushed from half of its travel on.
pub const AXIS_THRESHOLD: i32 = 500;

/// The input devices during one tick: what is held, what went down in this
/// tick, and how far each axis is pushed.
pub struct InputState {
    /// The keys that are held.
    pub keys: Vec<KeyCode>,
    /// The keys that went down in this tick.
    pub keys_just: Vec<KeyCode>,
    /// The gamepad buttons that are held.
    pub buttons: Vec<GamepadButton>,
    /// The gamepad buttons that went down in this tick.
    pub buttons_just: Vec<GamepadButton>,
    /// The deflection of the axes, in thousandths of the full travel. Where
    /// an axis is listed twice, the later entry counts.
    pub axes: Vec<(GamepadAxis, i32)>,
}

/// The deflection that a list of readings gives for an axis.
pub open spec fn axis_reading(axes: Seq<(GamepadAxis, i32)>, axis: GamepadAxis) -> Option<i32>
    decreases axes.len(),
{
    if axes.len() == 0 {
        None
    } else if axes.last().0 == axis {
        Some(axes.last().1)
    } else {
        axis_reading(axes.drop_last(), axis)
    }
}

/// Whether a deflection counts as a push in a direction. An axis without a
/// reading rests at zero.
pub open spec fn axis_pushed(reading: Option<i32>, dir: GamepadAxisDir) -> bool {
    let value = match reading {
        Some(v) => v,
        None => 0i32,
    };
    match dir {
        GamepadAxisDir::Pos => value >= AXIS_THRESHOLD,
        GamepadAxisDir::Neg => value <= -AXIS_THRESHOLD,
    }
}

impl InputState {
    pub fn new(
        keys: Vec<KeyCode>,
        keys_just: Vec<KeyCode>,
        buttons: Vec<GamepadButton>,
        buttons_just: Vec<GamepadButton>,
        axes: Vec<(GamepadAxis, i32)>,
    ) -> (r: Self)
        ensures
            r.keys == keys,
            r.keys_just == keys_just,
            r.buttons == buttons,
            r.buttons_just == buttons_just,
            r.axes == axes,
    {
        InputState { keys, keys_just, buttons, buttons_just, axes }
    }

    /// The deflection of an axis, if the devices report one.
    pub fn axis_value(&self, axis: GamepadAxis) -> (r: Option<i32>)
        ensures
            r == axis_reading(self.axes@, axis),
    {
        let mut found: Option<i32> = None;
        let mut i: usize = 0;
        while i < self.axes.len()
            invariant
                i <= self.axes.len(),
                found == axis_reading(self.axes@.subrange(0, i as int), axis),
            decreases self.axes.len() - i,
        {
            proof {
                let next = self.axes@.subrange(0, i + 1);
                assert(next.drop_last() =~= self.axes@.subrange(0, i as int));
            }
            if self.axes[i].0 == axis {
                found = Some(self.axes[i].1);
            }
            i += 1;
        }
        assert(self.axes@.subrange(0, i as int) =~= self.axes@);
        found
    }
}

fn has_key(keys: &Vec<KeyCode>, key: KeyCode) -> (r: bool)
    ensures
        r == keys@.contains(key),
{
    let mut i: usize = 0;
    while i < keys.len()
        invariant
            i <= keys.len(),
            forall|j: int| 0 <= j < i ==> keys@[j] != key,
        decreases keys.len() - i,
    {
        if keys[i] == key {
            return true;
        }
        i += 1;
    }
    false
}

fn has_button(buttons: &Vec<GamepadButton>, button: GamepadButton) -> (r: bool)
    ensures
        r == buttons@.contains(button),
{
    let mut i: usize = 0;
    while i < buttons.len()
        invariant
            i <= buttons.len(),
            forall|j: int| 0 <= j < i ==> buttons@[j] != button,
        decreases buttons.len() - i,
    {
        if buttons[i] == button {
            return true;
        }
        i += 1;
    }
    false
}

impl crate::key_assign::InputState for InputState {
    /// A key or a button is held when it is among the held ones; an axis,
    /// when it is pushed to at least half of its travel in the direction.
    open spec fn held(&self, key: SingleKey) -> bool {
        match key {
            SingleKey::KeyCode(code) => self.keys@.contains(code),
            SingleKey::GamepadButton(button) => self.buttons@.contains(button),
            SingleKey::GamepadAxis(axis, dir) => axis_pushed(axis_reading(self.axes@, axis), dir),
        }
    }

    /// A key or a button is newly held when it is among those that went
    /// down in this tick. An axis never is: its edges are not detected.
    open spec fn newly_held(&self, key: SingleKey) -> bool {
        match key {
            SingleKey::KeyCode(code) => self.keys_just@.contains(code),
            SingleKey::GamepadButton(button) => self.buttons_just@.contains(button),
            SingleKey::GamepadAxis(_, _) => false,
        }
    }

    fn pressed(&self, key: &SingleKey) -> (r: bool) {
        match *key {
            SingleKey::KeyCode(code) => has_key(&self.keys, code),
            SingleKey::GamepadButton(button) => has_button(&self.buttons, button),
            SingleKey::GamepadAxis(axis, dir) => {
                let value = match self.axis_value(axis) {
                    Some(v) => v,
                    None => 0,
                };
                match dir {
                    GamepadAxisDir::Pos => value >= AXIS_THRESHOLD,
                    GamepadAxisDir::Neg => value <= -AXIS_THRESHOLD,
                }
            },
        }
    }

    fn just_pressed(&self, key: &SingleKey) -> (r: bool) {
        match *key {
            SingleKey::KeyCode(code) => has_key(&self.keys_just, code),
            SingleKey::GamepadButton(button) => has_button(&self.buttons_just, button),
            SingleKey::GamepadAxis(_, _) => false,
        }
    }
}

/// The name of an action in a table of bindings: a value that can be
/// compared and copied.
pub trait ActionKey: Sized {
    fn same(&self, other: &Self) -> (r: bool)
        ensures
            r == (*self == *other),
    ;

    fn duplicate(&self) -> (r: Self)
        ensures
            r == *self,
    ;
}

/// A table of bindings: for each action its binding, in the order of
/// display.
#[derive(PartialEq, Eq, Clone, Debug)]
pub struct KeyConfig<Key>(pub Vec<(Key, KeyAssign)>);

impl<Key> View for KeyConfig<Key> {
    type V = Seq<(Key, Seq<Seq<SingleKey>>)>;

    open spec fn view(&self) -> Seq<(Key, Seq<Seq<SingleKey>>)> {
        Seq::new(self.0@.len(), |i: int| (self.0@[i].0, self.0@[i].1@))
    }
}

/// `i` is the place of the first entry for `key`.
pub open spec fn slot_at<Key>(table: Seq<(Key, Seq<Seq<SingleKey>>)>, key: Key, i: int) -> bool {
    &&& 0 <= i < table.len()
    &&& table[i].0 == key
    &&& forall|j: int| 0 <= j < i ==> (#[trigger] table[j]).0 != key
}

/// The place of the first entry for `key`, if the table has one.
pub open spec fn slot<Key>(table: Seq<(Key, Seq<Seq<SingleKey>>)>, key: Key) -> Option<int> {
    if exists|i: int| slot_at(table, key, i) {
        Some(choose|i: int| slot_at(table, key, i))
    } else {
        None
    }
}

/// The binding of `key`, if the table has one.
pub open spec fn binding_of<Key>(table: Seq<(Key, Seq<Seq<SingleKey>>)>, key: Key) -> Option<
    Seq<Seq<SingleKey>>,
> {
    match slot(table, key) {
        Some(i) => Some(table[i].1),
        None => None,
    }
}

/// The table after one channel of `key` was rebound to `member`: the
/// binding of `key` is rebound in place; where the table has no entry for
/// `key`, one is appended that holds the single chord `member`.
pub open spec fn table_rebound<Key>(
    table: Seq<(Key, Seq<Seq<SingleKey>>)>,
    key: Key,
    pad: bool,
    member: SingleKey,
) -> Seq<(Key, Seq<Seq<SingleKey>>)> {
    match slot(table, key) {
        Some(i) => table.update(i, (key, crate::key_assign::rebound(table[i].1, pad, member))),
        None => table.push((key, seq![seq![member]])),
    }
}

/// No action has two entries.
pub open spec fn distinct_actions<Key>(table: Seq<(Key, Seq<Seq<SingleKey>>)>) -> bool {
    forall|i: int, j: int|
        0 <= i < j < table.len() ==> (#[trigger] table[i]).0 != (#[trigger] table[j]).0
}

/// Rebinding keeps a table free of double entries.
pub proof fn lemma_rebound_distinct<Key>(
    table: Seq<(Key, Seq<Seq<SingleKey>>)>,
    key: Key,
    pad: bool,
    member: SingleKey,
)
    requires
        distinct_actions(table),
    ensures
        distinct_actions(table_rebound(table, key, pad, member)),
{
    let after = table_rebound(table, key, pad, member);
    match slot(table, key) {
        Some(i) => {
            assert(slot_at(table, key, i));
            assert forall|a: int, b: int| 0 <= a < b < after.len() implies (#[trigger] after[a]).0
                != (#[trigger] after[b]).0 by {
                assert(after[a].0 == table[a].0);
                assert(after[b].0 == table[b].0);
            }
        },
        None => {
            assert forall|a: int, b: int| 0 <= a < b < after.len() implies (#[trigger] after[a]).0
                != (#[trigger] after[b]).0 by {
                if b == table.len() {
                    assert(after[a] == table[a]);
                    if table[a].0 == key {
                        lemma_some_slot(table, key, a);
                    }
                } else {
                    assert(after[a] == table[a]);
                    assert(after[b] == table[b]);
                }
            }
        },
    }
}

/// Where some entry is for `key`, there is a first one.
pub proof fn lemma_some_slot<Key>(table: Seq<(Key, Seq<Seq<SingleKey>>)>, key: Key, i: int)
    requires
        0 <= i < table.len(),
        table[i].0 == key,
    ensures
        slot(table, key) is Some,
    decreases i,
{
    if exists|j: int| 0 <= j < i && (#[trigger] table[j]).0 == key {
        let j = choose|j: int| 0 <= j < i && (#[trigger] table[j]).0 == key;
        lemma_some_slot(table, key, j);
    } else {
        assert(slot_at(table, key, i));
    }
}

/// There is at most one first entry for a key, and `slot` names it.
pub proof fn lemma_slot<Key>(table: Seq<(Key, Seq<Seq<SingleKey>>)>, key: Key, i: int)
    requires
        slot_at(table, key, i),
    ensures
        slot(table, key) == Some(i),
{
    let c = choose|c: int| slot_at(table, key, c);
    if c < i {
        assert(table[c].0 != key);
    } else if i < c {
        assert(table[i].0 != key);
    }
}

/// Where no entry is for `key`, `slot` finds none.
pub proof fn lemma_no_slot<Key>(table: Seq<(Key, Seq<Seq<SingleKey>>)>, key: Key)
    requires
        forall|i: int| 0 <= i < table.len() ==> (#[trigger] table[i]).0 != key,
    ensures
        slot(table, key) is None,
{
    if exists|i: int| slot_at(table, key, i) {
        let c = choose|c: int| slot_at(table, key, c);
        assert(table[c].0 != key);
    }
}

impl<Key: ActionKey> KeyConfig<Key> {
    /// The place of the first entry for `key`.
    pub(crate) fn find(&self, key: &Key) -> (r: Option<usize>)
        ensures
            match r {
                Some(i) => slot(self@, *key) == Some(i as int) && i < self.0@.len(),
                None => slot(self@, *key) is None,
            },
    {
        let mut i: usize = 0;
        while i < self.0.len()
            invariant
                i <= self.0.len(),
                self.0@.len() == self@.len(),
                forall|j: int| 0 <= j < i ==> (#[trigger] self@[j]).0 != *key,
            decreases self.0.len() - i,
        {
            if self.0[i].0.same(key) {
                proof {
                    assert(self@[i as int].0 == *key);
                    lemma_slot(self@, *key, i as int);
                }
                return Some(i);
            }
            assert(self@[i as int].0 != *key);
            i += 1;
        }
        proof {
            lemma_no_slot(self@, *key);
        }
        None
    }

    /// The binding of an action.
    pub fn key_assign(&self, key: &Key) -> (r: Option<&KeyAssign>)
        ensures
            match r {
                Some(binding) => binding_of(self@, *key) == Some(binding@) && exists|i: int|
                    0 <= i < self.0@.len() && slot(self@, *key) == Some(i) && *binding
                        == self.0@[i].1,
                None => binding_of(self@, *key) is None,
            },
    {
        match self.find(key) {
            Some(i) => Some(&self.0[i].1),
            None => None,
        }
    }

    /// Whether the binding of an action is held. An action without an
    /// entry never is.
    pub fn pressed(&self, key: &Key, input_state: &InputState) -> (r: bool)
        ensures
            r == match binding_of(self@, *key) {
                Some(binding) => crate::key_assign::binding_held(binding, input_state),
                None => false,
            },
    {
        match self.find(key) {
            Some(i) => self.0[i].1.pressed(input_state),
            None => false,
        }
    }

    /// Whether the binding of an action fires in this tick. An action
    /// without an entry never does.
    pub fn just_pressed(&self, key: &Key, input_state: &InputState) -> (r: bool)
        ensures
            r == match binding_of(self@, *key) {
                Some(binding) => crate::key_assign::binding_fired(binding, input_state),
                None => false,
            },
    {
        match self.find(key) {
            Some(i) => self.0[i].1.just_pressed(input_state),
            None => false,
        }
    }
}

impl<Key: ActionKey> KeyConfig<Key> {
    /// The binding of an action, to be changed in place.
    pub fn key_assign_mut(&mut self, key: &Key) -> (r: Option<&mut KeyAssign>)
        ensures
            match r {
                Some(binding) => exists|i: int|
                    0 <= i < old(self).0@.len() && slot(old(self)@, *key) == Some(i) && *binding
                        == old(self).0@[i].1 && final(self).0@ == old(self).0@.update(
                        i,
                        (old(self).0@[i].0, *final(binding)),
                    ),
                None => slot(old(self)@, *key) is None && *final(self) == *old(self),
            },
    {
        match self.find(key) {
            Some(i) => Some(&mut self.0[i].1),
            None => None,
        }
    }

    /// Rebinds one channel of an action.
    fn rebind(&mut self, key: &Key, pad: bool, member: SingleKey)
        requires
            crate::key_assign::lone(seq![member], pad),
        ensures
            final(self)@ == table_rebound(old(self)@, *key, pad, member),
    {
        match self.find(key) {
            Some(i) => {
                match member {
                    SingleKey::KeyCode(code) => self.0[i].1.insert_keycode(code),
                    SingleKey::GamepadButton(button) => self.0[i].1.insert_gamepad(button),
                    SingleKey::GamepadAxis(_, _) => {},
                }
                assert(self@ =~= table_rebound(old(self)@, *key, pad, member));
            },
            None => {
                self.0.push((key.duplicate(), KeyAssign::single(member)));
                assert(self@ =~= table_rebound(old(self)@, *key, pad, member));
            },
        }
    }

    /// Rebinds the keyboard channel of an action: the first chord of its
    /// binding that is a single key becomes `key_code`, or the chord is
    /// appended. An action without an entry gets one.
    pub fn insert_keycode(&mut self, key: &Key, key_code: KeyCode)
        ensures
            final(self)@ == table_rebound(old(self)@, *key, false, SingleKey::KeyCode(key_code)),
    {
        self.rebind(key, false, SingleKey::KeyCode(key_code));
    }

    /// Rebinds the gamepad channel of an action: the first chord of its
    /// binding that is a single button becomes `button`, or the chord is
    /// appended. An action without an entry gets one.
    pub fn insert_gamepad(&mut self, key: &Key, button: GamepadButton)
        ensures
            final(self)@ == table_rebound(
                old(self)@,
                *key,
                true,
                SingleKey::GamepadButton(button),
            ),
    {
        self.rebind(key, true, SingleKey::GamepadButton(button));
    }
}

impl<Key: ActionKey> KeyConfig<Key> {
    /// For every entry of the table, in its order: the action, whether its
    /// binding is held, and whether it fires in this tick.
    pub fn evaluate_all(&self, input_state: &InputState) -> (r: Vec<(Key, bool, bool)>)
        ensures
            r@.len() == self@.len(),
            forall|i: int|
                0 <= i < r@.len() ==> #[trigger] r@[i] == (
                    self@[i].0,
                    crate::key_assign::binding_held(self@[i].1, input_state),
                    crate::key_assign::binding_fired(self@[i].1, input_state),
                ),
    {
        let mut out: Vec<(Key, bool, bool)> = Vec::new();
        let mut i: usize = 0;
        while i < self.0.len()
            invariant
                i <= self.0.len(),
                self.0@.len() == self@.len(),
                out@.len() == i,
                forall|j: int|
                    0 <= j < i ==> #[trigger] out@[j] == (
                        self@[j].0,
                        crate::key_assign::binding_held(self@[j].1, input_state),
                        crate::key_assign::binding_fired(self@[j].1, input_state),
                    ),
            decreases self.0.len() - i,
        {
            let held = self.0[i].1.pressed(input_state);
            let fired = self.0[i].1.just_pressed(input_state);
            out.push((self.0[i].0.duplicate(), held, fired));
            i += 1;
        }
        out
    }
}

} // verus!
