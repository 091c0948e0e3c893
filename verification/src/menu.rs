use crate::hotkey::HotKey;
use crate::hotkey::HotKeys;
use crate::input::binding_of;
use crate::input::slot;
use crate::input::table_rebound;
use crate::input::ActionKey;
use crate::input::InputState;
use crate::input::KeyConfig;
use crate::key_assign::rebound;
use crate::key_assign::GamepadButton;
use crate::key_assign::KeyAssign;
use crate::key_assign::KeyCode;
use crate::key_assign::MultiKey;
use crate::key_assign::SingleKey;
use vstd::prelude::*;

verus! {

/// The keys and buttons that are held, as chord members: the keys first,
/// then the buttons, each in the order of the device state. Axes are not
/// captured.
pub open spec fn pressed_now(keys: Seq<KeyCode>, buttons: Seq<GamepadButton>) -> Seq<SingleKey> {
    Seq::new(
        keys.len() + buttons.len(),
        |i: int|
            if i < keys.len() {
                SingleKey::KeyCode(keys[i])
            } else {
                SingleKey::GamepadButton(buttons[i - keys.len()])
            },
    )
}

/// Some member of the gesture is no longer held.
pub open spec fn released(gesture: Seq<SingleKey>, current: Seq<SingleKey>) -> bool {
    exists|i: int| 0 <= i < gesture.len() && !current.contains(#[trigger] gesture[i])
}

/// The gesture with the held members that it lacks, each added once, in
/// the order in which they are held.
pub open spec fn grown(gesture: Seq<SingleKey>, current: Seq<SingleKey>) -> Seq<SingleKey>
    decreases current.len(),
{
    if current.len() == 0 {
        gesture
    } else {
        let before = grown(gesture, current.drop_last());
        if before.contains(current.last()) {
            before
        } else {
            before.push(current.last())
        }
    }
}

/// What a capture session says after a tick.
#[derive(Clone, Debug, PartialEq, Eq)]
pub enum SessionState {
    /// No key or button was pressed yet.
    Waiting,
    /// A gesture is being pressed; none of its members was released yet.
    Accumulating,
    /// A member of the gesture was released: the gesture is the new chord.
    Committed(MultiKey),
}

/// The recording of a new chord: the user presses one or more keys or
/// buttons, and the chord is complete when the first of them is released.
pub struct ChordCaptureSession {
    accumulating: Option<Vec<SingleKey>>,
}

impl View for ChordCaptureSession {
    type V = Option<Seq<SingleKey>>;

    closed spec fn view(&self) -> Option<Seq<SingleKey>> {
        match self.accumulating {
            Some(gesture) => Some(gesture@),
            None => None,
        }
    }
}

fn position(list: &Vec<SingleKey>, key: SingleKey) -> (r: bool)
    ensures
        r == list@.contains(key),
{
    let mut i: usize = 0;
    while i < list.len()
        invariant
            i <= list.len(),
            forall|j: int| 0 <= j < i ==> list@[j] != key,
        decreases list.len() - i,
    {
        if list[i] == key {
            return true;
        }
        i += 1;
    }
    false
}

/// The held keys and buttons of a device state, as chord members.
pub fn current_pressed(input_state: &InputState) -> (r: Vec<SingleKey>)
    ensures
        r@ == pressed_now(input_state.keys@, input_state.buttons@),
{
    let mut out: Vec<SingleKey> = Vec::new();
    let mut i: usize = 0;
    while i < input_state.keys.len()
        invariant
            i <= input_state.keys.len(),
            out@.len() == i,
            forall|j: int| 0 <= j < i ==> out@[j] == SingleKey::KeyCode(input_state.keys@[j]),
        decreases input_state.keys.len() - i,
    {
        out.push(SingleKey::KeyCode(input_state.keys[i]));
        i += 1;
    }
    let mut k: usize = 0;
    while k < input_state.buttons.len()
        invariant
            k <= input_state.buttons.len(),
            out@.len() == input_state.keys.len() + k,
            forall|j: int|
                0 <= j < input_state.keys.len() ==> out@[j] == SingleKey::KeyCode(
                    input_state.keys@[j],
                ),
            forall|j: int|
                0 <= j < k ==> out@[input_state.keys.len() + j] == SingleKey::GamepadButton(
                    input_state.buttons@[j],
                ),
        decreases input_state.buttons.len() - k,
    {
        out.push(SingleKey::GamepadButton(input_state.buttons[k]));
        k += 1;
    }
    assert(out@ =~= pressed_now(input_state.keys@, input_state.buttons@));
    out
}

impl ChordCaptureSession {
    #[verifier::type_invariant]
    spec fn seeded(&self) -> bool {
        match self.accumulating {
            Some(gesture) => gesture@.len() > 0,
            None => true,
        }
    }

    /// A session that has seen no press yet.
    pub fn new() -> (r: Self)
        ensures
            r@ is None,
    {
        ChordCaptureSession { accumulating: None }
    }

    /// The gesture pressed so far, in the order in which its members were
    /// first seen.
    pub fn gesture(&self) -> (r: Option<Vec<SingleKey>>)
        ensures
            match r {
                Some(g) => self@ == Some(g@),
                None => self@ is None,
            },
    {
        match &self.accumulating {
            Some(gesture) => {
                let mut out: Vec<SingleKey> = Vec::new();
                let mut i: usize = 0;
                while i < gesture.len()
                    invariant
                        i <= gesture.len(),
                        out@ == gesture@.subrange(0, i as int),
                    decreases gesture.len() - i,
                {
                    out.push(gesture[i]);
                    assert(out@ =~= gesture@.subrange(0, i + 1));
                    i += 1;
                }
                assert(out@ =~= gesture@);
                Some(out)
            },
            None => None,
        }
    }

    /// One tick of the session on the held members `current`.
    ///
    /// Before any press the first non-empty `current` becomes the gesture.
    /// After that, a tick in which some member of the gesture is missing
    /// from `current` completes the chord and ends the session; any other
    /// tick adds the members of `current` that the gesture lacks.
    pub fn feed_pressed(&mut self, current: Vec<SingleKey>) -> (r: SessionState)
        ensures
            match old(self)@ {
                None => if current@.len() == 0 {
                    r == SessionState::Waiting && final(self)@ is None
                } else {
                    r == SessionState::Accumulating && final(self)@ == Some(current@)
                },
                Some(gesture) => if released(gesture, current@) {
                    &&& r is Committed
                    &&& r->Committed_0@ == gesture
                    &&& gesture.len() > 0
                    &&& final(self)@ is None
                } else {
                    r == SessionState::Accumulating && final(self)@ == Some(
                        grown(gesture, current@),
                    )
                },
            },
    {
        proof {
            use_type_invariant(&*self);
        }
        let mut taken = ChordCaptureSession { accumulating: None };
        core::mem::swap(self, &mut taken);
        match taken.accumulating {
            None => {
                if current.len() == 0 {
                    SessionState::Waiting
                } else {
                    self.accumulating = Some(current);
                    SessionState::Accumulating
                }
            },
            Some(gesture) => {
                let mut i: usize = 0;
                let mut lost = false;
                while i < gesture.len() && !lost
                    invariant
                        i <= gesture.len(),
                        !lost ==> forall|j: int|
                            0 <= j < i ==> current@.contains(#[trigger] gesture@[j]),
                        lost ==> released(gesture@, current@),
                    decreases gesture.len() - i + if lost { 0int } else { 1int },
                {
                    if !position(&current, gesture[i]) {
                        lost = true;
                    } else {
                        i += 1;
                    }
                }
                if lost {
                    SessionState::Committed(MultiKey(gesture))
                } else {
                    let mut gesture = gesture;
                    let ghost start = gesture@;
                    let mut k: usize = 0;
                    while k < current.len()
                        invariant
                            k <= current.len(),
                            gesture@ == grown(start, current@.subrange(0, k as int)),
                            gesture@.len() > 0,
                            start.len() > 0,
                        decreases current.len() - k,
                    {
                        proof {
                            let next = current@.subrange(0, k + 1);
                            assert(next.drop_last() =~= current@.subrange(0, k as int));
                        }
                        if !position(&gesture, current[k]) {
                            gesture.push(current[k]);
                        }
                        k += 1;
                    }
                    assert(current@.subrange(0, k as int) =~= current@);
                    self.accumulating = Some(gesture);
                    SessionState::Accumulating
                }
            },
        }
    }

    /// One tick of the session on a device state: its held keys and
    /// buttons are the held members.
    pub fn feed(&mut self, input_state: &InputState) -> (r: SessionState)
        ensures
            match old(self)@ {
                None => if input_state.keys@.len() + input_state.buttons@.len() == 0 {
                    r == SessionState::Waiting && final(self)@ is None
                } else {
                    r == SessionState::Accumulating && final(self)@ == Some(
                        pressed_now(input_state.keys@, input_state.buttons@),
                    )
                },
                Some(gesture) => if released(
                    gesture,
                    pressed_now(input_state.keys@, input_state.buttons@),
                ) {
                    &&& r is Committed
                    &&& r->Committed_0@ == gesture
                    &&& gesture.len() > 0
                    &&& final(self)@ is None
                } else {
                    r == SessionState::Accumulating && final(self)@ == Some(
                        grown(gesture, pressed_now(input_state.keys@, input_state.buttons@)),
                    )
                },
            },
    {
        let current = current_pressed(input_state);
        self.feed_pressed(current)
    }
}

/// The binding after a captured chord was put into one of its slots: a
/// slot of a chord takes the new chord in its place, the slot behind the
/// last chord appends it, and any other slot leaves the binding as it is.
pub open spec fn with_chord(chords: Seq<Seq<SingleKey>>, slot: int, chord: Seq<SingleKey>) -> Seq<
    Seq<SingleKey>,
> {
    if 0 <= slot < chords.len() {
        chords.update(slot, chord)
    } else if slot == chords.len() {
        chords.push(chord)
    } else {
        chords
    }
}

/// Puts a captured chord into a slot of a binding, and says whether the
/// binding has that slot.
pub fn assign_chord(binding: &mut KeyAssign, slot: usize, chord: MultiKey) -> (r: bool)
    ensures
        r == (slot <= old(binding)@.len()),
        final(binding)@ == with_chord(old(binding)@, slot as int, chord@),
{
    if slot < binding.0.len() {
        binding.0.set(slot, chord);
        assert(binding@ =~= old(binding)@.update(slot as int, chord@));
        true
    } else if slot == binding.0.len() {
        binding.0.push(chord);
        assert(binding@ =~= old(binding)@.push(chord@));
        true
    } else {
        false
    }
}

/// Takes the chord in a slot out of a binding, and says whether there was
/// one.
pub fn remove_chord(binding: &mut KeyAssign, slot: usize) -> (r: bool)
    ensures
        r == (slot < old(binding)@.len()),
        final(binding)@ == if slot < old(binding)@.len() {
            old(binding)@.remove(slot as int)
        } else {
            old(binding)@
        },
{
    if slot < binding.0.len() {
        let _ = binding.0.remove(slot);
        assert(binding@ =~= old(binding)@.remove(slot as int));
        true
    } else {
        false
    }
}

/// Whether a rebinding takes place: a row is selected, the rows being
/// counted from one, and something went down in this tick.
pub open spec fn rebinds(rows: int, selected: int, pressed: int) -> bool {
    1 <= selected <= rows && pressed > 0
}

/// Rebinds one channel of the selected row of a table to the first
/// member that went down in this tick, and moves the selection to the
/// next row. Without a selected row or a press nothing changes.
fn rebind_row<Key: ActionKey>(
    table: &mut KeyConfig<Key>,
    rows: &Vec<Key>,
    selected: usize,
    pad: bool,
    pressed: Option<SingleKey>,
) -> (r: usize)
    requires
        rows@.len() < usize::MAX,
        pressed is Some ==> crate::key_assign::lone(seq![pressed->Some_0], pad),
    ensures
        match pressed {
            Some(member) if 1 <= selected <= rows@.len() => {
                &&& r == selected + 1
                &&& final(table)@ == table_rebound(old(table)@, rows@[selected - 1], pad, member)
            },
            _ => r == selected && final(table)@ == old(table)@,
        },
{
    match pressed {
        Some(member) => {
            if 1 <= selected && selected <= rows.len() {
                match member {
                    SingleKey::KeyCode(code) => table.insert_keycode(&rows[selected - 1], code),
                    SingleKey::GamepadButton(button) => table.insert_gamepad(
                        &rows[selected - 1],
                        button,
                    ),
                    SingleKey::GamepadAxis(_, _) => {},
                }
                selected + 1
            } else {
                selected
            }
        },
        None => selected,
    }
}

/// Rebinds the keyboard channel of the selected row of a table to the
/// first key that went down in this tick, and moves the selection to the
/// next row. Without a selected row or a key nothing changes.
pub fn rebind_row_keycode<Key: ActionKey>(
    table: &mut KeyConfig<Key>,
    rows: &Vec<Key>,
    selected: usize,
    keys_just: &Vec<KeyCode>,
) -> (r: usize)
    requires
        rows@.len() < usize::MAX,
    ensures
        if rebinds(rows@.len() as int, selected as int, keys_just@.len() as int) {
            &&& r == selected + 1
            &&& final(table)@ == table_rebound(
                old(table)@,
                rows@[selected - 1],
                false,
                SingleKey::KeyCode(keys_just@[0]),
            )
        } else {
            r == selected && final(table)@ == old(table)@
        },
{
    let pressed = if keys_just.len() > 0 {
        Some(SingleKey::KeyCode(keys_just[0]))
    } else {
        None
    };
    rebind_row(table, rows, selected, false, pressed)
}

/// Rebinds the gamepad channel of the selected row of a table to the
/// first button that went down in this tick, and moves the selection to
/// the next row. Without a selected row or a button nothing changes.
pub fn rebind_row_gamepad<Key: ActionKey>(
    table: &mut KeyConfig<Key>,
    rows: &Vec<Key>,
    selected: usize,
    buttons_just: &Vec<GamepadButton>,
) -> (r: usize)
    requires
        rows@.len() < usize::MAX,
    ensures
        if rebinds(rows@.len() as int, selected as int, buttons_just@.len() as int) {
            &&& r == selected + 1
            &&& final(table)@ == table_rebound(
                old(table)@,
                rows@[selected - 1],
                true,
                SingleKey::GamepadButton(buttons_just@[0]),
            )
        } else {
            r == selected && final(table)@ == old(table)@
        },
{
    let pressed = if buttons_just.len() > 0 {
        Some(SingleKey::GamepadButton(buttons_just[0]))
    } else {
        None
    };
    rebind_row(table, rows, selected, true, pressed)
}

/// The buttons of a controller after one channel of the button in
/// `place` was rebound to `member`: the other buttons, and all names,
/// stay as they are.
pub open spec fn pad_rebound(
    before: Seq<(String, KeyAssign)>,
    after: Seq<(String, KeyAssign)>,
    place: int,
    pad: bool,
    member: SingleKey,
) -> bool {
    &&& after.len() == before.len()
    &&& forall|j: int| 0 <= j < before.len() ==> (#[trigger] after[j]).0 == before[j].0
    &&& forall|j: int| 0 <= j < before.len() && j != place ==> #[trigger] after[j] == before[j]
    &&& after[place].1@ == rebound(before[place].1@, pad, member)
}

/// Rebinds one channel of the selected button of a controller to the
/// member that went down, and moves the selection to the next button.
fn rebind_button(
    buttons: &mut Vec<(String, KeyAssign)>,
    selected: usize,
    pad: bool,
    pressed: Option<SingleKey>,
) -> (r: usize)
    requires
        old(buttons)@.len() < usize::MAX,
        pressed is Some ==> crate::key_assign::lone(seq![pressed->Some_0], pad),
    ensures
        match pressed {
            Some(member) if 1 <= selected <= old(buttons)@.len() => {
                &&& r == selected + 1
                &&& pad_rebound(old(buttons)@, final(buttons)@, selected - 1, pad, member)
            },
            _ => r == selected && final(buttons)@ == old(buttons)@,
        },
{
    match pressed {
        Some(member) => {
            if 1 <= selected && selected <= buttons.len() {
                match member {
                    SingleKey::KeyCode(code) => buttons[selected - 1].1.insert_keycode(code),
                    SingleKey::GamepadButton(button) => buttons[selected - 1].1.insert_gamepad(
                        button,
                    ),
                    SingleKey::GamepadAxis(_, _) => {},
                }
                selected + 1
            } else {
                selected
            }
        },
        None => selected,
    }
}

/// Rebinds the keyboard channel of the selected button of a controller to
/// the first key that went down in this tick, and moves the selection to
/// the next button. Without a selected button or a key nothing changes.
pub fn rebind_button_keycode(
    buttons: &mut Vec<(String, KeyAssign)>,
    selected: usize,
    keys_just: &Vec<KeyCode>,
) -> (r: usize)
    requires
        old(buttons)@.len() < usize::MAX,
    ensures
        if rebinds(old(buttons)@.len() as int, selected as int, keys_just@.len() as int) {
            &&& r == selected + 1
            &&& pad_rebound(
                old(buttons)@,
                final(buttons)@,
                selected - 1,
                false,
                SingleKey::KeyCode(keys_just@[0]),
            )
        } else {
            r == selected && final(buttons)@ == old(buttons)@
        },
{
    let pressed = if keys_just.len() > 0 {
        Some(SingleKey::KeyCode(keys_just[0]))
    } else {
        None
    };
    rebind_button(buttons, selected, false, pressed)
}

/// Rebinds the gamepad channel of the selected button of a controller to
/// the first gamepad button that went down in this tick, and moves the
/// selection to the next button. Without a selected button or a press
/// nothing changes.
pub fn rebind_button_gamepad(
    buttons: &mut Vec<(String, KeyAssign)>,
    selected: usize,
    buttons_just: &Vec<GamepadButton>,
) -> (r: usize)
    requires
        old(buttons)@.len() < usize::MAX,
    ensures
        if rebinds(old(buttons)@.len() as int, selected as int, buttons_just@.len() as int) {
            &&& r == selected + 1
            &&& pad_rebound(
                old(buttons)@,
                final(buttons)@,
                selected - 1,
                true,
                SingleKey::GamepadButton(buttons_just@[0]),
            )
        } else {
            r == selected && final(buttons)@ == old(buttons)@
        },
{
    let pressed = if buttons_just.len() > 0 {
        Some(SingleKey::GamepadButton(buttons_just[0]))
    } else {
        None
    };
    rebind_button(buttons, selected, true, pressed)
}

/// The number of chords that a table shows for a hotkey; a hotkey
/// without an entry shows none.
pub open spec fn chords_of(table: Seq<(HotKey, Seq<Seq<SingleKey>>)>, hotkey: HotKey) -> int {
    match binding_of(table, hotkey) {
        Some(binding) => binding.len() as int,
        None => 0,
    }
}

/// The slot with the running number `selected` among the slots of
/// `keys`: every hotkey has one slot for each of its chords and one more
/// to add a chord, and the slots are numbered from one through all the
/// hotkeys in their order.
pub open spec fn slot_among(
    keys: Seq<HotKey>,
    table: Seq<(HotKey, Seq<Seq<SingleKey>>)>,
    selected: int,
) -> Option<(HotKey, usize)>
    decreases keys.len(),
{
    if keys.len() == 0 || selected < 1 {
        None
    } else if selected <= chords_of(table, keys[0]) + 1 {
        Some((keys[0], (selected - 1) as usize))
    } else {
        slot_among(keys.skip(1), table, selected - (chords_of(table, keys[0]) + 1))
    }
}

/// The slot with the running number `selected` in the list of all
/// hotkeys; zero selects nothing.
pub open spec fn slot_of(table: Seq<(HotKey, Seq<Seq<SingleKey>>)>, selected: int) -> Option<
    (HotKey, usize),
> {
    slot_among(HotKey::every(), table, selected)
}

/// The hotkey and the slot of its binding that a running number selects.
pub fn locate_slot(table: &HotKeys, selected: usize) -> (r: Option<(HotKey, usize)>)
    ensures
        r == slot_of(table@, selected as int),
{
    if selected < 1 {
        return None;
    }
    let every = HotKey::all();
    let mut remaining: usize = selected;
    let mut i: usize = 0;
    assert(every@.skip(0) =~= every@);
    while i < every.len()
        invariant
            i <= every.len(),
            every@ == HotKey::every(),
            remaining >= 1,
            slot_of(table@, selected as int) == slot_among(
                every@.skip(i as int),
                table@,
                remaining as int,
            ),
        decreases every.len() - i,
    {
        let chords: usize = match table.key_assign(&every[i]) {
            Some(binding) => binding.0.len(),
            None => 0,
        };
        proof {
            assert(every@.skip(i as int)[0] == every@[i as int]);
            assert(every@.skip(i as int).skip(1) =~= every@.skip(i + 1));
            assert(chords == chords_of(table@, every@[i as int]));
        }
        if remaining - 1 <= chords {
            return Some((every[i], remaining - 1));
        }
        remaining = remaining - chords - 1;
        i += 1;
    }
    None
}

/// The table after a captured chord was put into a slot of a hotkey: into
/// the slot of its binding, or, where the hotkey has no entry, into a new
/// entry of that one chord.
pub open spec fn table_with_chord(
    table: Seq<(HotKey, Seq<Seq<SingleKey>>)>,
    hotkey: HotKey,
    place: int,
    chord: Seq<SingleKey>,
) -> Seq<(HotKey, Seq<Seq<SingleKey>>)> {
    match slot(table, hotkey) {
        Some(entry) => table.update(entry, (hotkey, with_chord(table[entry].1, place, chord))),
        None => table.push((hotkey, seq![chord])),
    }
}

/// Puts a captured chord into the selected slot and ends the selection:
/// the running number goes back to zero. Where the number selects no
/// slot, nothing changes.
pub fn commit_capture(table: &mut HotKeys, selected: usize, chord: MultiKey) -> (r: usize)
    ensures
        match slot_of(old(table)@, selected as int) {
            Some((hotkey, place)) => {
                &&& r == 0
                &&& final(table)@ == table_with_chord(old(table)@, hotkey, place as int, chord@)
            },
            None => r == selected && final(table)@ == old(table)@,
        },
{
    match locate_slot(table, selected) {
        Some((hotkey, place)) => {
            match table.find(&hotkey) {
                Some(entry) => {
                    let ghost before = table@;
                    let _ = assign_chord(&mut table.0[entry].1, place, chord);
                    assert(table@ =~= before.update(
                        entry as int,
                        (hotkey, with_chord(before[entry as int].1, place as int, chord@)),
                    ));
                },
                None => {
                    let ghost before = table@;
                    let mut chords: Vec<MultiKey> = Vec::new();
                    chords.push(chord);
                    let binding = KeyAssign(chords);
                    assert(binding@ =~= seq![chord@]);
                    table.0.push((hotkey, binding));
                    assert(table@ =~= before.push((hotkey, seq![chord@])));
                },
            }
            0
        },
        None => selected,
    }
}

/// Takes the chord out of the selected slot, where the number selects
/// the slot of a chord, and says whether it did.
pub fn remove_selected(table: &mut HotKeys, selected: usize) -> (r: bool)
    ensures
        match slot_of(old(table)@, selected as int) {
            Some((hotkey, place)) => match slot(old(table)@, hotkey) {
                Some(entry) => {
                    &&& r == (place < old(table)@[entry].1.len())
                    &&& final(table)@ == if place < old(table)@[entry].1.len() {
                        old(table)@.update(
                            entry,
                            (hotkey, old(table)@[entry].1.remove(place as int)),
                        )
                    } else {
                        old(table)@
                    }
                },
                None => !r && final(table)@ == old(table)@,
            },
            None => !r && final(table)@ == old(table)@,
        },
{
    match locate_slot(table, selected) {
        Some((hotkey, place)) => {
            match table.find(&hotkey) {
                Some(entry) => {
                    let ghost before = table@;
                    let removed = remove_chord(&mut table.0[entry].1, place);
                    assert(table@ =~= if place < before[entry as int].1.len() {
                        before.update(
                            entry as int,
                            (hotkey, before[entry as int].1.remove(place as int)),
                        )
                    } else {
                        before
                    });
                    removed
                },
                None => false,
            }
        },
        None => false,
    }
}

} // verus!
