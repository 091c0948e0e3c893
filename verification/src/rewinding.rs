use std::collections::VecDeque;
use vstd::prelude::*;

verus! {

/// One point in time of a running game: the machine's state and the picture
/// that was on screen, both as bytes.
pub struct AutoSavedState {
    thumbnail: Vec<u8>,
    data: Vec<u8>,
}

impl AutoSavedState {
    #[verifier::type_invariant]
    spec fn fits(&self) -> bool {
        self.data@.len() + self.thumbnail@.len() <= usize::MAX
    }

    /// The bytes of the machine's state.
    pub closed spec fn data_bytes(&self) -> Seq<u8> {
        self.data@
    }

    /// The bytes of the picture.
    pub closed spec fn thumbnail_bytes(&self) -> Seq<u8> {
        self.thumbnail@
    }

    /// The number of bytes that the record holds.
    pub open spec fn spec_size(&self) -> nat {
        self.data_bytes().len() + self.thumbnail_bytes().len()
    }

    /// A record of the two buffers, which together must fit the address
    /// space.
    pub fn new(thumbnail: Vec<u8>, data: Vec<u8>) -> (r: Self)
        requires
            thumbnail@.len() + data@.len() <= usize::MAX,
        ensures
            r.thumbnail_bytes() == thumbnail@,
            r.data_bytes() == data@,
    {
        AutoSavedState { thumbnail, data }
    }

    /// A record of the two buffers, if they fit the address space
    /// together.
    pub fn try_new(thumbnail: Vec<u8>, data: Vec<u8>) -> (r: Option<Self>)
        ensures
            match r {
                Some(record) => {
                    &&& thumbnail@.len() + data@.len() <= usize::MAX
                    &&& record.thumbnail_bytes() == thumbnail@
                    &&& record.data_bytes() == data@
                },
                None => thumbnail@.len() + data@.len() > usize::MAX,
            },
    {
        if thumbnail.len() <= usize::MAX - data.len() {
            Some(AutoSavedState { thumbnail, data })
        } else {
            None
        }
    }

    /// The bytes of the machine's state.
    pub fn data(&self) -> (r: &Vec<u8>)
        ensures
            r@ == self.data_bytes(),
    {
        &self.data
    }

    /// The bytes of the picture.
    pub fn thumbnail(&self) -> (r: &Vec<u8>)
        ensures
            r@ == self.thumbnail_bytes(),
    {
        &self.thumbnail
    }

    /// The number of bytes that the record holds.
    pub fn size(&self) -> (r: usize)
        ensures
            r == self.spec_size(),
    {
        proof {
            use_type_invariant(self);
        }
        self.data.len() + self.thumbnail.len()
    }
}

/// The bytes held by a run of records.
pub open spec fn sum_sizes(s: Seq<AutoSavedState>) -> nat
    decreases s.len(),
{
    if s.len() == 0 {
        0
    } else {
        sum_sizes(s.drop_last()) + s.last().spec_size()
    }
}

/// What stays of a history under a cap on its bytes: the oldest records
/// leave, one by one, while the rest is over the cap, but the newest record
/// always stays.
pub open spec fn retained(all: Seq<AutoSavedState>, cap: nat) -> Seq<AutoSavedState>
    decreases all.len(),
{
    if all.len() <= 1 || sum_sizes(all) <= cap {
        all
    } else {
        retained(all.skip(1), cap)
    }
}

/// A record added at the end adds its size to the bytes of a run.
pub proof fn lemma_sum_push(s: Seq<AutoSavedState>, x: AutoSavedState)
    ensures
        sum_sizes(s.push(x)) == sum_sizes(s) + x.spec_size(),
{
    assert(s.push(x).drop_last() =~= s);
}

/// The bytes of a run are those of its first record and of the rest.
pub proof fn lemma_sum_skip(s: Seq<AutoSavedState>)
    requires
        s.len() > 0,
    ensures
        sum_sizes(s) == s[0].spec_size() + sum_sizes(s.skip(1)),
    decreases s.len(),
{
    if s.len() == 1 {
        assert(s.skip(1) =~= Seq::<AutoSavedState>::empty());
        assert(s.drop_last() =~= Seq::<AutoSavedState>::empty());
    } else {
        lemma_sum_skip(s.drop_last());
        assert(s.drop_last().skip(1) =~= s.skip(1).drop_last());
    }
}

/// Eviction leaves a newest part of the history, never an empty one, and
/// the newest record is in it.
pub proof fn lemma_retained_suffix(all: Seq<AutoSavedState>, cap: nat)
    requires
        all.len() > 0,
    ensures
        0 < retained(all, cap).len() <= all.len(),
        retained(all, cap) == all.skip(all.len() - retained(all, cap).len()),
        retained(all, cap).last() == all.last(),
        retained(all, cap).len() == 1 || sum_sizes(retained(all, cap)) <= cap,
    decreases all.len(),
{
    if all.len() <= 1 || sum_sizes(all) <= cap {
        assert(all.skip(0) =~= all);
    } else {
        let rest = all.skip(1);
        lemma_retained_suffix(rest, cap);
        let k = retained(rest, cap).len();
        assert(rest.skip(rest.len() - k) =~= all.skip(all.len() - k));
    }
}

/// Why a request on the history could not be served.
#[derive(Clone, Copy, Debug, PartialEq, Eq, Structural)]
pub enum RewindError {
    /// The history holds no record to start from.
    EmptyHistory,
    /// The cursor does not point into the history.
    OutOfRange,
}

/// The number of frames that make one second of play.
pub const FRAME_RATE: usize = 60;

/// The bytes that a rate of `rate` bytes per second allows up to a frame.
pub open spec fn budget_at(rate: nat, frame: nat) -> nat {
    frame * rate / (FRAME_RATE as nat)
}

/// What a rewind store holds, as mathematical values.
pub struct RewindModel {
    /// The retained records, oldest first.
    pub entries: Seq<AutoSavedState>,
    /// The bytes of all records ever captured, retained or not.
    pub captured_bytes: nat,
    /// The capture rate aimed at, in bytes per second.
    pub byte_rate_budget: nat,
    /// The cap on the bytes of the retained records.
    pub byte_cap: nat,
    /// The least distance, in frames, between two captures.
    pub min_capture_interval_frames: nat,
    /// The frame of the latest capture.
    pub last_capture_frame: nat,
    /// The size of the latest captured record.
    pub last_capture_size: nat,
    /// The latest frame that the store was told of.
    pub frames_elapsed: nat,
}

impl RewindModel {
    /// The bytes of the retained records.
    pub open spec fn total_bytes(self) -> nat {
        sum_sizes(self.entries)
    }

    /// Captures never run ahead of the clock, and the records can be
    /// counted by the machine.
    pub open spec fn inv(self) -> bool {
        &&& self.last_capture_frame <= self.frames_elapsed
        &&& self.entries.len() <= usize::MAX
    }

    /// The bytes captured so far exceed the budget of the latest capture's
    /// frame by no more than that capture's size. This holds of a new
    /// store and after every capture; only a lowered rate can end it,
    /// until the next capture.
    pub open spec fn on_budget(self) -> bool {
        self.captured_bytes <= budget_at(self.byte_rate_budget, self.last_capture_frame)
            + self.last_capture_size
    }

    /// The store with other limits.
    pub open spec fn with_limits(self, rate: nat, cap: nat, interval: nat) -> Self {
        RewindModel {
            byte_rate_budget: rate,
            byte_cap: cap,
            min_capture_interval_frames: interval,
            ..self
        }
    }

    /// The store after `snapshot` was appended and nothing else changed.
    pub open spec fn appended(self, snapshot: AutoSavedState) -> Self {
        RewindModel { entries: self.entries.push(snapshot), ..self }
    }

    /// Whether a capture is due at `frame`: the latest capture lies far
    /// enough back, and the bytes captured so far are behind the budget.
    pub open spec fn admits(self, frame: nat) -> bool {
        &&& frame >= self.last_capture_frame + self.min_capture_interval_frames
        &&& self.captured_bytes < budget_at(self.byte_rate_budget, frame)
    }

    /// The store after it was told of `frame`.
    pub open spec fn seen(self, frame: nat) -> Self {
        RewindModel {
            frames_elapsed: if frame > self.frames_elapsed {
                frame
            } else {
                self.frames_elapsed
            },
            ..self
        }
    }

    /// The store after `snapshot` was appended and the cap enforced.
    pub open spec fn pushed(self, snapshot: AutoSavedState) -> Self {
        RewindModel { entries: retained(self.entries.push(snapshot), self.byte_cap), ..self }
    }

    /// The store after `snapshot` was captured at `frame`.
    pub open spec fn captured(self, frame: nat, snapshot: AutoSavedState) -> Self {
        RewindModel {
            captured_bytes: self.captured_bytes + snapshot.spec_size(),
            last_capture_frame: frame,
            last_capture_size: snapshot.spec_size(),
            ..self.seen(frame).pushed(snapshot)
        }
    }

    /// The store after everything behind `cursor` was dropped.
    pub open spec fn committed(self, cursor: int) -> Self {
        RewindModel { entries: self.entries.subrange(0, cursor + 1), ..self }
    }

    /// The store after a new game began: no record, and the clock at zero.
    pub open spec fn cleared(self) -> Self {
        RewindModel {
            entries: Seq::empty(),
            captured_bytes: 0,
            last_capture_frame: 0,
            last_capture_size: 0,
            frames_elapsed: 0,
            ..self
        }
    }

    /// The cursor after a move by `delta`, kept inside the history.
    pub open spec fn moved(self, cursor: int, delta: int) -> int {
        if cursor + delta < 0 {
            0
        } else if cursor + delta >= self.entries.len() {
            self.entries.len() - 1
        } else {
            cursor + delta
        }
    }
}

/// A history of records of one game, bounded in memory: captures are
/// admitted at a bounded rate, and the oldest records leave when the cap is
/// passed.
pub struct RewindStore {
    entries: VecDeque<AutoSavedState>,
    total_bytes: usize,
    captured_bytes: u128,
    byte_rate_budget: usize,
    byte_cap: usize,
    min_capture_interval_frames: usize,
    last_capture_frame: usize,
    last_capture_size: usize,
    frames_elapsed: usize,
}

impl View for RewindStore {
    type V = RewindModel;

    closed spec fn view(&self) -> RewindModel {
        RewindModel {
            entries: self.entries@,
            captured_bytes: self.captured_bytes as nat,
            byte_rate_budget: self.byte_rate_budget as nat,
            byte_cap: self.byte_cap as nat,
            min_capture_interval_frames: self.min_capture_interval_frames as nat,
            last_capture_frame: self.last_capture_frame as nat,
            last_capture_size: self.last_capture_size as nat,
            frames_elapsed: self.frames_elapsed as nat,
        }
    }
}

impl RewindStore {
    /// The store keeps count of the bytes of its records.
    pub closed spec fn counted(&self) -> bool {
        self.total_bytes == sum_sizes(self.entries@)
    }

    /// The store keeps count of its bytes, and its model is in order.
    pub open spec fn wf(&self) -> bool {
        &&& self.counted()
        &&& self@.inv()
    }

    /// An empty store for one game.
    pub fn new(byte_rate_budget: usize, byte_cap: usize, min_capture_interval_frames: usize) -> (r:
        Self)
        ensures
            r.wf(),
            r@.on_budget(),
            r@ == (RewindModel {
                entries: Seq::empty(),
                captured_bytes: 0,
                byte_rate_budget: byte_rate_budget as nat,
                byte_cap: byte_cap as nat,
                min_capture_interval_frames: min_capture_interval_frames as nat,
                last_capture_frame: 0,
                last_capture_size: 0,
                frames_elapsed: 0,
            }),
    {
        RewindStore {
            entries: VecDeque::new(),
            total_bytes: 0,
            captured_bytes: 0,
            byte_rate_budget,
            byte_cap,
            min_capture_interval_frames,
            last_capture_frame: 0,
            last_capture_size: 0,
            frames_elapsed: 0,
        }
    }

    /// The number of retained records.
    pub fn len(&self) -> (r: usize)
        ensures
            r == self@.entries.len(),
    {
        self.entries.len()
    }

    /// Whether no record is retained.
    pub fn is_empty(&self) -> (r: bool)
        ensures
            r == (self@.entries.len() == 0),
    {
        self.entries.len() == 0
    }

    /// The record at `index`, counted from the oldest.
    pub fn get(&self, index: usize) -> (r: Option<&AutoSavedState>)
        ensures
            r == if index < self@.entries.len() {
                Some(&self@.entries[index as int])
            } else {
                None
            },
    {
        if index < self.entries.len() {
            Some(&self.entries[index])
        } else {
            None
        }
    }

    /// The bytes of the retained records.
    pub fn total_bytes(&self) -> (r: usize)
        requires
            self.wf(),
        ensures
            r == self@.total_bytes(),
    {
        self.total_bytes
    }

    /// The bytes of all records ever captured.
    pub fn captured_bytes(&self) -> (r: u128)
        ensures
            r == self@.captured_bytes,
    {
        self.captured_bytes
    }

    /// The frame of the latest capture.
    pub fn last_capture_frame(&self) -> (r: usize)
        ensures
            r == self@.last_capture_frame,
    {
        self.last_capture_frame
    }

    /// The latest frame that the store was told of.
    pub fn frames_elapsed(&self) -> (r: usize)
        ensures
            r == self@.frames_elapsed,
    {
        self.frames_elapsed
    }

    /// Appends a record and enforces the cap: the oldest records leave
    /// while the retained bytes are over the cap, the new record stays.
    pub fn push(&mut self, snapshot: AutoSavedState)
        requires
            old(self).wf(),
        ensures
            final(self).wf(),
            final(self)@ == old(self)@.pushed(snapshot),
            final(self)@.entries.len() > 0,
            final(self)@.entries.last() == snapshot,
            old(self)@.on_budget() ==> final(self)@.on_budget(),
    {
        proof {
            lemma_retained_suffix(self.entries@.push(snapshot), self.byte_cap as nat);
        }
        let size = snapshot.size();
        let ghost all = self.entries@.push(snapshot);
        let ghost cap = self.byte_cap as nat;
        while self.entries.len() > 0 && (size > self.byte_cap || self.total_bytes > self.byte_cap
            - size)
            invariant
                size == snapshot.spec_size(),
                cap == self.byte_cap,
                self.total_bytes == sum_sizes(self.entries@),
                retained(self.entries@.push(snapshot), cap) == retained(all, cap),
                self@ == (RewindModel { entries: self.entries@, ..old(self)@ }),
            decreases self.entries.len(),
        {
            proof {
                let cur = self.entries@.push(snapshot);
                lemma_sum_push(self.entries@, snapshot);
                lemma_sum_skip(self.entries@);
                assert(cur.skip(1) =~= self.entries@.skip(1).push(snapshot));
                assert(self.entries@.skip(1) =~= self.entries@.subrange(
                    1,
                    self.entries@.len() as int,
                ));
            }
            let gone = self.entries.pop_front();
            match gone {
                Some(g) => {
                    self.total_bytes = self.total_bytes - g.size();
                },
                None => {},
            }
        }
        proof {
            lemma_sum_push(self.entries@, snapshot);
        }
        self.total_bytes = self.total_bytes + size;
        self.entries.push_back(snapshot);
        assert(self.entries.len() == self.entries@.len());
    }

    /// Appends a record and keeps every record that is there: the record
    /// that is taken when the timeline opens. The cap is not looked at,
    /// and the count of captured bytes stays; the retained bytes must fit
    /// the address space.
    pub fn push_auto_save(&mut self, snapshot: AutoSavedState)
        requires
            old(self).wf(),
            old(self)@.total_bytes() + snapshot.spec_size() <= usize::MAX,
        ensures
            final(self).wf(),
            final(self)@ == old(self)@.appended(snapshot),
            final(self)@.entries.len() == old(self)@.entries.len() + 1,
            final(self)@.entries.last() == snapshot,
            final(self)@.total_bytes() == old(self)@.total_bytes() + snapshot.spec_size(),
            old(self)@.on_budget() ==> final(self)@.on_budget(),
    {
        proof {
            lemma_sum_push(self.entries@, snapshot);
        }
        self.total_bytes = self.total_bytes + snapshot.size();
        self.entries.push_back(snapshot);
        assert(self.entries.len() == self.entries@.len());
    }

    /// Whether a record of `size` bytes can be appended with every record
    /// kept: the retained bytes still fit the address space.
    pub fn has_room(&self, size: usize) -> (r: bool)
        requires
            self.wf(),
        ensures
            r == (self@.total_bytes() + size <= usize::MAX),
    {
        size <= usize::MAX - self.total_bytes
    }

    /// Sets the limits anew, as the settings may change while a game runs.
    /// The records stay as they are: the new cap is enforced at the next
    /// capture.
    pub fn set_limits(
        &mut self,
        byte_rate_budget: usize,
        byte_cap: usize,
        min_capture_interval_frames: usize,
    )
        requires
            old(self).wf(),
        ensures
            final(self).wf(),
            final(self)@ == old(self)@.with_limits(
                byte_rate_budget as nat,
                byte_cap as nat,
                min_capture_interval_frames as nat,
            ),
            old(self)@.on_budget() && byte_rate_budget >= old(self)@.byte_rate_budget
                ==> final(self)@.on_budget(),
    {
        proof {
            if self@.on_budget() && byte_rate_budget >= self@.byte_rate_budget {
                lemma_limits_keep_budget(
                    self@,
                    byte_rate_budget as nat,
                    byte_cap as nat,
                    min_capture_interval_frames as nat,
                );
            }
        }
        self.byte_rate_budget = byte_rate_budget;
        self.byte_cap = byte_cap;
        self.min_capture_interval_frames = min_capture_interval_frames;
    }

    /// The limits as they stand: rate, cap and spacing.
    pub fn limits(&self) -> (r: (usize, usize, usize))
        ensures
            r.0 == self@.byte_rate_budget,
            r.1 == self@.byte_cap,
            r.2 == self@.min_capture_interval_frames,
    {
        (self.byte_rate_budget, self.byte_cap, self.min_capture_interval_frames)
    }
}

impl RewindStore {
    /// Whether a capture is due at `current_frame`.
    pub fn should_capture(&self, current_frame: usize) -> (r: bool)
        ensures
            r == self@.admits(current_frame as nat),
    {
        let spaced = current_frame >= self.last_capture_frame && current_frame
            - self.last_capture_frame >= self.min_capture_interval_frames;
        assert(current_frame * self.byte_rate_budget <= u128::MAX) by (nonlinear_arith)
            requires
                current_frame <= 0xffff_ffff_ffff_ffff,
                self.byte_rate_budget <= 0xffff_ffff_ffff_ffff,
                u128::MAX == 0xffff_ffff_ffff_ffff_ffff_ffff_ffff_ffff,
        ;
        let budget: u128 = (current_frame as u128) * (self.byte_rate_budget as u128) / (
        FRAME_RATE as u128);
        spaced && self.captured_bytes < budget
    }

    /// Takes note that the clock stands at `current_frame`.
    fn see(&mut self, current_frame: usize)
        requires
            old(self).wf(),
        ensures
            final(self).wf(),
            final(self)@ == old(self)@.seen(current_frame as nat),
    {
        if current_frame > self.frames_elapsed {
            self.frames_elapsed = current_frame;
        }
    }

    /// Captures `snapshot` at a frame at which a capture is due.
    pub fn capture(&mut self, current_frame: usize, snapshot: AutoSavedState)
        requires
            old(self).wf(),
            old(self)@.admits(current_frame as nat),
        ensures
            final(self).wf(),
            final(self)@ == old(self)@.captured(current_frame as nat, snapshot),
            final(self)@.entries.len() > 0,
            final(self)@.entries.last() == snapshot,
            final(self)@.on_budget(),
    {
        let size = snapshot.size();
        proof {
            lemma_budget_fits(self.byte_rate_budget as nat, current_frame as nat);
        }
        self.see(current_frame);
        self.captured_bytes = self.captured_bytes + (size as u128);
        self.last_capture_frame = current_frame;
        self.last_capture_size = size;
        self.push(snapshot);
    }

    /// Captures a record at `current_frame` if one is due, and says whether
    /// it did. The record comes from `get_snapshot`.
    pub fn maybe_capture<F: FnOnce() -> AutoSavedState>(
        &mut self,
        current_frame: usize,
        get_snapshot: F,
    ) -> (r: bool)
        requires
            old(self).wf(),
            get_snapshot.requires(()),
        ensures
            final(self).wf(),
            r == old(self)@.admits(current_frame as nat),
            !r ==> final(self)@ == old(self)@.seen(current_frame as nat),
            r ==> exists|snapshot: AutoSavedState|
                get_snapshot.ensures((), snapshot) && final(self)@ == old(self)@.captured(
                    current_frame as nat,
                    snapshot,
                ),
            r ==> final(self)@.entries.len() > 0,
            r || old(self)@.on_budget() ==> final(self)@.on_budget(),
    {
        if self.should_capture(current_frame) {
            let snapshot = get_snapshot();
            self.capture(current_frame, snapshot);
            true
        } else {
            self.see(current_frame);
            false
        }
    }

    /// The cursor at which scrubbing starts: the newest record.
    pub fn enter_scrub(&self) -> (r: Result<usize, RewindError>)
        ensures
            self@.entries.len() <= usize::MAX,
            r == if self@.entries.len() == 0 {
                Err::<usize, RewindError>(RewindError::EmptyHistory)
            } else {
                Ok((self@.entries.len() - 1) as usize)
            },
    {
        if self.entries.len() == 0 {
            Err(RewindError::EmptyHistory)
        } else {
            Ok(self.entries.len() - 1)
        }
    }

    /// Moves the cursor by `delta` records, stopping at either end of the
    /// history.
    pub fn seek(&self, cursor: usize, delta: isize) -> (r: Result<usize, RewindError>)
        ensures
            self@.entries.len() <= usize::MAX,
            r == if cursor >= self@.entries.len() {
                Err::<usize, RewindError>(RewindError::OutOfRange)
            } else {
                Ok(self@.moved(cursor as int, delta as int) as usize)
            },
            r is Ok ==> r->Ok_0 == self@.moved(cursor as int, delta as int),
    {
        let len = self.entries.len();
        if cursor >= len {
            return Err(RewindError::OutOfRange);
        }
        if delta >= 0 {
            let forward = delta as usize;
            if forward >= len - cursor {
                Ok(len - 1)
            } else {
                Ok(cursor + forward)
            }
        } else {
            let back = (-(delta + 1)) as usize;
            if back >= cursor {
                Ok(0)
            } else {
                Ok(cursor - back - 1)
            }
        }
    }

    /// Rewinds to the record at `cursor`: every record behind it is
    /// dropped, and the machine state of the record comes back.
    pub fn commit(&mut self, cursor: usize) -> (r: Result<Vec<u8>, RewindError>)
        requires
            old(self).wf(),
        ensures
            final(self).wf(),
            cursor >= old(self)@.entries.len() ==> r == Err::<Vec<u8>, RewindError>(
                RewindError::OutOfRange,
            ) && final(self)@ == old(self)@,
            cursor < old(self)@.entries.len() ==> r is Ok && r->Ok_0@ == old(
                self,
            )@.entries[cursor as int].data_bytes() && final(self)@ == old(self)@.committed(
                cursor as int,
            ) && final(self)@.entries.len() == cursor + 1,
            old(self)@.on_budget() ==> final(self)@.on_budget(),
    {
        if cursor >= self.entries.len() {
            return Err(RewindError::OutOfRange);
        }
        while self.entries.len() > cursor + 1
            invariant
                cursor < self.entries@.len() <= old(self)@.entries.len(),
                self.entries@ == old(self)@.entries.subrange(0, self.entries@.len() as int),
                self.total_bytes == sum_sizes(self.entries@),
                self@ == (RewindModel { entries: self.entries@, ..old(self)@ }),
            decreases self.entries.len(),
        {
            let gone = self.entries.pop_back();
            match gone {
                Some(g) => {
                    self.total_bytes = self.total_bytes - g.size();
                },
                None => {},
            }
            assert(self.entries@ =~= old(self)@.entries.subrange(0, self.entries@.len() as int));
        }
        let bytes = self.entries[cursor].data.clone();
        assert(bytes@ =~= self.entries@[cursor as int].data@);
        Ok(bytes)
    }

    /// Leaves scrubbing without rewinding: the history stays as it is.
    pub fn cancel_scrub(&mut self)
        ensures
            *final(self) == *old(self),
    {
    }

    /// Drops the whole history and sets the clock back, for a new game.
    pub fn reset(&mut self)
        ensures
            final(self).wf(),
            final(self)@ == old(self)@.cleared(),
            final(self)@.on_budget(),
    {
        self.entries.clear();
        self.total_bytes = 0;
        self.captured_bytes = 0;
        self.last_capture_frame = 0;
        self.last_capture_size = 0;
        self.frames_elapsed = 0;
    }
}

/// The budget of a frame, with one more record on top, fits 128 bits.
proof fn lemma_budget_fits(rate: nat, frame: nat)
    requires
        rate <= usize::MAX,
        frame <= usize::MAX,
    ensures
        budget_at(rate, frame) + usize::MAX <= u128::MAX,
{
    assert(frame * rate <= 0xffff_ffff_ffff_ffff * 0xffff_ffff_ffff_ffff) by (nonlinear_arith)
        requires
            frame <= 0xffff_ffff_ffff_ffff,
            rate <= 0xffff_ffff_ffff_ffff,
    ;
    vstd::arithmetic::div_mod::lemma_div_is_ordered(
        (frame * rate) as int,
        0xffff_ffff_ffff_ffff * 0xffff_ffff_ffff_ffff as int,
        60,
    );
}

/// The budget grows with the clock.
pub proof fn lemma_budget_grows(rate: nat, earlier: nat, later: nat)
    requires
        earlier <= later,
    ensures
        budget_at(rate, earlier) <= budget_at(rate, later),
{
    assert(earlier * rate <= later * rate) by (nonlinear_arith)
        requires
            earlier <= later,
    ;
    vstd::arithmetic::div_mod::lemma_div_is_ordered(
        (earlier * rate) as int,
        (later * rate) as int,
        60,
    );
}

/// After a capture that was due, the bytes captured exceed the budget of
/// its frame by less than the size of the captured record, whatever the
/// store held before.
pub proof fn lemma_capture_on_budget(m: RewindModel, frame: nat, snapshot: AutoSavedState)
    requires
        m.admits(frame),
    ensures
        m.captured(frame, snapshot).on_budget(),
        m.captured(frame, snapshot).captured_bytes < budget_at(m.byte_rate_budget, frame)
            + snapshot.spec_size(),
{
}

/// What is not a capture leaves the store on budget: a tick of the clock,
/// a record appended with or without the cap enforced, and a rewind.
pub proof fn lemma_budget_kept(m: RewindModel, frame: nat, snapshot: AutoSavedState, cursor: int)
    requires
        m.on_budget(),
    ensures
        m.seen(frame).on_budget(),
        m.pushed(snapshot).on_budget(),
        m.appended(snapshot).on_budget(),
        m.committed(cursor).on_budget(),
        m.cleared().on_budget(),
{
}

/// Limits with a rate that is not lower leave the store on budget.
pub proof fn lemma_limits_keep_budget(m: RewindModel, rate: nat, cap: nat, interval: nat)
    requires
        m.on_budget(),
        rate >= m.byte_rate_budget,
    ensures
        m.with_limits(rate, cap, interval).on_budget(),
{
    assert(m.last_capture_frame * m.byte_rate_budget <= m.last_capture_frame * rate)
        by (nonlinear_arith)
        requires
            rate >= m.byte_rate_budget,
    ;
    vstd::arithmetic::div_mod::lemma_div_is_ordered(
        (m.last_capture_frame * m.byte_rate_budget) as int,
        (m.last_capture_frame * rate) as int,
        FRAME_RATE as int,
    );
}

/// Where no captured record is larger than `z` bytes, the bytes captured
/// so far exceed the budget of the present frame, and of any later one, by
/// no more than `z`: the store overshoots by at most one record.
pub proof fn lemma_capture_budget(m: RewindModel, frame: nat, z: nat)
    requires
        m.inv(),
        m.on_budget(),
        m.last_capture_size <= z,
        frame >= m.frames_elapsed,
    ensures
        m.captured_bytes <= budget_at(m.byte_rate_budget, frame) + z,
{
    lemma_budget_grows(m.byte_rate_budget, m.last_capture_frame, frame);
}

/// After a rewind to `cursor` the history ends at `cursor`.
pub proof fn lemma_commit_len(m: RewindModel, cursor: int)
    requires
        0 <= cursor < m.entries.len(),
    ensures
        m.committed(cursor).entries.len() == cursor + 1,
        m.committed(cursor).entries.last() == m.entries[cursor],
{
}

/// The number of records whose pictures the timeline shows at once.
pub const VISIBLE_THUMBNAILS: usize = 4;

/// The timeline while the user scrubs through the history.
#[derive(Clone, Copy, Debug, PartialEq, Eq, Structural)]
pub struct RewindingState {
    /// The record under the cursor.
    pub pos: usize,
    /// The record to rewind to, once one was chosen.
    pub load_pos: Option<usize>,
    /// Whether the rewind was done and the timeline is to close.
    pub exit: bool,
}

/// What the user asks of the timeline in one tick.
#[derive(Clone, Copy, Debug, PartialEq, Eq, Structural)]
pub struct RewindingInput {
    /// The binding for a step to the older side is held.
    pub left: bool,
    /// The binding for a step to the newer side is held.
    pub right: bool,
    /// The binding that confirms fired.
    pub confirm: bool,
    /// A binding that cancels fired.
    pub cancel: bool,
}

/// What the host has to do after a tick of the timeline.
#[derive(Clone, Debug, PartialEq, Eq)]
pub enum RewindingAction {
    /// Nothing changed.
    Stay,
    /// The cursor was moved, or pushed against an end; the picture of the
    /// record at `pos` is to be shown, and the pictures of the records
    /// that come into view on either side.
    Moved { pos: usize, enter_left: Option<usize>, enter_right: Option<usize> },
    /// The history was cut behind the chosen record, whose machine state
    /// is to be loaded.
    Load(Vec<u8>),
    /// The timeline is to be closed.
    Exit,
}

/// The cursor after the step to the older side, if one is asked for.
pub open spec fn after_left(pos: int, left: bool) -> int {
    if left && pos > 0 {
        pos - 1
    } else {
        pos
    }
}

/// The cursor after a tick of browsing: a step to the older side, then
/// one to the newer side, each where it is asked for and possible.
pub open spec fn browsed(pos: int, len: int, input: RewindingInput) -> int {
    let p = after_left(pos, input.left);
    if input.right && p < len - 1 {
        p + 1
    } else {
        p
    }
}

/// Whether a tick of browsing moves the cursor at all, be it back to where
/// it was.
pub open spec fn browse_moves(pos: int, len: int, input: RewindingInput) -> bool {
    (input.left && pos > 0) || (input.right && after_left(pos, input.left) < len - 1)
}

/// The record that comes into view on the older side.
pub open spec fn entering_left(pos: int, input: RewindingInput) -> Option<usize> {
    if input.left && pos >= VISIBLE_THUMBNAILS {
        Some((pos - VISIBLE_THUMBNAILS) as usize)
    } else {
        None
    }
}

/// The record that comes into view on the newer side.
pub open spec fn entering_right(pos: int, len: int, input: RewindingInput) -> Option<usize> {
    let p = after_left(pos, input.left);
    if input.right && p < len - 1 && p + VISIBLE_THUMBNAILS < len {
        Some((p + VISIBLE_THUMBNAILS) as usize)
    } else {
        None
    }
}

/// The record chosen in a tick of browsing: the one under the cursor on
/// confirm, the newest on cancel.
pub open spec fn chosen(pos: int, len: int, input: RewindingInput) -> Option<usize> {
    if input.confirm {
        Some(browsed(pos, len, input) as usize)
    } else if input.cancel {
        Some((len - 1) as usize)
    } else {
        None
    }
}

impl RewindingState {
    /// The timeline as it opens: the cursor on the newest record.
    pub fn new(store: &RewindStore) -> (r: Result<RewindingState, RewindError>)
        ensures
            store@.entries.len() <= usize::MAX,
            r is Ok ==> r->Ok_0.pos == store@.entries.len() - 1,
            r == if store@.entries.len() == 0 {
                Err::<RewindingState, RewindError>(RewindError::EmptyHistory)
            } else {
                Ok(
                    RewindingState {
                        pos: (store@.entries.len() - 1) as usize,
                        load_pos: None,
                        exit: false,
                    },
                )
            },
    {
        match store.enter_scrub() {
            Ok(pos) => Ok(RewindingState { pos, load_pos: None, exit: false }),
            Err(e) => Err(e),
        }
    }

    /// One tick of the timeline.
    ///
    /// A closed timeline asks to exit. A timeline with a chosen record
    /// rewinds the store to it and hands out its machine state. Otherwise
    /// the cursor is moved as `input` asks, and a record is chosen on
    /// confirm or cancel. A cursor or a chosen record outside the history
    /// is an error and changes nothing.
    pub fn step(&mut self, store: &mut RewindStore, input: RewindingInput) -> (r: Result<
        RewindingAction,
        RewindError,
    >)
        requires
            old(store).wf(),
        ensures
            final(store).wf(),
            old(store)@.on_budget() ==> final(store)@.on_budget(),
            old(self).exit ==> r == Ok::<RewindingAction, RewindError>(RewindingAction::Exit)
                && *final(self) == *old(self) && final(store)@ == old(store)@,
            !old(self).exit ==> match old(self).load_pos {
                Some(target) => if target < old(store)@.entries.len() {
                    &&& r is Ok
                    &&& r->Ok_0 is Load
                    &&& r->Ok_0->Load_0@ == old(store)@.entries[target as int].data_bytes()
                    &&& final(store)@ == old(store)@.committed(target as int)
                    &&& *final(self) == (RewindingState { exit: true, ..*old(self) })
                } else {
                    &&& r == Err::<RewindingAction, RewindError>(RewindError::OutOfRange)
                    &&& *final(self) == *old(self)
                    &&& final(store)@ == old(store)@
                },
                None => {
                    let pos = old(self).pos as int;
                    let len = old(store)@.entries.len() as int;
                    &&& final(store)@ == old(store)@
                    &&& if pos >= len {
                        &&& r == Err::<RewindingAction, RewindError>(RewindError::OutOfRange)
                        &&& *final(self) == *old(self)
                    } else {
                        &&& *final(self) == (RewindingState {
                            pos: browsed(pos, len, input) as usize,
                            load_pos: chosen(pos, len, input),
                            exit: false,
                        })
                        &&& r == Ok::<RewindingAction, RewindError>(
                            if browse_moves(pos, len, input) {
                                RewindingAction::Moved {
                                    pos: browsed(pos, len, input) as usize,
                                    enter_left: entering_left(pos, input),
                                    enter_right: entering_right(pos, len, input),
                                }
                            } else {
                                RewindingAction::Stay
                            },
                        )
                    }
                },
            },
    {
        if self.exit {
            return Ok(RewindingAction::Exit);
        }
        if let Some(target) = self.load_pos {
            return match store.commit(target) {
                Ok(bytes) => {
                    self.exit = true;
                    Ok(RewindingAction::Load(bytes))
                },
                Err(e) => Err(e),
            };
        }
        let len = store.len();
        if self.pos >= len {
            return Err(RewindError::OutOfRange);
        }
        let mut moved = false;
        let mut enter_left: Option<usize> = None;
        let mut enter_right: Option<usize> = None;
        if input.left && self.pos > 0 {
            if self.pos >= VISIBLE_THUMBNAILS {
                enter_left = Some(self.pos - VISIBLE_THUMBNAILS);
            }
            self.pos = self.pos - 1;
            moved = true;
        }
        if input.right && self.pos < len - 1 {
            if len - self.pos > VISIBLE_THUMBNAILS {
                enter_right = Some(self.pos + VISIBLE_THUMBNAILS);
            }
            self.pos = self.pos + 1;
            moved = true;
        }
        if input.confirm {
            self.load_pos = Some(self.pos);
        } else if input.cancel {
            self.load_pos = Some(len - 1);
        }
        if moved {
            Ok(RewindingAction::Moved { pos: self.pos, enter_left, enter_right })
        } else {
            Ok(RewindingAction::Stay)
        }
    }
}

/// The records whose pictures the timeline shows as it opens: the newest
/// ones, newest first.
pub fn visible_on_enter(len: usize) -> (r: Vec<usize>)
    ensures
        r@.len() == if len < VISIBLE_THUMBNAILS {
            len
        } else {
            VISIBLE_THUMBNAILS
        },
        forall|i: int| 0 <= i < r@.len() ==> #[trigger] r@[i] == len - 1 - i,
{
    let mut out: Vec<usize> = Vec::new();
    let mut i: usize = 0;
    while i < VISIBLE_THUMBNAILS && i < len
        invariant
            i <= VISIBLE_THUMBNAILS,
            i <= len,
            out@.len() == i,
            forall|j: int| 0 <= j < i ==> #[trigger] out@[j] == len - 1 - j,
        decreases VISIBLE_THUMBNAILS - i,
    {
        out.push(len - 1 - i);
        i += 1;
    }
    out
}

} // verus!
