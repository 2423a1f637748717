//! What the transport tasks share: the keyboard report, the connection
//! status and the interval timer.
use vstd::prelude::*;

use crate::clock::{has_passed, later, now_ticks, spec_has_passed, spec_later};
use crate::search::{first_index, is_first, lemma_first_index, lemma_first_index_exists};

pub mod ble_send_keys;
pub mod master;
pub mod slave;

verus! {

/// The key slots after `code` was pressed: a code that is already there, or
/// that finds no free slot, changes nothing; otherwise it takes the first
/// free slot. A free slot holds zero.
pub open spec fn spec_press(slots: Seq<u8>, code: u8) -> Seq<u8> {
    if slots.contains(code) || !slots.contains(0) {
        slots
    } else {
        slots.update(first_index(slots, 0), code)
    }
}

/// The key slots after `code` was released: the first slot that holds it is
/// free again; a code that is not there changes nothing.
pub open spec fn spec_release(slots: Seq<u8>, code: u8) -> Seq<u8> {
    if slots.contains(code) {
        slots.update(first_index(slots, code), 0)
    } else {
        slots
    }
}

/// True if no key occurs in two slots.
pub open spec fn distinct_keys(slots: Seq<u8>) -> bool {
    forall|i: int, j: int|
        0 <= i < slots.len() && 0 <= j < slots.len() && i != j && slots[i] != 0 ==> slots[i]
            != slots[j]
}

/// How many of the slots hold a key.
pub open spec fn occupied(slots: Seq<u8>) -> nat
    decreases slots.len(),
{
    if slots.len() == 0 {
        0
    } else {
        occupied(slots.drop_last()) + if slots.last() != 0 {
            1nat
        } else {
            0nat
        }
    }
}

/// No more slots are occupied than there are.
pub proof fn lemma_occupied_bound(slots: Seq<u8>)
    ensures
        occupied(slots) <= slots.len(),
    decreases slots.len(),
{
    if slots.len() > 0 {
        lemma_occupied_bound(slots.drop_last());
    }
}

/// Pressing a key overwrites no key: every slot that held one holds it
/// still, and no slot holds a key twice afterwards if none did before.
pub proof fn lemma_press_keeps_keys(slots: Seq<u8>, code: u8)
    ensures
        spec_press(slots, code).len() == slots.len(),
        forall|i: int| 0 <= i < slots.len() && slots[i] != 0 ==> spec_press(slots, code)[i] == slots[i],
        distinct_keys(slots) ==> distinct_keys(spec_press(slots, code)),
        code != 0 && spec_press(slots, code) != slots ==> spec_press(slots, code).contains(code),
{
    if !slots.contains(code) && slots.contains(0) {
        lemma_first_index_exists(slots, 0);
        let free = first_index(slots, 0);
        let after = spec_press(slots, code);
        assert(after[free] == code);
        if distinct_keys(slots) {
            assert forall|i: int, j: int|
                0 <= i < after.len() && 0 <= j < after.len() && i != j && after[i] != 0 implies after[i]
                != after[j] by {
                if i == free {
                    assert(slots.contains(slots[j]));
                } else if j == free {
                    assert(slots.contains(slots[i]));
                }
            }
        }
    }
}

/// With all slots taken, pressing a key changes nothing.
pub proof fn lemma_press_when_full(slots: Seq<u8>, code: u8)
    requires
        forall|i: int| 0 <= i < slots.len() ==> slots[i] != 0,
    ensures
        spec_press(slots, code) == slots,
{
    if slots.contains(0) {
        let i = choose|i: int| 0 <= i < slots.len() && slots[i] == 0;
        assert(slots[i] != 0);
    }
}

/// Releasing a key frees its slot and touches no other; where no slot
/// holds a key twice, the key is gone afterwards.
pub proof fn lemma_release_frees(slots: Seq<u8>, code: u8)
    ensures
        spec_release(slots, code).len() == slots.len(),
        forall|i: int|
            0 <= i < slots.len() && slots[i] != code ==> spec_release(slots, code)[i] == slots[i],
        distinct_keys(slots) ==> distinct_keys(spec_release(slots, code)),
        distinct_keys(slots) && code != 0 ==> !spec_release(slots, code).contains(code),
{
    if slots.contains(code) {
        lemma_first_index_exists(slots, code);
        let place = first_index(slots, code);
        let after = spec_release(slots, code);
        assert(after[place] == 0);
        if distinct_keys(slots) && code != 0 {
            if after.contains(code) {
                let i = choose|i: int| 0 <= i < after.len() && after[i] == code;
                assert(slots[i] == code);
                assert(i != place);
            }
        }
    }
}

/// All slots are occupied just when none is free.
pub proof fn lemma_occupied_full(slots: Seq<u8>)
    ensures
        occupied(slots) == slots.len() <==> !slots.contains(0),
    decreases slots.len(),
{
    if slots.len() > 0 {
        let front = slots.drop_last();
        lemma_occupied_full(front);
        lemma_occupied_bound(front);
        if front.contains(0) {
            let i = choose|i: int| 0 <= i < front.len() && front[i] == 0;
            assert(slots[i] == 0);
        }
        if slots.contains(0) && slots.last() != 0 {
            let i = choose|i: int| 0 <= i < slots.len() && slots[i] == 0;
            assert(front[i] == 0);
        }
    }
}

/// A key that takes a free slot makes one more slot occupied.
pub proof fn lemma_occupied_update(slots: Seq<u8>, index: int, code: u8)
    requires
        0 <= index < slots.len(),
        slots[index] == 0,
        code != 0,
    ensures
        occupied(slots.update(index, code)) == occupied(slots) + 1,
    decreases slots.len(),
{
    let after = slots.update(index, code);
    if index == slots.len() - 1 {
        assert(after.drop_last() =~= slots.drop_last());
    } else {
        lemma_occupied_update(slots.drop_last(), index, code);
        assert(after.drop_last() =~= slots.drop_last().update(index, code));
    }
}

/// What pressing a key that is not yet reported does to the count: with a
/// slot free, the key is reported and one more slot is occupied; with none
/// free, the key is dropped and the slots stay as they are. Either way
/// every slot holds what it held, or the key.
pub proof fn lemma_press_counts(slots: Seq<u8>, code: u8)
    requires
        code != 0,
        !slots.contains(code),
    ensures
        occupied(slots) < slots.len() ==> occupied(spec_press(slots, code)) == occupied(slots) + 1
            && spec_press(slots, code).contains(code),
        occupied(slots) == slots.len() ==> spec_press(slots, code) == slots,
        forall|i: int|
            0 <= i < slots.len() ==> (#[trigger] spec_press(slots, code)[i]) == slots[i]
                || spec_press(slots, code)[i] == code,
{
    lemma_occupied_full(slots);
    lemma_occupied_bound(slots);
    if slots.contains(0) {
        lemma_first_index_exists(slots, 0);
        let free = first_index(slots, 0);
        lemma_occupied_update(slots, free, code);
        assert(spec_press(slots, code)[free] == code);
    }
}

/// Finds the first of the six slots that holds `value`.
pub fn find_slot(keys: &[u8; 6], value: u8) -> (found: Option<usize>)
    ensures
        found is Some <==> keys@.contains(value),
        found matches Some(index) ==> is_first(keys@, value, index as int),
        found matches Some(index) ==> first_index(keys@, value) == index,
{
    let mut index: usize = 0;
    while index < 6
        invariant
            index <= 6,
            forall|j: int| 0 <= j < index ==> keys@[j] != value,
        decreases 6 - index,
    {
        if keys[index] == value {
            proof {
                lemma_first_index(keys@, value, index as int);
            }
            return Some(index);
        }
        index += 1;
    }
    None
}

/// What a keyboard report holds: the modifier byte, the reserved byte and
/// the six key slots.
pub struct KeyboardView {
    pub modifiers: u8,
    pub reserved: u8,
    pub keys: Seq<u8>,
}

impl KeyboardView {
    /// The report after the key with `code` was pressed.
    pub open spec fn press(self, code: u8) -> KeyboardView {
        KeyboardView { keys: spec_press(self.keys, code), ..self }
    }

    /// The report after the key with `code` was released.
    pub open spec fn release(self, code: u8) -> KeyboardView {
        KeyboardView { keys: spec_release(self.keys, code), ..self }
    }

    /// The report with the modifier bits `bits` set.
    pub open spec fn with_modifier(self, bits: u8) -> KeyboardView {
        KeyboardView { modifiers: self.modifiers | bits, ..self }
    }

    /// The report with the modifier bits `bits` cleared.
    pub open spec fn without_modifier(self, bits: u8) -> KeyboardView {
        KeyboardView { modifiers: self.modifiers & !bits, ..self }
    }

    /// The report with every key slot free and no modifier set.
    pub open spec fn flushed(self) -> KeyboardView {
        KeyboardView { modifiers: 0, keys: Seq::new(6, |i: int| 0u8), ..self }
    }

    /// The eight bytes that are sent: modifiers, the reserved byte, the six
    /// key slots.
    pub open spec fn bytes(self) -> Seq<u8> {
        seq![self.modifiers, self.reserved] + self.keys
    }
}

/// The keyboard report: eight bytes, of which six are key slots. A slot
/// that holds zero is free.
#[derive(Clone, Copy, Debug)]
pub struct KeyboardKeyReport {
    pub modifiers: u8,
    pub reserved: u8,
    pub keys: [u8; 6],
}

impl View for KeyboardKeyReport {
    type V = KeyboardView;

    open spec fn view(&self) -> KeyboardView {
        KeyboardView { modifiers: self.modifiers, reserved: self.reserved, keys: self.keys@ }
    }
}

impl Default for KeyboardKeyReport {
    /// A report that holds nothing.
    fn default() -> (report: KeyboardKeyReport)
        ensures
            report@ == (KeyboardView { modifiers: 0, reserved: 0, keys: Seq::new(6, |i: int| 0u8) }),
    {
        let report = KeyboardKeyReport { modifiers: 0, reserved: 0, keys: [0; 6] };
        assert(report.keys@ =~= Seq::new(6, |i: int| 0u8));
        report
    }
}

impl KeyboardKeyReport {
    /// The eight bytes of the report, ready to be sent.
    pub fn construct(self) -> (bytes: [u8; 8])
        ensures
            bytes@ == self@.bytes(),
    {
        let bytes = [
            self.modifiers,
            self.reserved,
            self.keys[0],
            self.keys[1],
            self.keys[2],
            self.keys[3],
            self.keys[4],
            self.keys[5],
        ];
        assert(bytes@ =~= self@.bytes());
        bytes
    }

    /// True if the two reports hold the same bytes.
    pub fn same_as(&self, other: &KeyboardKeyReport) -> (same: bool)
        ensures
            same == (self@ == other@),
    {
        let same = self.modifiers == other.modifiers && self.reserved == other.reserved
            && self.keys[0] == other.keys[0] && self.keys[1] == other.keys[1] && self.keys[2]
            == other.keys[2] && self.keys[3] == other.keys[3] && self.keys[4] == other.keys[4]
            && self.keys[5] == other.keys[5];
        assert(same ==> self.keys@ =~= other.keys@);
        same
    }

    /// Presses the key with `code`: it takes the first free slot, unless it
    /// is there already or all six slots are taken.
    pub fn press(&mut self, code: u8)
        ensures
            final(self)@ == old(self)@.press(code),
    {
        if find_slot(&self.keys, code).is_none() {
            if let Some(index) = find_slot(&self.keys, 0) {
                self.keys[index] = code;
            }
        }
    }

    /// Releases the key with `code`: the slot that holds it is free again.
    pub fn release(&mut self, code: u8)
        ensures
            final(self)@ == old(self)@.release(code),
    {
        if let Some(index) = find_slot(&self.keys, code) {
            self.keys[index] = 0;
        }
    }

    /// Frees every key slot and clears the modifiers.
    pub fn flush(&mut self)
        ensures
            final(self)@ == old(self)@.flushed(),
    {
        self.keys = [0; 6];
        self.modifiers = 0;
        assert(self.keys@ =~= Seq::new(6, |i: int| 0u8));
    }
}

/// Whether a host is connected.
#[derive(Clone, Copy, Debug, PartialEq, Eq, Structural)]
pub enum BleStatus {
    Connected,
    NotConnected,
}

/// An interval timer: it fires when its interval has passed since it last
/// fired, and can be put off.
#[derive(Clone, Copy, Debug)]
pub struct Debounce {
    /// When the timer would fire next, as of the last look at it.
    pub future_instant: u64,
    /// When the timer was last looked at.
    pub current_instant: u64,
    /// Where the interval starts: when the timer last fired, or what it was
    /// put off to.
    pub previous_instant: u64,
    /// The interval.
    pub debounce: u64,
}

impl Debounce {
    /// A timer made at `now`, whose interval starts then.
    pub open spec fn spec_new(now: u64, timeout: u64) -> Debounce {
        Debounce {
            future_instant: now,
            current_instant: now,
            previous_instant: now,
            debounce: timeout,
        }
    }

    /// True if the timer fires at `now`: its interval has passed.
    pub open spec fn fires_at(self, now: u64) -> bool {
        spec_has_passed(self.previous_instant, self.debounce, now)
    }

    /// The timer after a look at it at `now`: if it fired, its interval
    /// starts anew.
    pub open spec fn looked_at(self, now: u64) -> Debounce {
        Debounce {
            future_instant: spec_later(self.previous_instant, self.debounce),
            current_instant: now,
            previous_instant: if self.fires_at(now) {
                now
            } else {
                self.previous_instant
            },
            debounce: self.debounce,
        }
    }

    /// The timer after it was put off at `now`: its interval starts
    /// `delay` ticks from then.
    pub open spec fn put_off(self, now: u64, delay: u64) -> Debounce {
        Debounce { previous_instant: spec_later(now, delay), ..self }
    }

    /// A timer with the interval `timeout`, made at `now`.
    pub fn new_at(now: u64, timeout: u64) -> (timer: Debounce)
        ensures
            timer == Debounce::spec_new(now, timeout),
    {
        Debounce {
            future_instant: now,
            current_instant: now,
            previous_instant: now,
            debounce: timeout,
        }
    }

    /// Looks at the timer at `now` and says whether it fires.
    pub fn elapsed_at(&mut self, now: u64) -> (fired: bool)
        ensures
            fired == old(self).fires_at(now),
            *final(self) == old(self).looked_at(now),
    {
        self.current_instant = now;
        self.future_instant = later(self.previous_instant, self.debounce);
        if has_passed(self.previous_instant, self.debounce, now) {
            self.previous_instant = now;
            true
        } else {
            false
        }
    }

    /// Puts the timer off at `now`: its interval starts `debounce_duration`
    /// ticks from then.
    pub fn reset_at(&mut self, now: u64, debounce_duration: u64)
        ensures
            *final(self) == old(self).put_off(now, debounce_duration),
    {
        self.previous_instant = later(now, debounce_duration);
    }

    /// A timer with the interval `timeout`, made now.
    pub fn new(timeout: u64) -> (timer: Debounce)
        ensures
            exists|now: u64| timer == #[trigger] Debounce::spec_new(now, timeout),
    {
        Debounce::new_at(now_ticks(), timeout)
    }

    /// Looks at the timer now and says whether it fires.
    pub fn elapsed(&mut self) -> (fired: bool)
        ensures
            exists|now: u64|
                fired == old(self).fires_at(now) && *final(self) == #[trigger] old(self).looked_at(
                    now,
                ),
    {
        let now = now_ticks();
        self.elapsed_at(now)
    }

    /// Puts the timer off now: its interval starts `debounce_duration` ticks
    /// from now.
    pub fn reset(&mut self, debounce_duration: u64)
        ensures
            exists|now: u64|
                *final(self) == #[trigger] old(self).put_off(now, debounce_duration),
    {
        let now = now_ticks();
        self.reset_at(now, debounce_duration)
    }
}

} // verus!
