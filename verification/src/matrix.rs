//! The table of registered keys: what the scanner and the other half put
//! into it, how its records age, and how they get their keys.
use vstd::prelude::*;

use crate::ble::Debounce;
use crate::clock::{has_passed, now_ticks, spec_has_passed};
use crate::config::enums::{Kc, KeyType};
use crate::config::layout::Layout;
use crate::config::user_config::{KEYMAP_COLS, REGISTERED_KEYS_ARRAY_SIZE, ROWS};
use crate::fixed_vec::{
    key_records, records_get, records_len, records_new, records_push, records_set,
};
use crate::matrix::link::{spec_unpack_all, unpack};
use crate::matrix::records::{
    any_in_matrix, first_at, holds_place, is_first_at, lemma_first_at,
    lemma_merge_keeps_places, lemma_store_keeps_places, lemma_sweep_keeps_places,
    lemma_transform_keeps_places, never_resurrects, sound, spec_merge, spec_store, spec_sweep,
    spec_transform,
};

pub mod combos;
pub mod link;
pub mod records;
pub mod scan;

pub use crate::matrix::scan::PinMatrix;

verus! {

/// A detected key: the place of its switch in the matrix of both halves,
/// and the layer that was active when it was detected.
#[derive(Clone, Copy, Debug, PartialEq, Eq, Structural)]
pub struct KeyPos {
    pub row: u8,
    pub col: u8,
    pub layer: usize,
}

impl KeyPos {
    /// The position that stands for "no key": it lies outside every matrix.
    pub open spec fn spec_default() -> KeyPos {
        KeyPos { row: 255, col: 255, layer: 255 }
    }

    /// True if the two positions name the same switch, whatever their
    /// layers.
    pub open spec fn same_place(self, other: KeyPos) -> bool {
        self.row == other.row && self.col == other.col
    }

    /// True if the position names a switch of the matrix.
    pub open spec fn in_matrix(self) -> bool {
        self.row < ROWS && self.col < KEYMAP_COLS
    }

    /// The position of the switch at `row` and `col`, detected on `layer`.
    pub fn new(row: u8, col: u8, layer: usize) -> (position: KeyPos)
        ensures
            position == (KeyPos { row, col, layer }),
    {
        KeyPos { row, col, layer }
    }

    /// True if the two positions name the same switch, whatever their
    /// layers.
    pub fn is_same_place(&self, other: &KeyPos) -> (same: bool)
        ensures
            same == self.same_place(*other),
    {
        self.row == other.row && self.col == other.col
    }

    /// True if the position names a switch of the matrix.
    pub fn is_in_matrix(&self) -> (inside: bool)
        ensures
            inside == self.in_matrix(),
    {
        (self.row as usize) < ROWS && (self.col as usize) < KEYMAP_COLS
    }
}

impl Default for KeyPos {
    /// The position that stands for "no key".
    fn default() -> (position: KeyPos)
        ensures
            position == KeyPos::spec_default(),
    {
        KeyPos { row: 255, col: 255, layer: 255 }
    }
}

/// Whether a registered key counts as held.
#[derive(Clone, Copy, Debug, PartialEq, Eq, Structural)]
pub enum KeyState {
    Released,
    Pressed,
}

/// What the table knows of a registered key besides its place.
#[derive(Clone, Copy, Debug)]
pub struct KeyInfo {
    /// When the key was last detected.
    pub pressed_time: u64,
    pub state: KeyState,
    /// True once the resolver has seen the key pressed and acted on it.
    pub reported: bool,
}

impl Default for KeyInfo {
    /// The info of a released key, with the time of now.
    fn default() -> (info: KeyInfo)
        ensures
            info.state == KeyState::Released,
            !info.reported,
    {
        KeyInfo { pressed_time: now_ticks(), state: KeyState::Released, reported: false }
    }
}

/// A record of the table: a registered key.
#[derive(Clone, Copy, Debug)]
pub struct Key {
    /// The key that the layout gives for the position; `Undf` until the
    /// layout was asked.
    pub keycode: Kc,
    pub position: KeyPos,
    pub info: KeyInfo,
}

impl Key {
    /// The record of a key that was detected at `now` for the first time.
    pub open spec fn spec_fresh(keycode: Kc, position: KeyPos, now: u64) -> Key {
        Key {
            keycode,
            position,
            info: KeyInfo { pressed_time: now, state: KeyState::Pressed, reported: false },
        }
    }

    /// The record after its key was detected again at `now`: only the time
    /// changes.
    pub open spec fn refreshed(self, now: u64) -> Key {
        Key { info: KeyInfo { pressed_time: now, ..self.info }, ..self }
    }

    /// The record as the sweeper leaves it at `now`: a pressed key that was
    /// not detected for `debounce` ticks is released.
    pub open spec fn aged(self, now: u64, debounce: u64) -> Key {
        if self.info.state == KeyState::Pressed && spec_has_passed(
            self.info.pressed_time,
            debounce,
            now,
        ) {
            Key { info: KeyInfo { state: KeyState::Released, ..self.info }, ..self }
        } else {
            self
        }
    }

    /// The record with the key that the layout gives for its position. A
    /// record that holds a combo, or whose position the layout does not
    /// map, keeps its key.
    pub open spec fn mapped(self, layout: Layout) -> Key {
        if self.keycode.key_type() == KeyType::Combo {
            self
        } else {
            match layout.spec_get(self.position.layer, self.position.row, self.position.col) {
                Some(keycode) => Key { keycode, ..self },
                None => self,
            }
        }
    }

    /// The record once the resolver has acted on its being pressed.
    pub open spec fn marked_reported(self) -> Key {
        Key { info: KeyInfo { reported: true, ..self.info }, ..self }
    }

    /// The record of a key that was detected at `now` for the first time.
    pub fn fresh(keycode: Kc, position: KeyPos, now: u64) -> (key: Key)
        ensures
            key == Key::spec_fresh(keycode, position, now),
    {
        Key {
            keycode,
            position,
            info: KeyInfo { pressed_time: now, state: KeyState::Pressed, reported: false },
        }
    }
}

/// The table of registered keys, which the tasks share, and the timer that
/// sends the keyboard to sleep when no key has been detected for long.
pub struct RegisteredMatrixKeys {
    pub keys: heapless::Vec<Key, REGISTERED_KEYS_ARRAY_SIZE>,
    pub sleep_condition: Debounce,
}

impl View for RegisteredMatrixKeys {
    type V = Seq<Key>;

    open spec fn view(&self) -> Seq<Key> {
        key_records(self.keys)
    }
}

impl RegisteredMatrixKeys {
    /// True if the table holds one record per place at most, and none but
    /// combos outside the matrix.
    pub open spec fn wf(&self) -> bool {
        sound(self@)
    }

    /// An empty table, whose sleep timer starts at `now`.
    pub fn new_at(now: u64, sleep_timeout: u64) -> (table: RegisteredMatrixKeys)
        ensures
            table@ == Seq::<Key>::empty(),
            table.sleep_condition == Debounce::spec_new(now, sleep_timeout),
            table.wf(),
    {
        RegisteredMatrixKeys {
            keys: records_new(),
            sleep_condition: Debounce::new_at(now, sleep_timeout),
        }
    }

    /// An empty table, whose sleep timer starts now.
    pub fn new(sleep_timeout: u64) -> (table: RegisteredMatrixKeys)
        ensures
            table@ == Seq::<Key>::empty(),
            exists|now: u64| table.sleep_condition == #[trigger] Debounce::spec_new(now, sleep_timeout),
            table.wf(),
    {
        RegisteredMatrixKeys::new_at(now_ticks(), sleep_timeout)
    }

    /// The number of records.
    pub fn len(&self) -> (len: usize)
        ensures
            len == self@.len(),
            len <= REGISTERED_KEYS_ARRAY_SIZE,
    {
        records_len(&self.keys)
    }

    /// Finds the first record at the place of `position`.
    pub fn find(&self, position: &KeyPos) -> (found: Option<usize>)
        ensures
            found is Some <==> holds_place(self@, *position),
            found matches Some(index) ==> is_first_at(self@, *position, index as int),
            found matches Some(index) ==> first_at(self@, *position) == index,
    {
        let count = records_len(&self.keys);
        let mut index: usize = 0;
        while index < count
            invariant
                index <= count,
                count == self@.len(),
                forall|j: int| 0 <= j < index ==> !(#[trigger] self@[j]).position.same_place(*position),
            decreases count - index,
        {
            let key = records_get(&self.keys, index);
            if key.position.is_same_place(position) {
                proof {
                    lemma_first_at(self@, *position, index as int);
                }
                return Some(index);
            }
            index += 1;
        }
        None
    }

    /// Merges a detected key into the table: a record at its place takes
    /// its time; if there is none, the key is appended, unless the table is
    /// full.
    pub fn merge(&mut self, fresh: Key)
        ensures
            final(self)@ == spec_merge(old(self)@, fresh),
            final(self).sleep_condition == old(self).sleep_condition,
            old(self).wf() && (fresh.position.in_matrix() || fresh.keycode.key_type()
                == KeyType::Combo) ==> final(self).wf(),
            old(self).wf() ==> never_resurrects(old(self)@, final(self)@),
    {
        proof {
            lemma_merge_keeps_places(self@, fresh);
        }
        match self.find(&fresh.position) {
            Some(index) => {
                let mut key = records_get(&self.keys, index);
                key.info.pressed_time = fresh.info.pressed_time;
                records_set(&mut self.keys, index, key);
            },
            None => {
                records_push(&mut self.keys, fresh);
            },
        }
    }

    /// Stores the detections of one scan at `now`, first to last, and puts
    /// the sleep timer off by its own interval if a key was among them.
    pub fn store_at(&mut self, detections: &[KeyPos; 6], now: u64)
        ensures
            final(self)@ == spec_store(old(self)@, detections@, now),
            final(self).sleep_condition == if any_in_matrix(detections@) {
                old(self).sleep_condition.put_off(now, old(self).sleep_condition.debounce)
            } else {
                old(self).sleep_condition
            },
            old(self).wf() ==> final(self).wf(),
            old(self).wf() ==> never_resurrects(old(self)@, final(self)@),
    {
        let ghost start = self@;
        let ghost timer = self.sleep_condition;
        proof {
            lemma_store_keeps_places(start, detections@, now);
        }
        let mut index: usize = 0;
        while index < 6
            invariant
                index <= 6,
                self@ == spec_store(start, detections@.take(index as int), now),
                self.sleep_condition == if any_in_matrix(detections@.take(index as int)) {
                    timer.put_off(now, timer.debounce)
                } else {
                    timer
                },
            decreases 6 - index,
        {
            let position = detections[index];
            proof {
                assert(detections@.take(index + 1).drop_last() =~= detections@.take(index as int));
                assert(detections@.take(index + 1).last() == position);
                if any_in_matrix(detections@.take(index as int)) {
                    let k = choose|k: int|
                        0 <= k < index && (#[trigger] detections@.take(index as int)[k]).in_matrix();
                    assert(detections@.take(index + 1)[k].in_matrix());
                }
                if any_in_matrix(detections@.take(index + 1)) && !position.in_matrix() {
                    let k = choose|k: int|
                        0 <= k < index + 1 && (#[trigger] detections@.take(index + 1)[k]).in_matrix();
                    assert(detections@.take(index as int)[k].in_matrix());
                }
            }
            if position.is_in_matrix() {
                self.merge(Key::fresh(Kc::Undf, position, now));
                let interval = self.sleep_condition.debounce;
                self.sleep_condition.reset_at(now, interval);
                assert(detections@.take(index + 1)[index as int].in_matrix());
            }
            index += 1;
        }
        assert(detections@.take(6) =~= detections@);
    }

    /// Stores the keys that the scanner has collected in its buffer, at
    /// `now`, and empties the buffer.
    pub fn store_keys_local_at(&mut self, registered_local_matrix_keys: &mut [KeyPos; 6], now: u64)
        ensures
            final(self)@ == spec_store(old(self)@, old(registered_local_matrix_keys)@, now),
            final(self).sleep_condition == if any_in_matrix(old(registered_local_matrix_keys)@) {
                old(self).sleep_condition.put_off(now, old(self).sleep_condition.debounce)
            } else {
                old(self).sleep_condition
            },
            final(registered_local_matrix_keys)@ == Seq::new(6, |i: int| KeyPos::spec_default()),
            old(self).wf() ==> final(self).wf(),
            old(self).wf() ==> never_resurrects(old(self)@, final(self)@),
    {
        let detections = *registered_local_matrix_keys;
        self.store_at(&detections, now);
        *registered_local_matrix_keys = [KeyPos::default();6];
        assert(registered_local_matrix_keys@ =~= Seq::new(6, |i: int| KeyPos::spec_default()));
    }

    /// Stores the keys that the scanner has collected in its buffer, with
    /// the time of now, and empties the buffer.
    pub fn store_keys_local(&mut self, registered_local_matrix_keys: &mut [KeyPos; 6])
        ensures
            exists|now: u64|
                {
                    &&& final(self)@ == #[trigger] spec_store(
                        old(self)@,
                        old(registered_local_matrix_keys)@,
                        now,
                    )
                    &&& final(self).sleep_condition == if any_in_matrix(
                        old(registered_local_matrix_keys)@,
                    ) {
                        old(self).sleep_condition.put_off(now, old(self).sleep_condition.debounce)
                    } else {
                        old(self).sleep_condition
                    }
                },
            final(registered_local_matrix_keys)@ == Seq::new(6, |i: int| KeyPos::spec_default()),
            old(self).wf() ==> final(self).wf(),
            old(self).wf() ==> never_resurrects(old(self)@, final(self)@),
    {
        let now = now_ticks();
        self.store_keys_local_at(registered_local_matrix_keys, now);
    }

    /// Stores the keys that the other half reports in its six bytes, at
    /// `now`, as if the scanner had detected them on `layer`. A byte that is
    /// zero, or names no switch of the matrix, is no key.
    pub fn store_keys_slave_at(&mut self, slave_key_report: &[u8; 6], layer: usize, now: u64)
        ensures
            final(self)@ == spec_store(old(self)@, spec_unpack_all(slave_key_report@, layer), now),
            final(self).sleep_condition == if any_in_matrix(
                spec_unpack_all(slave_key_report@, layer),
            ) {
                old(self).sleep_condition.put_off(now, old(self).sleep_condition.debounce)
            } else {
                old(self).sleep_condition
            },
            old(self).wf() ==> final(self).wf(),
            old(self).wf() ==> never_resurrects(old(self)@, final(self)@),
    {
        let detections = [
            unpack(slave_key_report[0], layer),
            unpack(slave_key_report[1], layer),
            unpack(slave_key_report[2], layer),
            unpack(slave_key_report[3], layer),
            unpack(slave_key_report[4], layer),
            unpack(slave_key_report[5], layer),
        ];
        assert(detections@ =~= spec_unpack_all(slave_key_report@, layer));
        self.store_at(&detections, now);
    }

    /// Stores the keys that the other half reports in its six bytes, with
    /// the time of now.
    pub fn store_keys_slave(&mut self, slave_key_report: &[u8; 6], layer: usize)
        ensures
            exists|now: u64|
                {
                    &&& final(self)@ == #[trigger] spec_store(
                        old(self)@,
                        spec_unpack_all(slave_key_report@, layer),
                        now,
                    )
                    &&& final(self).sleep_condition == if any_in_matrix(
                        spec_unpack_all(slave_key_report@, layer),
                    ) {
                        old(self).sleep_condition.put_off(now, old(self).sleep_condition.debounce)
                    } else {
                        old(self).sleep_condition
                    }
                },
            old(self).wf() ==> final(self).wf(),
            old(self).wf() ==> never_resurrects(old(self)@, final(self)@),
    {
        let now = now_ticks();
        self.store_keys_slave_at(slave_key_report, layer, now);
    }

    /// Ages the records at `now`: every pressed key that was not detected
    /// for `debounce` ticks is released. Nothing else releases a key.
    pub fn sweep(&mut self, now: u64, debounce: u64)
        ensures
            final(self)@ == spec_sweep(old(self)@, now, debounce),
            final(self).sleep_condition == old(self).sleep_condition,
            old(self).wf() ==> final(self).wf(),
            old(self).wf() ==> never_resurrects(old(self)@, final(self)@),
    {
        let ghost start = self@;
        let count = records_len(&self.keys);
        let mut index: usize = 0;
        while index < count
            invariant
                index <= count,
                count == start.len(),
                self@.len() == start.len(),
                self.sleep_condition == old(self).sleep_condition,
                forall|j: int| 0 <= j < index ==> self@[j] == (#[trigger] start[j]).aged(now, debounce),
                forall|j: int| index <= j < count ==> self@[j] == #[trigger] start[j],
            decreases count - index,
        {
            let mut key = records_get(&self.keys, index);
            if key.info.state == KeyState::Pressed && has_passed(
                key.info.pressed_time,
                debounce,
                now,
            ) {
                key.info.state = KeyState::Released;
                records_set(&mut self.keys, index, key);
            }
            index += 1;
        }
        proof {
            assert(self@ =~= spec_sweep(start, now, debounce));
            lemma_sweep_keeps_places(start, now, debounce);
        }
    }

    /// Gives every record the key that the layout holds for its position.
    /// A record that holds a combo, or whose position the layout does not
    /// map, keeps its key.
    pub fn transform_matrix_to_hid(&mut self, layout: &Layout)
        ensures
            final(self)@ == spec_transform(old(self)@, *layout),
            final(self).sleep_condition == old(self).sleep_condition,
            old(self).wf() ==> final(self).wf(),
            old(self).wf() ==> never_resurrects(old(self)@, final(self)@),
    {
        let ghost start = self@;
        let count = records_len(&self.keys);
        let mut index: usize = 0;
        while index < count
            invariant
                index <= count,
                count == start.len(),
                self@.len() == start.len(),
                self.sleep_condition == old(self).sleep_condition,
                forall|j: int| 0 <= j < index ==> self@[j] == (#[trigger] start[j]).mapped(*layout),
                forall|j: int| index <= j < count ==> self@[j] == #[trigger] start[j],
            decreases count - index,
        {
            let mut key = records_get(&self.keys, index);
            match KeyType::check_type(&key.keycode) {
                KeyType::Combo => {},
                _ => {
                    match layout.get(key.position.layer, key.position.row, key.position.col) {
                        Some(keycode) => {
                            key.keycode = keycode;
                            records_set(&mut self.keys, index, key);
                        },
                        None => {},
                    }
                },
            }
            index += 1;
        }
        proof {
            assert(self@ =~= spec_transform(start, *layout));
            lemma_transform_keeps_places(start, *layout);
        }
    }
}

} // verus!
