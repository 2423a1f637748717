//! Combos: a chord of keys that is held, and no other key with it, makes
//! way in the table for the combo that it stands for.
use vstd::prelude::*;

use crate::config::enums::{Kc, KeyType};
use crate::config::layout::Layout;
use crate::config::user_config::USER_SET_COMBO_NUMBER;
use crate::fixed_vec::{
    combo_contents, combo_get, combo_len, records_get, records_len, records_remove,
};
use crate::matrix::records::{
    holds_place, lemma_first_at_exists, lemma_front_is_sound, lemma_merge_keeps_places,
    never_resurrects, only_combos_outside, sound, spec_merge, unique_places,
};
use crate::matrix::{Key, KeyPos, KeyState, RegisteredMatrixKeys};

verus! {

/// True if some record holds `keycode` and is pressed.
pub open spec fn holds_pressed(records: Seq<Key>, keycode: Kc) -> bool {
    exists|index: int|
        0 <= index < records.len() && (#[trigger] records[index]).keycode == keycode
            && records[index].info.state == KeyState::Pressed
}

/// True if every key of the chord is held: the chord is not empty, and for
/// each of its keys some record holds it and is pressed.
pub open spec fn chord_held(records: Seq<Key>, chord: Seq<Kc>) -> bool {
    &&& chord.len() > 0
    &&& forall|c: int| 0 <= c < chord.len() ==> holds_pressed(records, #[trigger] chord[c])
}

/// True if `key` is a raw key that counts as held: its record is pressed
/// and stands at a place of its own. The record at the place that stands
/// for no key is a combo, which was put there for a chord.
pub open spec fn is_raw_pressed(key: Key) -> bool {
    key.info.state == KeyState::Pressed && !key.position.same_place(KeyPos::spec_default())
}

/// True if no raw key is held besides those of the chord.
pub open spec fn only_chord_pressed(records: Seq<Key>, chord: Seq<Kc>) -> bool {
    forall|index: int|
        0 <= index < records.len() && is_raw_pressed(#[trigger] records[index]) ==> chord.contains(
            records[index].keycode,
        )
}

/// True if the raw keys that are held are exactly those of the chord:
/// every key of the chord is held, and no other raw key is.
pub open spec fn chord_matches(records: Seq<Key>, chord: Seq<Kc>) -> bool {
    chord_held(records, chord) && only_chord_pressed(records, chord)
}

/// The records without those that hold a key of the chord, in their order.
pub open spec fn without_chord(records: Seq<Key>, chord: Seq<Kc>) -> Seq<Key>
    decreases records.len(),
{
    if records.len() == 0 {
        records
    } else {
        let rest = without_chord(records.drop_last(), chord);
        if chord.contains(records.last().keycode) {
            rest
        } else {
            rest.push(records.last())
        }
    }
}

/// The time of the last record that holds a key of the chord; zero if
/// there is none.
pub open spec fn chord_time(records: Seq<Key>, chord: Seq<Kc>) -> u64
    decreases records.len(),
{
    if records.len() == 0 {
        0
    } else if chord.contains(records.last().keycode) {
        records.last().info.pressed_time
    } else {
        chord_time(records.drop_last(), chord)
    }
}

/// The records after one combo was looked for. Where the raw keys that
/// are held are exactly those of its chord, the records of the chord leave
/// the table, and the combo is merged in their stead, at the place that
/// stands for no key and with the time of the last of them. Where a key of
/// the chord is missing, or another raw key is held, nothing changes.
pub open spec fn spec_combo(records: Seq<Key>, combo: Kc) -> Seq<Key> {
    let chord = combo.spec_combo_chord();
    if chord_matches(records, chord) {
        spec_merge(
            without_chord(records, chord),
            Key::spec_fresh(combo, KeyPos::spec_default(), chord_time(records, chord)),
        )
    } else {
        records
    }
}

/// The records after the combos of a layout were looked for, first to last.
pub open spec fn spec_combos(records: Seq<Key>, combos: Seq<Kc>) -> Seq<Key>
    decreases combos.len(),
{
    if combos.len() == 0 {
        records
    } else {
        spec_combo(spec_combos(records, combos.drop_last()), combos.last())
    }
}

impl RegisteredMatrixKeys {
    /// True if some record holds `keycode` and is pressed.
    pub fn has_pressed(&self, keycode: &Kc) -> (held: bool)
        ensures
            held == holds_pressed(self@, *keycode),
    {
        let count = records_len(&self.keys);
        let mut index: usize = 0;
        while index < count
            invariant
                index <= count,
                count == self@.len(),
                forall|j: int|
                    0 <= j < index ==> !((#[trigger] self@[j]).keycode == *keycode && self@[j].info.state
                        == KeyState::Pressed),
            decreases count - index,
        {
            let key = records_get(&self.keys, index);
            if key.keycode == *keycode && key.info.state == KeyState::Pressed {
                return true;
            }
            index += 1;
        }
        false
    }

    fn holds_chord(&self, chord: &heapless::Vec<Kc, 12>) -> (held: bool)
        ensures
            held == chord_held(self@, combo_contents(*chord)),
    {
        let count = combo_len(chord);
        if count == 0 {
            return false;
        }
        let mut index: usize = 0;
        while index < count
            invariant
                index <= count,
                count == combo_contents(*chord).len(),
                forall|c: int|
                    0 <= c < index ==> holds_pressed(self@, #[trigger] combo_contents(*chord)[c]),
            decreases count - index,
        {
            let keycode = combo_get(chord, index);
            if !self.has_pressed(&keycode) {
                return false;
            }
            index += 1;
        }
        true
    }

    fn holds_only_chord(&self, chord: &heapless::Vec<Kc, 12>) -> (only: bool)
        ensures
            only == only_chord_pressed(self@, combo_contents(*chord)),
    {
        let nowhere = KeyPos::default();
        let count = records_len(&self.keys);
        let mut index: usize = 0;
        while index < count
            invariant
                index <= count,
                count == self@.len(),
                nowhere == KeyPos::spec_default(),
                forall|j: int|
                    0 <= j < index && is_raw_pressed(#[trigger] self@[j]) ==> combo_contents(
                        *chord,
                    ).contains(self@[j].keycode),
            decreases count - index,
        {
            let key = records_get(&self.keys, index);
            if key.info.state == KeyState::Pressed && !key.position.is_same_place(&nowhere)
                && !chord_contains(chord, &key.keycode) {
                return false;
            }
            index += 1;
        }
        true
    }

    /// Takes the records of a chord out of the table and returns the time
    /// of the last of them.
    fn take_out(&mut self, chord: &heapless::Vec<Kc, 12>) -> (time: u64)
        ensures
            final(self)@ == without_chord(old(self)@, combo_contents(*chord)),
            time == chord_time(old(self)@, combo_contents(*chord)),
            final(self).sleep_condition == old(self).sleep_condition,
    {
        let ghost start = self@;
        let ghost keys = combo_contents(*chord);
        let ghost mut seen: int = 0;
        let mut time: u64 = 0;
        let mut index: usize = 0;
        assert(start.take(0) =~= Seq::<Key>::empty());
        assert(start.skip(0) =~= start);
        assert(without_chord(start.take(0), keys) + start.skip(0) =~= start);
        while index < records_len(&self.keys)
            invariant
                0 <= seen <= start.len(),
                keys == combo_contents(*chord),
                index == without_chord(start.take(seen), keys).len(),
                self@ == without_chord(start.take(seen), keys) + start.skip(seen),
                time == chord_time(start.take(seen), keys),
                self.sleep_condition == old(self).sleep_condition,
            decreases self@.len() - index,
        {
            let key = records_get(&self.keys, index);
            proof {
                assert(key == start[seen]);
                assert(start.take(seen + 1).drop_last() =~= start.take(seen));
                assert(start.take(seen + 1).last() == start[seen]);
            }
            if chord_contains(chord, &key.keycode) {
                time = key.info.pressed_time;
                records_remove(&mut self.keys, index);
                proof {
                    assert(self@ =~= without_chord(start.take(seen + 1), keys) + start.skip(seen + 1));
                    seen = seen + 1;
                }
            } else {
                index += 1;
                proof {
                    assert(self@ =~= without_chord(start.take(seen + 1), keys) + start.skip(seen + 1));
                    seen = seen + 1;
                }
            }
        }
        proof {
            assert(seen == start.len());
            assert(start.take(seen) =~= start);
            assert(self@ =~= without_chord(start, keys));
        }
        time
    }

    /// Looks for one combo: where the raw keys that are held are exactly
    /// those of its chord, the records of the chord make way for the combo.
    pub fn process_combo(&mut self, combo: &Kc)
        ensures
            final(self)@ == spec_combo(old(self)@, *combo),
            final(self).sleep_condition == old(self).sleep_condition,
            old(self).wf() ==> final(self).wf(),
            old(self).wf() ==> never_resurrects(old(self)@, final(self)@),
    {
        proof {
            if sound(self@) {
                lemma_combo_keeps_places(self@, *combo);
            }
        }
        let (_combo_vec, combo_keys) = Kc::get_combo(combo);
        if self.holds_chord(&combo_keys) && self.holds_only_chord(&combo_keys) {
            let pressed_time = self.take_out(&combo_keys);
            self.merge(Key::fresh(*combo, KeyPos::default(), pressed_time));
        }
    }

    /// Looks for the combos of the layout, first to last.
    pub fn process_combos(&mut self, layout: &Layout)
        ensures
            final(self)@ == spec_combos(old(self)@, layout.combos@),
            final(self).sleep_condition == old(self).sleep_condition,
            old(self).wf() ==> final(self).wf(),
            old(self).wf() ==> never_resurrects(old(self)@, final(self)@),
    {
        let ghost start = self@;
        let mut index: usize = 0;
        while index < USER_SET_COMBO_NUMBER
            invariant
                index <= USER_SET_COMBO_NUMBER,
                self@ == spec_combos(start, layout.combos@.take(index as int)),
                self.sleep_condition == old(self).sleep_condition,
            decreases USER_SET_COMBO_NUMBER - index,
        {
            let combo = layout.combos[index];
            proof {
                assert(layout.combos@.take(index + 1).drop_last() =~= layout.combos@.take(
                    index as int,
                ));
            }
            self.process_combo(&combo);
            index += 1;
        }
        proof {
            assert(layout.combos@.take(USER_SET_COMBO_NUMBER as int) =~= layout.combos@);
            if sound(start) {
                lemma_combos_keep_places(start, layout.combos@);
            }
        }
    }
}

/// True if the chord holds `keycode`.
fn chord_contains(chord: &heapless::Vec<Kc, 12>, keycode: &Kc) -> (found: bool)
    ensures
        found == combo_contents(*chord).contains(*keycode),
{
    let count = combo_len(chord);
    let mut index: usize = 0;
    while index < count
        invariant
            index <= count,
            count == combo_contents(*chord).len(),
            forall|j: int| 0 <= j < index ==> combo_contents(*chord)[j] != *keycode,
        decreases count - index,
    {
        if combo_get(chord, index) == *keycode {
            return true;
        }
        index += 1;
    }
    false
}

/// Every record that is left without a chord was there before.
pub proof fn lemma_without_chord_members(records: Seq<Key>, chord: Seq<Kc>)
    ensures
        without_chord(records, chord).len() <= records.len(),
        forall|j: int|
            0 <= j < without_chord(records, chord).len() ==> records.contains(
                #[trigger] without_chord(records, chord)[j],
            ),
        forall|i: int|
            0 <= i < records.len() && !chord.contains((#[trigger] records[i]).keycode)
                ==> without_chord(records, chord).contains(records[i]),
        unique_places(records) ==> unique_places(without_chord(records, chord)),
    decreases records.len(),
{
    let after = without_chord(records, chord);
    if records.len() > 0 {
        let front = records.drop_last();
        let rest = without_chord(front, chord);
        lemma_without_chord_members(front, chord);
        assert forall|j: int| 0 <= j < after.len() implies records.contains(#[trigger] after[j]) by {
            if j < rest.len() {
                assert(front.contains(rest[j]));
                let i = choose|i: int| 0 <= i < front.len() && front[i] == rest[j];
                assert(records[i] == after[j]);
            } else {
                assert(records[records.len() - 1] == after[j]);
            }
        }
        assert forall|i: int|
            0 <= i < records.len() && !chord.contains((#[trigger] records[i]).keycode) implies after.contains(
            records[i],
        ) by {
            if i < front.len() {
                assert(front[i] == records[i]);
                assert(rest.contains(front[i]));
                let j = choose|j: int| 0 <= j < rest.len() && rest[j] == front[i];
                assert(after[j] == records[i]);
            } else {
                assert(after[after.len() - 1] == records[i]);
            }
        }
        if unique_places(records) {
            lemma_front_is_sound(records);
            assert forall|i: int, j: int|
                0 <= i < after.len() && 0 <= j < after.len() && i != j
                    implies !(#[trigger] after[i]).position.same_place((#[trigger] after[j]).position) by {
                if i < rest.len() && j < rest.len() {
                    assert(!rest[i].position.same_place(rest[j].position));
                } else if i < rest.len() {
                    assert(front.contains(rest[i]));
                    let k = choose|k: int| 0 <= k < front.len() && front[k] == rest[i];
                    assert(!records[k].position.same_place(records[records.len() - 1].position));
                } else if j < rest.len() {
                    assert(front.contains(rest[j]));
                    let k = choose|k: int| 0 <= k < front.len() && front[k] == rest[j];
                    assert(!records[k].position.same_place(records[records.len() - 1].position));
                }
            }
        }
    }
}

/// The keys of a chord are resolved by themselves: no chord holds a combo.
pub proof fn lemma_chords_are_plain(combo: Kc, index: int)
    ensures
        0 <= index < combo.spec_combo_chord().len() ==> combo.spec_combo_chord()[index].is_plain(),
        combo.spec_combo_chord().len() > 0 ==> combo.key_type() == KeyType::Combo,
{
}

/// True if `key` continues a record of `records`: one stands at its
/// position, in its state.
pub open spec fn continues(records: Seq<Key>, key: Key) -> bool {
    exists|i: int|
        0 <= i < records.len() && (#[trigger] records[i]).position == key.position
            && records[i].info.state == key.info.state
}

/// True if each record of `after` continues one of `before`, or is a combo
/// at the place that stands for no key, where `before` has no record.
pub open spec fn carried_over(before: Seq<Key>, after: Seq<Key>) -> bool {
    forall|j: int|
        0 <= j < after.len() ==> continues(before, #[trigger] after[j]) || (after[j].position.same_place(
            KeyPos::spec_default(),
        ) && !holds_place(before, KeyPos::spec_default()))
}

/// What is carried over from a table with one record per place resurrects
/// no key.
pub proof fn lemma_carried_over_never_resurrects(before: Seq<Key>, after: Seq<Key>)
    requires
        unique_places(before),
        carried_over(before, after),
    ensures
        never_resurrects(before, after),
{
    assert forall|i: int, j: int|
        0 <= i < before.len() && 0 <= j < after.len()
            && (#[trigger] before[i]).position.same_place((#[trigger] after[j]).position)
            && before[i].info.state == KeyState::Released implies after[j].info.state
            == KeyState::Released by {
        if continues(before, after[j]) {
            let k = choose|k: int|
                0 <= k < before.len() && (#[trigger] before[k]).position == after[j].position
                    && before[k].info.state == after[j].info.state;
            if k != i {
                assert(!before[i].position.same_place(before[k].position));
            }
        } else {
            assert(before[i].position.same_place(KeyPos::spec_default()));
        }
    }
}

/// Looking for a combo keeps a sound table sound, resurrects no key, and
/// leaves the record outside the matrix where it is.
pub proof fn lemma_combo_keeps_places(records: Seq<Key>, combo: Kc)
    requires
        sound(records),
    ensures
        sound(spec_combo(records, combo)),
        carried_over(records, spec_combo(records, combo)),
        never_resurrects(records, spec_combo(records, combo)),
        holds_place(records, KeyPos::spec_default()) ==> holds_place(
            spec_combo(records, combo),
            KeyPos::spec_default(),
        ),
{
    let chord = combo.spec_combo_chord();
    let after = spec_combo(records, combo);
    let nowhere = KeyPos::spec_default();
    if chord_matches(records, chord) {
        let kept = without_chord(records, chord);
        let fresh = Key::spec_fresh(combo, nowhere, chord_time(records, chord));
        lemma_without_chord_members(records, chord);
        lemma_merge_keeps_places(kept, fresh);
        lemma_chords_are_plain(combo, 0);
        if holds_place(kept, nowhere) {
            lemma_first_at_exists(kept, nowhere);
        }
        assert(only_combos_outside(kept)) by {
            assert forall|j: int| 0 <= j < kept.len() implies (#[trigger] kept[j]).position.in_matrix()
                || kept[j].keycode.key_type() == KeyType::Combo by {
                assert(records.contains(kept[j]));
                let i = choose|i: int| 0 <= i < records.len() && records[i] == kept[j];
                assert(records[i].position.in_matrix() || records[i].keycode.key_type()
                    == KeyType::Combo);
            }
        }
        // a record outside the matrix holds a combo, so it is no part of a chord and stays
        assert(holds_place(records, nowhere) ==> holds_place(kept, nowhere)) by {
            if holds_place(records, nowhere) {
                let i = choose|i: int|
                    0 <= i < records.len() && (#[trigger] records[i]).position.same_place(nowhere);
                assert(records[i].keycode.key_type() == KeyType::Combo);
                if chord.contains(records[i].keycode) {
                    let c = choose|c: int| 0 <= c < chord.len() && chord[c] == records[i].keycode;
                    lemma_chords_are_plain(combo, c);
                }
                assert(kept.contains(records[i]));
                let k = choose|k: int| 0 <= k < kept.len() && kept[k] == records[i];
                assert(kept[k].position.same_place(nowhere));
            }
        }
        assert(holds_place(kept, nowhere) ==> holds_place(after, nowhere)) by {
            if holds_place(kept, nowhere) {
                let k = choose|k: int|
                    0 <= k < kept.len() && (#[trigger] kept[k]).position.same_place(nowhere);
                assert(after[k].position.same_place(nowhere));
            }
        }
        assert forall|j: int| 0 <= j < after.len() implies continues(records, #[trigger] after[j]) || (
        after[j].position.same_place(nowhere) && !holds_place(records, nowhere)) by {
            if j < kept.len() {
                assert(after[j].position == kept[j].position);
                assert(after[j].info.state == kept[j].info.state);
                assert(records.contains(kept[j]));
                let i = choose|i: int| 0 <= i < records.len() && records[i] == kept[j];
                assert(records[i].position == after[j].position);
            } else {
                assert(after[j] == fresh);
                assert(!holds_place(kept, nowhere));
            }
        }
        lemma_carried_over_never_resurrects(records, after);
    } else {
        assert forall|j: int| 0 <= j < after.len() implies continues(records, #[trigger] after[j]) by {
            assert(records[j].position == after[j].position);
        }
        lemma_carried_over_never_resurrects(records, after);
    }
}

/// Looking for the combos of a layout keeps a sound table sound, resurrects
/// no key, and leaves the record outside the matrix where it is.
pub proof fn lemma_combos_keep_places(records: Seq<Key>, combos: Seq<Kc>)
    requires
        sound(records),
    ensures
        sound(spec_combos(records, combos)),
        carried_over(records, spec_combos(records, combos)),
        never_resurrects(records, spec_combos(records, combos)),
        holds_place(records, KeyPos::spec_default()) ==> holds_place(
            spec_combos(records, combos),
            KeyPos::spec_default(),
        ),
    decreases combos.len(),
{
    let after = spec_combos(records, combos);
    let nowhere = KeyPos::spec_default();
    if combos.len() > 0 {
        let before = spec_combos(records, combos.drop_last());
        lemma_combos_keep_places(records, combos.drop_last());
        lemma_combo_keeps_places(before, combos.last());
        assert forall|j: int| 0 <= j < after.len() implies continues(records, #[trigger] after[j]) || (
        after[j].position.same_place(nowhere) && !holds_place(records, nowhere)) by {
            if continues(before, after[j]) {
                let k = choose|k: int|
                    0 <= k < before.len() && (#[trigger] before[k]).position == after[j].position
                        && before[k].info.state == after[j].info.state;
                if continues(records, before[k]) {
                    let i = choose|i: int|
                        0 <= i < records.len() && (#[trigger] records[i]).position
                            == before[k].position && records[i].info.state == before[k].info.state;
                    assert(records[i].position == after[j].position);
                }
            }
        }
    } else {
        assert forall|j: int| 0 <= j < after.len() implies continues(records, #[trigger] after[j]) by {
            assert(records[j].position == after[j].position);
        }
    }
    lemma_carried_over_never_resurrects(records, after);
}

} // verus!
