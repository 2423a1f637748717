//! The records of the table as a sequence: what the operations of the
//! table do to it, and what holds of it whatever they do.
use vstd::prelude::*;

use crate::config::enums::{Kc, KeyType};
use crate::config::layout::Layout;
use crate::config::user_config::REGISTERED_KEYS_ARRAY_SIZE;
use crate::matrix::{Key, KeyPos, KeyState};

verus! {

/// True if `index` is the first record at the place of `position`.
pub open spec fn is_first_at(records: Seq<Key>, position: KeyPos, index: int) -> bool {
    &&& 0 <= index < records.len()
    &&& records[index].position.same_place(position)
    &&& forall|j: int| 0 <= j < index ==> !(#[trigger] records[j]).position.same_place(position)
}

/// True if some record stands at the place of `position`.
pub open spec fn holds_place(records: Seq<Key>, position: KeyPos) -> bool {
    exists|index: int|
        0 <= index < records.len() && (#[trigger] records[index]).position.same_place(position)
}

/// The first record at the place of `position`. Meaningful only if there
/// is one.
pub open spec fn first_at(records: Seq<Key>, position: KeyPos) -> int {
    choose|index: int| is_first_at(records, position, index)
}

/// There is one first record at a place at most: whoever has found it knows
/// `first_at`.
pub proof fn lemma_first_at(records: Seq<Key>, position: KeyPos, index: int)
    requires
        is_first_at(records, position, index),
    ensures
        first_at(records, position) == index,
        holds_place(records, position),
{
    let chosen = first_at(records, position);
    assert(is_first_at(records, position, chosen));
    if chosen < index {
        assert(!records[chosen].position.same_place(position));
    }
    if index < chosen {
        assert(!records[index].position.same_place(position));
    }
}

/// Where a record stands at a place, a first one does.
pub proof fn lemma_first_at_exists(records: Seq<Key>, position: KeyPos)
    requires
        holds_place(records, position),
    ensures
        is_first_at(records, position, first_at(records, position)),
{
    let some = choose|index: int|
        0 <= index < records.len() && (#[trigger] records[index]).position.same_place(position);
    lemma_first_at_below(records, position, some);
}

proof fn lemma_first_at_below(records: Seq<Key>, position: KeyPos, bound: int)
    requires
        0 <= bound < records.len(),
        records[bound].position.same_place(position),
    ensures
        exists|index: int| is_first_at(records, position, index),
    decreases bound,
{
    if exists|j: int| 0 <= j < bound && (#[trigger] records[j]).position.same_place(position) {
        let j = choose|j: int| 0 <= j < bound && (#[trigger] records[j]).position.same_place(position);
        lemma_first_at_below(records, position, j);
    } else {
        assert(is_first_at(records, position, bound));
    }
}

/// True if no two records stand at the same place.
pub open spec fn unique_places(records: Seq<Key>) -> bool {
    forall|i: int, j: int|
        0 <= i < records.len() && 0 <= j < records.len() && i != j
            ==> !(#[trigger] records[i]).position.same_place((#[trigger] records[j]).position)
}

/// True if every record outside the matrix holds a combo: the scanner and
/// the other half put no key there.
pub open spec fn only_combos_outside(records: Seq<Key>) -> bool {
    forall|i: int|
        0 <= i < records.len() ==> (#[trigger] records[i]).position.in_matrix()
            || records[i].keycode.key_type() == KeyType::Combo
}

/// What holds of the records of a table at any time: one record per place
/// at most, and none but combos outside the matrix.
pub open spec fn sound(records: Seq<Key>) -> bool {
    unique_places(records) && only_combos_outside(records)
}

/// True if no place that held a released key in `before` holds a pressed
/// one in `after`.
pub open spec fn never_resurrects(before: Seq<Key>, after: Seq<Key>) -> bool {
    forall|i: int, j: int|
        0 <= i < before.len() && 0 <= j < after.len() && (#[trigger] before[i]).position.same_place(
            (#[trigger] after[j]).position,
        ) && before[i].info.state == KeyState::Released ==> after[j].info.state
            == KeyState::Released
}

/// The records after `fresh` was merged into them: a record at its place
/// takes its time and stays as it is otherwise; if there is none, `fresh`
/// is appended, unless the table is full, which then stays as it is.
pub open spec fn spec_merge(records: Seq<Key>, fresh: Key) -> Seq<Key> {
    if holds_place(records, fresh.position) {
        let index = first_at(records, fresh.position);
        records.update(index, records[index].refreshed(fresh.info.pressed_time))
    } else if records.len() < REGISTERED_KEYS_ARRAY_SIZE {
        records.push(fresh)
    } else {
        records
    }
}

/// The records after the detections of one scan were stored at `now`, first
/// to last. A position outside the matrix is no key and is passed over.
pub open spec fn spec_store(records: Seq<Key>, detections: Seq<KeyPos>, now: u64) -> Seq<Key>
    decreases detections.len(),
{
    if detections.len() == 0 {
        records
    } else {
        let before = spec_store(records, detections.drop_last(), now);
        if detections.last().in_matrix() {
            spec_merge(before, Key::spec_fresh(Kc::Undf, detections.last(), now))
        } else {
            before
        }
    }
}

/// True if one of the detections names a switch of the matrix.
pub open spec fn any_in_matrix(detections: Seq<KeyPos>) -> bool {
    exists|index: int| 0 <= index < detections.len() && (#[trigger] detections[index]).in_matrix()
}

/// The records as the sweeper leaves them at `now`.
pub open spec fn spec_sweep(records: Seq<Key>, now: u64, debounce: u64) -> Seq<Key> {
    Seq::new(records.len(), |i: int| records[i].aged(now, debounce))
}

/// The records with the keys that the layout gives them.
pub open spec fn spec_transform(records: Seq<Key>, layout: Layout) -> Seq<Key> {
    Seq::new(records.len(), |i: int| records[i].mapped(layout))
}

/// Merging keeps one record per place, resurrects no key, and keeps every
/// record that was there, at its index and at its place.
pub proof fn lemma_merge_keeps_places(records: Seq<Key>, fresh: Key)
    ensures
        unique_places(records) ==> unique_places(spec_merge(records, fresh)),
        unique_places(records) ==> never_resurrects(records, spec_merge(records, fresh)),
        only_combos_outside(records) && (fresh.position.in_matrix() || fresh.keycode.key_type()
            == KeyType::Combo) ==> only_combos_outside(spec_merge(records, fresh)),
        spec_merge(records, fresh).len() >= records.len(),
        forall|i: int|
            0 <= i < records.len() ==> (#[trigger] spec_merge(records, fresh)[i]).position
                == records[i].position && spec_merge(records, fresh)[i].info.state
                == records[i].info.state,
        forall|j: int|
            records.len() <= j < spec_merge(records, fresh).len() ==> !holds_place(
                records,
                (#[trigger] spec_merge(records, fresh)[j]).position,
            ),
{
    let after = spec_merge(records, fresh);
    if holds_place(records, fresh.position) {
        lemma_first_at_exists(records, fresh.position);
    }
    assert forall|j: int| records.len() <= j < after.len() implies !holds_place(
        records,
        (#[trigger] after[j]).position,
    ) by {
        assert(after[j] == fresh);
    }
    if unique_places(records) {
        assert forall|i: int, j: int|
            0 <= i < after.len() && 0 <= j < after.len() && i != j
                implies !(#[trigger] after[i]).position.same_place((#[trigger] after[j]).position) by {
            if i < records.len() && j < records.len() {
                assert(!records[i].position.same_place(records[j].position));
            } else if i < records.len() {
                assert(!records[i].position.same_place(fresh.position));
            } else if j < records.len() {
                assert(!records[j].position.same_place(fresh.position));
            }
        }
        assert forall|i: int, j: int|
            0 <= i < records.len() && 0 <= j < after.len()
                && (#[trigger] records[i]).position.same_place((#[trigger] after[j]).position)
                && records[i].info.state == KeyState::Released implies after[j].info.state
                == KeyState::Released by {
            if j < records.len() {
                if i != j {
                    assert(!records[i].position.same_place(records[j].position));
                }
            } else {
                assert(!records[i].position.same_place(fresh.position));
            }
        }
    }
}

/// Storing the detections of a scan keeps one record per place and
/// resurrects no key.
pub proof fn lemma_store_keeps_places(records: Seq<Key>, detections: Seq<KeyPos>, now: u64)
    ensures
        unique_places(records) ==> unique_places(spec_store(records, detections, now)),
        unique_places(records) ==> never_resurrects(records, spec_store(records, detections, now)),
        only_combos_outside(records) ==> only_combos_outside(spec_store(records, detections, now)),
        spec_store(records, detections, now).len() >= records.len(),
        forall|i: int|
            0 <= i < records.len() ==> (#[trigger] spec_store(records, detections, now)[i]).position
                == records[i].position && spec_store(records, detections, now)[i].info.state
                == records[i].info.state,
        forall|j: int|
            records.len() <= j < spec_store(records, detections, now).len() ==> (#[trigger] spec_store(
                records,
                detections,
                now,
            )[j]).info.state == KeyState::Pressed && !holds_place(
                records,
                spec_store(records, detections, now)[j].position,
            ),
    decreases detections.len(),
{
    let after = spec_store(records, detections, now);
    if detections.len() > 0 {
        let before = spec_store(records, detections.drop_last(), now);
        lemma_store_keeps_places(records, detections.drop_last(), now);
        let fresh = Key::spec_fresh(Kc::Undf, detections.last(), now);
        lemma_merge_keeps_places(before, fresh);
        assert(after == if detections.last().in_matrix() {
            spec_merge(before, fresh)
        } else {
            before
        });
        assert forall|j: int| records.len() <= j < after.len() implies (#[trigger] after[j]).info.state
            == KeyState::Pressed && !holds_place(records, after[j].position) by {
            if j < before.len() {
                assert(after[j].position == before[j].position);
            } else {
                if holds_place(before, fresh.position) {
                    lemma_first_at_exists(before, fresh.position);
                }
                assert(after[j] == fresh);
                if holds_place(records, fresh.position) {
                    let k = choose|k: int|
                        0 <= k < records.len() && (#[trigger] records[k]).position.same_place(
                            fresh.position,
                        );
                    assert(before[k].position.same_place(fresh.position));
                }
            }
        }
    }
    if unique_places(records) {
        assert forall|i: int, j: int|
            0 <= i < records.len() && 0 <= j < after.len()
                && (#[trigger] records[i]).position.same_place((#[trigger] after[j]).position)
                && records[i].info.state == KeyState::Released implies after[j].info.state
                == KeyState::Released by {
            if j < records.len() {
                if i != j {
                    assert(!records[i].position.same_place(records[j].position));
                }
            } else {
                assert(!holds_place(records, after[j].position));
            }
        }
    }
}

/// Records that stay where they are, and stay released if they were, keep
/// one record per place and resurrect no key.
pub proof fn lemma_in_place(records: Seq<Key>, after: Seq<Key>)
    requires
        after.len() == records.len(),
        forall|i: int|
            0 <= i < records.len() ==> (#[trigger] after[i]).position == records[i].position,
        forall|i: int|
            0 <= i < records.len() && records[i].info.state == KeyState::Released ==> (
            #[trigger] after[i]).info.state == KeyState::Released,
    ensures
        unique_places(records) ==> unique_places(after),
        unique_places(records) ==> never_resurrects(records, after),
{
    if unique_places(records) {
        assert forall|i: int, j: int|
            0 <= i < after.len() && 0 <= j < after.len() && i != j
                implies !(#[trigger] after[i]).position.same_place((#[trigger] after[j]).position) by {
            assert(!records[i].position.same_place(records[j].position));
        }
        assert forall|i: int, j: int|
            0 <= i < records.len() && 0 <= j < after.len()
            && (#[trigger] records[i]).position.same_place((#[trigger] after[j]).position)
            && records[i].info.state == KeyState::Released implies after[j].info.state
            == KeyState::Released by {
            if i != j {
                assert(!records[i].position.same_place(records[j].position));
            }
        }
    }
}

/// A table that is left as it is resurrects no key, if it holds one record
/// per place.
pub proof fn lemma_unchanged_never_resurrects(records: Seq<Key>)
    ensures
        unique_places(records) ==> never_resurrects(records, records),
{
    lemma_in_place(records, records);
}

/// A sound table without its last record is sound.
pub proof fn lemma_front_is_sound(records: Seq<Key>)
    requires
        records.len() > 0,
    ensures
        unique_places(records) ==> unique_places(records.drop_last()),
        only_combos_outside(records) ==> only_combos_outside(records.drop_last()),
{
    let front = records.drop_last();
    if unique_places(records) {
        assert forall|i: int, j: int|
            0 <= i < front.len() && 0 <= j < front.len() && i != j
                implies !(#[trigger] front[i]).position.same_place((#[trigger] front[j]).position) by {
            assert(!records[i].position.same_place(records[j].position));
        }
    }
    if only_combos_outside(records) {
        assert forall|i: int| 0 <= i < front.len() implies (#[trigger] front[i]).position.in_matrix()
            || front[i].keycode.key_type() == KeyType::Combo by {
            assert(records[i].position.in_matrix() || records[i].keycode.key_type()
                == KeyType::Combo);
        }
    }
}

/// Sweeping keeps a sound table sound and resurrects no key.
pub proof fn lemma_sweep_keeps_places(records: Seq<Key>, now: u64, debounce: u64)
    ensures
        unique_places(records) ==> unique_places(spec_sweep(records, now, debounce)),
        unique_places(records) ==> never_resurrects(records, spec_sweep(records, now, debounce)),
        only_combos_outside(records) ==> only_combos_outside(spec_sweep(records, now, debounce)),
{
    lemma_in_place(records, spec_sweep(records, now, debounce));
}

/// Asking the layout keeps a sound table sound and resurrects no key.
pub proof fn lemma_transform_keeps_places(records: Seq<Key>, layout: Layout)
    ensures
        unique_places(records) ==> unique_places(spec_transform(records, layout)),
        unique_places(records) ==> never_resurrects(records, spec_transform(records, layout)),
        only_combos_outside(records) ==> only_combos_outside(spec_transform(records, layout)),
{
    lemma_in_place(records, spec_transform(records, layout));
}

} // verus!
