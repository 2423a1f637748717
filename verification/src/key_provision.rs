//! The resolver: what a pressed or released key does to the reports and to
//! the active layer.
use vstd::prelude::*;

use crate::ble::{
    distinct_keys, lemma_occupied_bound, lemma_press_counts, lemma_press_keeps_keys,
    lemma_release_frees, occupied, spec_press, spec_release, Debounce, KeyboardKeyReport,
    KeyboardView,
};
use crate::clock::now_ticks;
use crate::config::enums::{HidModifiers, Kc, KeyType};
use crate::config::layout::Layout;
use crate::fixed_vec::{
    macro_contents, macro_get, macro_len, records_get, records_len, records_remove, records_set,
};
use crate::matrix::combos::{
    carried_over, continues, lemma_carried_over_never_resurrects, lemma_combos_keep_places,
    spec_combos,
};
use crate::matrix::link::{pack, spec_pack, spec_unpack_all};
use crate::matrix::records::{
    any_in_matrix, holds_place, lemma_front_is_sound, lemma_store_keeps_places,
    lemma_transform_keeps_places, lemma_unchanged_never_resurrects, never_resurrects, sound,
    spec_store, spec_transform,
};
use crate::matrix::{Key, KeyPos, KeyState, RegisteredMatrixKeys};
use crate::mouse::{MouseKeyReport, MouseState};

verus! {

/// What the resolver works on: the two reports and the active layer.
pub struct ResolverState {
    pub keyboard: KeyboardView,
    pub mouse: MouseState,
    pub layer: usize,
}

impl ResolverState {
    /// The state that the two reports and the layer register make up.
    pub open spec fn of(
        keyboard: KeyboardKeyReport,
        mouse: MouseKeyReport,
        layer: usize,
    ) -> ResolverState {
        ResolverState { keyboard: keyboard@, mouse: mouse@, layer }
    }

    /// The state after a key that is resolved by itself was pressed.
    ///
    /// A layer key makes its layer the active one, frees every key slot and
    /// clears the modifiers. A modifier sets its bit. A mouse key sets its
    /// command. An ordinary key takes the first free slot, unless it is
    /// reported already or no slot is free.
    pub open spec fn add_plain(self, key: Kc) -> ResolverState {
        match key.key_type() {
            KeyType::Layer => ResolverState {
                keyboard: self.keyboard.flushed(),
                layer: Layout::spec_layer(key),
                ..self
            },
            KeyType::Modifier => ResolverState {
                keyboard: self.keyboard.with_modifier(HidModifiers::spec_modifier(key)),
                ..self
            },
            KeyType::Mouse => ResolverState { mouse: self.mouse.set_command(key), ..self },
            KeyType::Key => ResolverState { keyboard: self.keyboard.press(key.spec_code()), ..self },
            KeyType::Macro | KeyType::Combo => self,
        }
    }

    /// The state after a key that is resolved by itself was released.
    ///
    /// A layer key steps the active layer down by one, and leaves the base
    /// layer as it is. A modifier clears its bit. A mouse key takes its
    /// command back. An ordinary key frees its slot, if it has one.
    pub open spec fn remove_plain(self, key: Kc) -> ResolverState {
        match key.key_type() {
            KeyType::Layer => ResolverState {
                layer: if self.layer > 0 {
                    (self.layer - 1) as usize
                } else {
                    0
                },
                ..self
            },
            KeyType::Modifier => ResolverState {
                keyboard: self.keyboard.without_modifier(HidModifiers::spec_modifier(key)),
                ..self
            },
            KeyType::Mouse => ResolverState { mouse: self.mouse.reset_keypress(key), ..self },
            KeyType::Key => ResolverState {
                keyboard: self.keyboard.release(key.spec_code()),
                ..self
            },
            KeyType::Macro | KeyType::Combo => self,
        }
    }

    /// The state after the keys of an expansion were pressed, first to last.
    pub open spec fn add_each(self, keys: Seq<Kc>) -> ResolverState
        decreases keys.len(),
    {
        if keys.len() == 0 {
            self
        } else {
            self.add_each(keys.drop_last()).add_plain(keys.last())
        }
    }

    /// The state after the keys of an expansion were released, first to
    /// last.
    pub open spec fn remove_each(self, keys: Seq<Kc>) -> ResolverState
        decreases keys.len(),
    {
        if keys.len() == 0 {
            self
        } else {
            self.remove_each(keys.drop_last()).remove_plain(keys.last())
        }
    }

    /// The state after `key` was pressed: a macro presses the keys of its
    /// expansion, a combo the keys that it reports, any other key itself.
    pub open spec fn add(self, key: Kc) -> ResolverState {
        match key.key_type() {
            KeyType::Macro => self.add_each(key.spec_macro_sequence()),
            KeyType::Combo => self.add_each(key.spec_combo_output()),
            _ => self.add_plain(key),
        }
    }

    /// The state after `key` was released: a macro releases the keys of its
    /// expansion, a combo the keys that it reports, any other key itself.
    pub open spec fn remove(self, key: Kc) -> ResolverState {
        match key.key_type() {
            KeyType::Macro => self.remove_each(key.spec_macro_sequence()),
            KeyType::Combo => self.remove_each(key.spec_combo_output()),
            _ => self.remove_plain(key),
        }
    }
}

impl ResolverState {
    /// The state after a sequence of keys was pressed, first to last.
    pub open spec fn add_all(self, keys: Seq<Kc>) -> ResolverState
        decreases keys.len(),
    {
        if keys.len() == 0 {
            self
        } else {
            self.add_all(keys.drop_last()).add(keys.last())
        }
    }

    /// True if the report has its six key slots and none holds a key twice.
    pub open spec fn no_key_twice(self) -> bool {
        self.keyboard.keys.len() == 6 && distinct_keys(self.keyboard.keys)
    }
}

/// Pressing or releasing a key that is resolved by itself leaves the report
/// its six slots, and no key in two of them.
pub proof fn lemma_plain_keeps_slots(state: ResolverState, key: Kc)
    requires
        state.keyboard.keys.len() == 6,
    ensures
        state.add_plain(key).keyboard.keys.len() == 6,
        state.remove_plain(key).keyboard.keys.len() == 6,
        state.no_key_twice() ==> state.add_plain(key).no_key_twice(),
        state.no_key_twice() ==> state.remove_plain(key).no_key_twice(),
{
    lemma_press_keeps_keys(state.keyboard.keys, key.spec_code());
    lemma_release_frees(state.keyboard.keys, key.spec_code());
}

/// Pressing or releasing the keys of an expansion leaves the report its six
/// slots, and no key in two of them.
pub proof fn lemma_each_keeps_slots(state: ResolverState, keys: Seq<Kc>)
    requires
        state.keyboard.keys.len() == 6,
    ensures
        state.add_each(keys).keyboard.keys.len() == 6,
        state.remove_each(keys).keyboard.keys.len() == 6,
        state.no_key_twice() ==> state.add_each(keys).no_key_twice(),
        state.no_key_twice() ==> state.remove_each(keys).no_key_twice(),
    decreases keys.len(),
{
    if keys.len() > 0 {
        lemma_each_keeps_slots(state, keys.drop_last());
        lemma_plain_keeps_slots(state.add_each(keys.drop_last()), keys.last());
        lemma_plain_keeps_slots(state.remove_each(keys.drop_last()), keys.last());
    }
}

/// Pressing or releasing any key leaves the report its six slots, and no
/// key in two of them.
pub proof fn lemma_key_keeps_slots(state: ResolverState, key: Kc)
    requires
        state.keyboard.keys.len() == 6,
    ensures
        state.add(key).keyboard.keys.len() == 6,
        state.remove(key).keyboard.keys.len() == 6,
        state.no_key_twice() ==> state.add(key).no_key_twice(),
        state.no_key_twice() ==> state.remove(key).no_key_twice(),
{
    lemma_plain_keeps_slots(state, key);
    lemma_each_keeps_slots(state, key.spec_macro_sequence());
    lemma_each_keeps_slots(state, key.spec_combo_output());
}

/// The rollover limit: whatever keys are pressed, in whatever order, the
/// report never holds more than six keys, and never one key twice.
pub proof fn lemma_rollover(state: ResolverState, presses: Seq<Kc>)
    requires
        state.keyboard.keys.len() == 6,
    ensures
        state.add_all(presses).keyboard.keys.len() == 6,
        occupied(state.add_all(presses).keyboard.keys) <= 6,
        state.no_key_twice() ==> state.add_all(presses).no_key_twice(),
    decreases presses.len(),
{
    if presses.len() > 0 {
        lemma_rollover(state, presses.drop_last());
        lemma_key_keeps_slots(state.add_all(presses.drop_last()), presses.last());
    }
    lemma_occupied_bound(state.add_all(presses).keyboard.keys);
}

/// True if `keys` are ordinary keys that are new to the slots: each has a
/// code other than zero, which no slot holds and no other of them has.
pub open spec fn new_ordinary_keys(keys: Seq<Kc>, slots: Seq<u8>) -> bool {
    &&& forall|i: int|
        0 <= i < keys.len() ==> (#[trigger] keys[i]).key_type() == KeyType::Key
            && keys[i].spec_code() != 0 && !slots.contains(keys[i].spec_code())
    &&& forall|i: int, j: int|
        0 <= i < keys.len() && 0 <= j < keys.len() && i != j ==> (#[trigger] keys[i]).spec_code()
            != (#[trigger] keys[j]).spec_code()
}

/// The lesser of two numbers.
pub open spec fn lesser(a: nat, b: nat) -> nat {
    if a <= b {
        a
    } else {
        b
    }
}

/// The rollover limit is reached and not passed: ordinary keys that are
/// new to the report fill its free slots, one each, until all six are
/// occupied, and are dropped from then on. Every slot holds what it held
/// or one of these keys, and nothing but the key slots changes.
pub proof fn lemma_rollover_fills(state: ResolverState, presses: Seq<Kc>)
    requires
        state.keyboard.keys.len() == 6,
        new_ordinary_keys(presses, state.keyboard.keys),
    ensures
        state.add_all(presses).keyboard.keys.len() == 6,
        occupied(state.add_all(presses).keyboard.keys) == lesser(
            6,
            occupied(state.keyboard.keys) + presses.len(),
        ),
        forall|i: int|
            0 <= i < 6 ==> (#[trigger] state.add_all(presses).keyboard.keys[i])
                == state.keyboard.keys[i] || exists|k: int|
                0 <= k < presses.len() && state.add_all(presses).keyboard.keys[i]
                    == (#[trigger] presses[k]).spec_code(),
        state.add_all(presses).keyboard.modifiers == state.keyboard.modifiers,
        state.add_all(presses).mouse == state.mouse,
        state.add_all(presses).layer == state.layer,
    decreases presses.len(),
{
    lemma_occupied_bound(state.keyboard.keys);
    if presses.len() > 0 {
        let front = presses.drop_last();
        let key = presses.last();
        let code = key.spec_code();
        let before = state.add_all(front);
        let after = state.add_all(presses);
        assert(new_ordinary_keys(front, state.keyboard.keys)) by {
            assert forall|i: int| 0 <= i < front.len() implies (#[trigger] front[i]).key_type()
                == KeyType::Key && front[i].spec_code() != 0 && !state.keyboard.keys.contains(
                front[i].spec_code(),
            ) by {
                assert(front[i] == presses[i]);
            }
            assert forall|i: int, j: int|
                0 <= i < front.len() && 0 <= j < front.len() && i != j implies (
            #[trigger] front[i]).spec_code() != (#[trigger] front[j]).spec_code() by {
                assert(front[i] == presses[i] && front[j] == presses[j]);
            }
        }
        lemma_rollover_fills(state, front);
        assert(key == presses[presses.len() - 1]);
        assert(after.keyboard.keys == spec_press(before.keyboard.keys, code));
        // the key is new to the slots as the keys before it have left them
        assert(!before.keyboard.keys.contains(code)) by {
            if before.keyboard.keys.contains(code) {
                let i = choose|i: int| 0 <= i < 6 && before.keyboard.keys[i] == code;
                if before.keyboard.keys[i] == state.keyboard.keys[i] {
                    assert(state.keyboard.keys.contains(code));
                } else {
                    let k = choose|k: int|
                        0 <= k < front.len() && before.keyboard.keys[i]
                            == (#[trigger] front[k]).spec_code();
                    assert(front[k] == presses[k]);
                }
            }
        }
        lemma_press_counts(before.keyboard.keys, code);
        lemma_press_keeps_keys(before.keyboard.keys, code);
        assert forall|i: int| 0 <= i < 6 implies (#[trigger] after.keyboard.keys[i])
            == state.keyboard.keys[i] || exists|k: int|
            0 <= k < presses.len() && after.keyboard.keys[i] == (#[trigger] presses[k]).spec_code() by {
            if after.keyboard.keys[i] == code {
                assert(presses[presses.len() - 1].spec_code() == code);
            } else {
                assert(after.keyboard.keys[i] == before.keyboard.keys[i]);
                if before.keyboard.keys[i] != state.keyboard.keys[i] {
                    let k = choose|k: int|
                        0 <= k < front.len() && before.keyboard.keys[i]
                            == (#[trigger] front[k]).spec_code();
                    assert(front[k] == presses[k]);
                }
            }
        }
    }
}

/// How deep the expansion of a key goes: a macro or a combo expands once,
/// into keys that expand no further.
pub open spec fn expansion_depth(key: Kc) -> nat {
    if key.is_plain() {
        0
    } else {
        1
    }
}

/// The keys of an expansion are resolved by themselves: no macro holds a
/// macro or a combo, and no combo reports one.
pub proof fn lemma_expansions_are_plain(key: Kc)
    ensures
        forall|i: int|
            0 <= i < key.spec_expansion().len() ==> (#[trigger] key.spec_expansion()[i]).is_plain(),
        forall|i: int|
            0 <= i < key.spec_macro_sequence().len() ==> (
            #[trigger] key.spec_macro_sequence()[i]).is_plain(),
        forall|i: int|
            0 <= i < key.spec_combo_output().len() ==> (
            #[trigger] key.spec_combo_output()[i]).is_plain(),
{
}

/// Resolves the keys of an expansion as pressed, first to last.
fn add_expansion(
    keyboard_key_report: &mut KeyboardKeyReport,
    mouse_key_report: &mut MouseKeyReport,
    keys: &heapless::Vec<Kc, 16>,
    layer: &mut usize,
)
    requires
        forall|i: int|
            0 <= i < macro_contents(*keys).len() ==> (#[trigger] macro_contents(*keys)[i]).is_plain(),
    ensures
        ResolverState::of(*final(keyboard_key_report), *final(mouse_key_report), *final(layer))
            == ResolverState::of(
            *old(keyboard_key_report),
            *old(mouse_key_report),
            *old(layer),
        ).add_each(macro_contents(*keys)),
    decreases 0nat, 1nat,
{
    let ghost start = ResolverState::of(*keyboard_key_report, *mouse_key_report, *layer);
    let ghost all = macro_contents(*keys);
    let count = macro_len(keys);
    let mut index: usize = 0;
    while index < count
        invariant
            index <= count,
            count == all.len(),
            all == macro_contents(*keys),
            forall|i: int| 0 <= i < all.len() ==> (#[trigger] all[i]).is_plain(),
            ResolverState::of(*keyboard_key_report, *mouse_key_report, *layer) == start.add_each(
                all.take(index as int),
            ),
        decreases count - index,
    {
        let key = macro_get(keys, index);
        assert(all.take(index + 1).drop_last() =~= all.take(index as int));
        add_keys_master(keyboard_key_report, mouse_key_report, &key, layer);
        index += 1;
    }
    assert(all.take(count as int) =~= all);
}

/// Resolves the keys of an expansion as released, first to last.
fn remove_expansion(
    keyboard_key_report: &mut KeyboardKeyReport,
    mouse_key_report: &mut MouseKeyReport,
    keys: &heapless::Vec<Kc, 16>,
    layer: &mut usize,
)
    requires
        forall|i: int|
            0 <= i < macro_contents(*keys).len() ==> (#[trigger] macro_contents(*keys)[i]).is_plain(),
    ensures
        ResolverState::of(*final(keyboard_key_report), *final(mouse_key_report), *final(layer))
            == ResolverState::of(
            *old(keyboard_key_report),
            *old(mouse_key_report),
            *old(layer),
        ).remove_each(macro_contents(*keys)),
    decreases 0nat, 1nat,
{
    let ghost start = ResolverState::of(*keyboard_key_report, *mouse_key_report, *layer);
    let ghost all = macro_contents(*keys);
    let count = macro_len(keys);
    let mut index: usize = 0;
    while index < count
        invariant
            index <= count,
            count == all.len(),
            all == macro_contents(*keys),
            forall|i: int| 0 <= i < all.len() ==> (#[trigger] all[i]).is_plain(),
            ResolverState::of(*keyboard_key_report, *mouse_key_report, *layer)
                == start.remove_each(all.take(index as int)),
        decreases count - index,
    {
        let key = macro_get(keys, index);
        assert(all.take(index + 1).drop_last() =~= all.take(index as int));
        remove_keys_master(keyboard_key_report, mouse_key_report, &key, layer);
        index += 1;
    }
    assert(all.take(count as int) =~= all);
}

/// Resolves a pressed key on the primary half: changes the reports and the
/// active layer as the type of the key asks.
pub fn add_keys_master(
    keyboard_key_report: &mut KeyboardKeyReport,
    mouse_key_report: &mut MouseKeyReport,
    hid_key: &Kc,
    layer: &mut usize,
)
    ensures
        ResolverState::of(*final(keyboard_key_report), *final(mouse_key_report), *final(layer))
            == ResolverState::of(*old(keyboard_key_report), *old(mouse_key_report), *old(layer)).add(
            *hid_key,
        ),
    decreases expansion_depth(*hid_key), 0nat,
{
    match KeyType::check_type(hid_key) {
        KeyType::Combo | KeyType::Macro => {
            let keys = Kc::expansion(hid_key);
            proof {
                lemma_expansions_are_plain(*hid_key);
            }
            add_expansion(keyboard_key_report, mouse_key_report, &keys, layer);
        },
        KeyType::Layer => {
            *layer = Layout::get_layer(hid_key);
            keyboard_key_report.flush();
        },
        KeyType::Modifier => {
            keyboard_key_report.modifiers |= HidModifiers::get_modifier(hid_key);
        },
        KeyType::Mouse => {
            mouse_key_report.set_command(hid_key);
        },
        KeyType::Key => {
            keyboard_key_report.press(hid_key.code());
        },
    }
}

/// Resolves a released key on the primary half: takes back what pressing it
/// did to the reports, and steps the active layer down for a layer key.
pub fn remove_keys_master(
    keyboard_key_report: &mut KeyboardKeyReport,
    mouse_key_report: &mut MouseKeyReport,
    hid_key: &Kc,
    layer: &mut usize,
)
    ensures
        ResolverState::of(*final(keyboard_key_report), *final(mouse_key_report), *final(layer))
            == ResolverState::of(
            *old(keyboard_key_report),
            *old(mouse_key_report),
            *old(layer),
        ).remove(*hid_key),
    decreases expansion_depth(*hid_key), 0nat,
{
    match KeyType::check_type(hid_key) {
        KeyType::Combo | KeyType::Macro => {
            let keys = Kc::expansion(hid_key);
            proof {
                lemma_expansions_are_plain(*hid_key);
            }
            remove_expansion(keyboard_key_report, mouse_key_report, &keys, layer);
        },
        KeyType::Layer => {
            if *layer > 0 {
                *layer -= 1;
            }
        },
        KeyType::Modifier => {
            keyboard_key_report.modifiers &= !HidModifiers::get_modifier(hid_key);
        },
        KeyType::Mouse => {
            mouse_key_report.reset_keypress(hid_key);
        },
        KeyType::Key => {
            keyboard_key_report.release(hid_key.code());
        },
    }
}

/// Enters a key of the secondary half into the report that goes to the
/// primary half: the byte of its position takes the first free slot,
/// unless it is there already or all six slots are taken.
pub fn add_keys_slave(key_report: &mut KeyboardKeyReport, key_pos: &KeyPos)
    ensures
        final(key_report)@ == old(key_report)@.press(spec_pack(*key_pos)),
{
    key_report.press(pack(key_pos));
}

/// Takes a key of the secondary half out of the report that goes to the
/// primary half: the slot that holds the byte of its position is free
/// again.
pub fn remove_keys_slave(keyboard_key_report: &mut KeyboardKeyReport, key_pos: &KeyPos)
    ensures
        final(keyboard_key_report)@ == old(keyboard_key_report)@.release(spec_pack(*key_pos)),
{
    keyboard_key_report.release(pack(key_pos));
}

/// The table and the state after the resolver has gone through the
/// records, first to last.
///
/// A released key is resolved as released and its record leaves the table.
/// A pressed key is resolved as pressed when the resolver sees it for the
/// first time; its record stays and is marked. A pressed key that is
/// marked is passed over.
pub open spec fn spec_resolve(records: Seq<Key>, state: ResolverState) -> (Seq<Key>, ResolverState)
    decreases records.len(),
{
    if records.len() == 0 {
        (records, state)
    } else {
        let (kept, before) = spec_resolve(records.drop_last(), state);
        let key = records.last();
        if key.info.state == KeyState::Released {
            (kept, before.remove(key.keycode))
        } else if key.info.reported {
            (kept.push(key), before)
        } else {
            (kept.push(key.marked_reported()), before.add(key.keycode))
        }
    }
}

/// The table and the key slots of the secondary half after the resolver
/// has gone through the records, first to last: as `spec_resolve`, with the
/// byte of a position in the place of a key.
pub open spec fn spec_resolve_slave(records: Seq<Key>, slots: Seq<u8>) -> (Seq<Key>, Seq<u8>)
    decreases records.len(),
{
    if records.len() == 0 {
        (records, slots)
    } else {
        let (kept, before) = spec_resolve_slave(records.drop_last(), slots);
        let key = records.last();
        if key.info.state == KeyState::Released {
            (kept, spec_release(before, spec_pack(key.position)))
        } else if key.info.reported {
            (kept.push(key), before)
        } else {
            (kept.push(key.marked_reported()), spec_press(before, spec_pack(key.position)))
        }
    }
}

/// The records that the resolver leaves in the table, whatever it
/// resolves them to: the pressed ones, marked.
pub open spec fn spec_kept(records: Seq<Key>) -> Seq<Key>
    decreases records.len(),
{
    if records.len() == 0 {
        records
    } else {
        let kept = spec_kept(records.drop_last());
        let key = records.last();
        if key.info.state == KeyState::Released {
            kept
        } else {
            kept.push(key.marked_reported())
        }
    }
}

/// The resolver of the primary half leaves the pressed records, marked.
pub proof fn lemma_resolve_keeps(records: Seq<Key>, state: ResolverState)
    ensures
        spec_resolve(records, state).0 == spec_kept(records),
    decreases records.len(),
{
    if records.len() > 0 {
        lemma_resolve_keeps(records.drop_last(), state);
        let key = records.last();
        if key.info.state == KeyState::Pressed && key.info.reported {
            assert(key.marked_reported() == key);
        }
    }
}

/// The resolver of the secondary half leaves the pressed records, marked.
pub proof fn lemma_resolve_slave_keeps(records: Seq<Key>, slots: Seq<u8>)
    ensures
        spec_resolve_slave(records, slots).0 == spec_kept(records),
    decreases records.len(),
{
    if records.len() > 0 {
        lemma_resolve_slave_keeps(records.drop_last(), slots);
        let key = records.last();
        if key.info.state == KeyState::Pressed && key.info.reported {
            assert(key.marked_reported() == key);
        }
    }
}

/// What the resolver leaves: no released key, every key marked, each the
/// record that it was, and a sound table sound.
pub proof fn lemma_kept_records(records: Seq<Key>)
    ensures
        spec_kept(records).len() <= records.len(),
        forall|j: int|
            0 <= j < spec_kept(records).len() ==> {
                &&& (#[trigger] spec_kept(records)[j]).info.state == KeyState::Pressed
                &&& spec_kept(records)[j].info.reported
                &&& exists|i: int|
                    0 <= i < records.len() && (#[trigger] records[i]).marked_reported()
                        == spec_kept(records)[j]
            },
        sound(records) ==> sound(spec_kept(records)),
        sound(records) ==> never_resurrects(records, spec_kept(records)),
    decreases records.len(),
{
    let kept = spec_kept(records);
    if records.len() > 0 {
        let front = records.drop_last();
        let rest = spec_kept(front);
        let key = records.last();
        lemma_kept_records(front);
        assert forall|j: int| 0 <= j < kept.len() implies {
            &&& (#[trigger] kept[j]).info.state == KeyState::Pressed
            &&& kept[j].info.reported
            &&& exists|i: int|
                0 <= i < records.len() && (#[trigger] records[i]).marked_reported() == kept[j]
        } by {
            if j < rest.len() {
                let i = choose|i: int|
                    0 <= i < front.len() && (#[trigger] front[i]).marked_reported() == rest[j];
                assert(records[i].marked_reported() == kept[j]);
            } else {
                assert(records[records.len() - 1].marked_reported() == kept[j]);
            }
        }
        if sound(records) {
            lemma_front_is_sound(records);
            assert forall|i: int, j: int|
                0 <= i < kept.len() && 0 <= j < kept.len() && i != j
                    implies !(#[trigger] kept[i]).position.same_place((#[trigger] kept[j]).position) by {
                if i < rest.len() && j < rest.len() {
                    assert(!rest[i].position.same_place(rest[j].position));
                } else if i < rest.len() {
                    let k = choose|k: int|
                        0 <= k < front.len() && (#[trigger] front[k]).marked_reported() == rest[i];
                    assert(!records[k].position.same_place(records[records.len() - 1].position));
                } else if j < rest.len() {
                    let k = choose|k: int|
                        0 <= k < front.len() && (#[trigger] front[k]).marked_reported() == rest[j];
                    assert(!records[k].position.same_place(records[records.len() - 1].position));
                }
            }
            assert forall|j: int| 0 <= j < kept.len() implies (#[trigger] kept[j]).position.in_matrix()
                || kept[j].keycode.key_type() == KeyType::Combo by {
                let i = choose|i: int|
                    0 <= i < records.len() && (#[trigger] records[i]).marked_reported() == kept[j];
                assert(records[i].position.in_matrix() || records[i].keycode.key_type()
                    == KeyType::Combo);
            }
        }
    }
    if sound(records) {
        assert forall|i: int, j: int|
            0 <= i < records.len() && 0 <= j < kept.len()
                && (#[trigger] records[i]).position.same_place((#[trigger] kept[j]).position)
                && records[i].info.state == KeyState::Released implies kept[j].info.state
                == KeyState::Released by {
            let k = choose|k: int|
                0 <= k < records.len() && (#[trigger] records[k]).marked_reported() == kept[j];
            if k != i {
                assert(!records[i].position.same_place(records[k].position));
            }
        }
    }
}

/// Goes through the records of the table on the primary half, first to
/// last: resolves every released key and every key that is pressed for the
/// first time, and takes the released ones out of the table.
pub fn resolve_keys(
    registered_matrix_keys: &mut RegisteredMatrixKeys,
    keyboard_key_report: &mut KeyboardKeyReport,
    mouse_key_report: &mut MouseKeyReport,
    layer: &mut usize,
)
    ensures
        (
            final(registered_matrix_keys)@,
            ResolverState::of(*final(keyboard_key_report), *final(mouse_key_report), *final(layer)),
        ) == spec_resolve(
            old(registered_matrix_keys)@,
            ResolverState::of(*old(keyboard_key_report), *old(mouse_key_report), *old(layer)),
        ),
        final(registered_matrix_keys).sleep_condition == old(registered_matrix_keys).sleep_condition,
        old(registered_matrix_keys).wf() ==> final(registered_matrix_keys).wf(),
        old(registered_matrix_keys).wf() ==> never_resurrects(
            old(registered_matrix_keys)@,
            final(registered_matrix_keys)@,
        ),
{
    let ghost start = registered_matrix_keys@;
    let ghost state = ResolverState::of(*keyboard_key_report, *mouse_key_report, *layer);
    let ghost mut seen: int = 0;
    let mut index: usize = 0;
    assert(start.take(0) =~= Seq::<Key>::empty());
    assert(spec_resolve(start.take(0), state).0 + start.skip(0) =~= start);
    while index < records_len(&registered_matrix_keys.keys)
        invariant
            0 <= seen <= start.len(),
            index == spec_resolve(start.take(seen), state).0.len(),
            registered_matrix_keys@ == spec_resolve(start.take(seen), state).0 + start.skip(seen),
            ResolverState::of(*keyboard_key_report, *mouse_key_report, *layer) == spec_resolve(
                start.take(seen),
                state,
            ).1,
            registered_matrix_keys.sleep_condition == old(registered_matrix_keys).sleep_condition,
        decreases registered_matrix_keys@.len() - index,
    {
        let mut key = records_get(&registered_matrix_keys.keys, index);
        proof {
            assert(key == start[seen]);
            assert(start.take(seen + 1).drop_last() =~= start.take(seen));
            assert(start.take(seen + 1).last() == start[seen]);
        }
        match key.info.state {
            KeyState::Pressed => {
                if !key.info.reported {
                    add_keys_master(keyboard_key_report, mouse_key_report, &key.keycode, layer);
                    key.info.reported = true;
                    records_set(&mut registered_matrix_keys.keys, index, key);
                }
                index += 1;
            },
            KeyState::Released => {
                remove_keys_master(keyboard_key_report, mouse_key_report, &key.keycode, layer);
                records_remove(&mut registered_matrix_keys.keys, index);
            },
        }
        proof {
            assert(registered_matrix_keys@ =~= spec_resolve(start.take(seen + 1), state).0
                + start.skip(seen + 1));
            seen = seen + 1;
        }
    }
    proof {
        assert(start.take(seen) =~= start);
        assert(registered_matrix_keys@ =~= spec_resolve(start, state).0);
        lemma_resolve_keeps(start, state);
        lemma_kept_records(start);
    }
}

/// Goes through the records of the table on the secondary half, first to
/// last: enters every key that is pressed for the first time into the
/// report, takes every released key out of it and out of the table.
pub fn key_provision_slave(
    registered_matrix_keys: &mut RegisteredMatrixKeys,
    keyboard_key_report: &mut KeyboardKeyReport,
)
    ensures
        (final(registered_matrix_keys)@, final(keyboard_key_report)@.keys) == spec_resolve_slave(
            old(registered_matrix_keys)@,
            old(keyboard_key_report)@.keys,
        ),
        final(keyboard_key_report).modifiers == old(keyboard_key_report).modifiers,
        final(keyboard_key_report).reserved == old(keyboard_key_report).reserved,
        final(registered_matrix_keys).sleep_condition == old(registered_matrix_keys).sleep_condition,
        old(registered_matrix_keys).wf() ==> final(registered_matrix_keys).wf(),
        old(registered_matrix_keys).wf() ==> never_resurrects(
            old(registered_matrix_keys)@,
            final(registered_matrix_keys)@,
        ),
{
    let ghost start = registered_matrix_keys@;
    let ghost slots = keyboard_key_report@.keys;
    let ghost mut seen: int = 0;
    let mut index: usize = 0;
    assert(start.take(0) =~= Seq::<Key>::empty());
    assert(spec_resolve_slave(start.take(0), slots).0 + start.skip(0) =~= start);
    while index < records_len(&registered_matrix_keys.keys)
        invariant
            0 <= seen <= start.len(),
            index == spec_resolve_slave(start.take(seen), slots).0.len(),
            registered_matrix_keys@ == spec_resolve_slave(start.take(seen), slots).0 + start.skip(seen),
            keyboard_key_report@.keys == spec_resolve_slave(start.take(seen), slots).1,
            keyboard_key_report.modifiers == old(keyboard_key_report).modifiers,
            keyboard_key_report.reserved == old(keyboard_key_report).reserved,
            registered_matrix_keys.sleep_condition == old(registered_matrix_keys).sleep_condition,
        decreases registered_matrix_keys@.len() - index,
    {
        let mut key = records_get(&registered_matrix_keys.keys, index);
        proof {
            assert(key == start[seen]);
            assert(start.take(seen + 1).drop_last() =~= start.take(seen));
            assert(start.take(seen + 1).last() == start[seen]);
        }
        match key.info.state {
            KeyState::Pressed => {
                if !key.info.reported {
                    add_keys_slave(keyboard_key_report, &key.position);
                    key.info.reported = true;
                    records_set(&mut registered_matrix_keys.keys, index, key);
                }
                index += 1;
            },
            KeyState::Released => {
                remove_keys_slave(keyboard_key_report, &key.position);
                records_remove(&mut registered_matrix_keys.keys, index);
            },
        }
        proof {
            assert(registered_matrix_keys@ =~= spec_resolve_slave(start.take(seen + 1), slots).0
                + start.skip(seen + 1));
            seen = seen + 1;
        }
    }
    proof {
        assert(start.take(seen) =~= start);
        assert(registered_matrix_keys@ =~= spec_resolve_slave(start, slots).0);
        lemma_resolve_slave_keeps(start, slots);
        lemma_kept_records(start);
    }
}

/// The table and the state after one cycle of the resolver on the primary
/// half at `now`: the keys of the other half are stored, every record gets
/// its key from the layout, the combos are looked for, and the records are
/// resolved.
pub open spec fn spec_key_provision(
    records: Seq<Key>,
    slave_key_report: Seq<u8>,
    layout: Layout,
    state: ResolverState,
    now: u64,
) -> (Seq<Key>, ResolverState) {
    let stored = spec_store(records, spec_unpack_all(slave_key_report, state.layer), now);
    let mapped = spec_transform(stored, layout);
    let combined = spec_combos(mapped, layout.combos@);
    spec_resolve(combined, state)
}

/// The sleep timer after one cycle of the resolver on the primary half at
/// `now`: a key of the other half puts it off by its own interval.
pub open spec fn spec_provision_timer(
    timer: Debounce,
    slave_key_report: Seq<u8>,
    layer: usize,
    now: u64,
) -> Debounce {
    if any_in_matrix(spec_unpack_all(slave_key_report, layer)) {
        timer.put_off(now, timer.debounce)
    } else {
        timer
    }
}

/// A cycle of the resolver keeps a sound table sound and resurrects no
/// key.
pub proof fn lemma_provision_keeps_places(
    records: Seq<Key>,
    slave_key_report: Seq<u8>,
    layout: Layout,
    state: ResolverState,
    now: u64,
)
    requires
        sound(records),
    ensures
        sound(spec_key_provision(records, slave_key_report, layout, state, now).0),
        never_resurrects(
            records,
            spec_key_provision(records, slave_key_report, layout, state, now).0,
        ),
{
    let detections = spec_unpack_all(slave_key_report, state.layer);
    let stored = spec_store(records, detections, now);
    let mapped = spec_transform(stored, layout);
    let combined = spec_combos(mapped, layout.combos@);
    let after = spec_resolve(combined, state).0;
    let nowhere = KeyPos::spec_default();
    lemma_store_keeps_places(records, detections, now);
    lemma_transform_keeps_places(stored, layout);
    lemma_combos_keep_places(mapped, layout.combos@);
    lemma_resolve_keeps(combined, state);
    lemma_kept_records(combined);
    // what the resolver leaves was carried over from the table as the layout left it
    assert forall|j: int| 0 <= j < after.len() implies continues(mapped, #[trigger] after[j]) || (
    after[j].position.same_place(nowhere) && !holds_place(mapped, nowhere)) by {
        let k = choose|k: int|
            0 <= k < combined.len() && (#[trigger] combined[k]).marked_reported() == after[j];
        if continues(mapped, combined[k]) {
            let i = choose|i: int|
                0 <= i < mapped.len() && (#[trigger] mapped[i]).position == combined[k].position
                    && mapped[i].info.state == combined[k].info.state;
            assert(mapped[i].position == after[j].position);
        }
    }
    assert(carried_over(mapped, after));
    lemma_carried_over_never_resurrects(mapped, after);
    // and every record of the table stood there, in its state
    assert forall|i: int, j: int|
        0 <= i < records.len() && 0 <= j < after.len()
        && (#[trigger] records[i]).position.same_place((#[trigger] after[j]).position)
        && records[i].info.state == KeyState::Released implies after[j].info.state
        == KeyState::Released by {
        assert(stored[i].position == records[i].position);
        assert(mapped[i].position == records[i].position);
        assert(mapped[i].info.state == KeyState::Released);
    }
}

/// The rollover limit holds of every walk through the table: whatever
/// its records, the report keeps its six slots, never more than six of
/// them occupied, and no key in two of them if none was before.
pub proof fn lemma_resolve_rollover(records: Seq<Key>, state: ResolverState)
    requires
        state.keyboard.keys.len() == 6,
    ensures
        spec_resolve(records, state).1.keyboard.keys.len() == 6,
        occupied(spec_resolve(records, state).1.keyboard.keys) <= 6,
        state.no_key_twice() ==> spec_resolve(records, state).1.no_key_twice(),
    decreases records.len(),
{
    if records.len() > 0 {
        lemma_resolve_rollover(records.drop_last(), state);
        lemma_key_keeps_slots(spec_resolve(records.drop_last(), state).1, records.last().keycode);
    }
    lemma_occupied_bound(spec_resolve(records, state).1.keyboard.keys);
}

/// The keys of the records, first to last.
pub open spec fn keycodes(records: Seq<Key>) -> Seq<Kc> {
    Seq::new(records.len(), |i: int| records[i].keycode)
}

/// A walk through a table of keys that are all pressed and new to the
/// resolver presses their keys, first to last.
pub proof fn lemma_resolve_presses(records: Seq<Key>, state: ResolverState)
    requires
        forall|i: int|
            0 <= i < records.len() ==> (#[trigger] records[i]).info.state == KeyState::Pressed
                && !records[i].info.reported,
    ensures
        spec_resolve(records, state).1 == state.add_all(keycodes(records)),
    decreases records.len(),
{
    if records.len() > 0 {
        lemma_resolve_presses(records.drop_last(), state);
        assert(keycodes(records).drop_last() =~= keycodes(records.drop_last()));
    } else {
        assert(keycodes(records) =~= Seq::<Kc>::empty());
    }
}

/// A key that is held is resolved once only: a table in which every key is
/// pressed and marked, as the resolver leaves it, is passed over as it is,
/// whatever has become of the reports and the layer since.
pub proof fn lemma_resolve_settled(records: Seq<Key>, state: ResolverState)
    requires
        forall|i: int|
            0 <= i < records.len() ==> (#[trigger] records[i]).info.state == KeyState::Pressed
                && records[i].info.reported,
    ensures
        spec_resolve(records, state) == (records, state),
    decreases records.len(),
{
    if records.len() > 0 {
        lemma_resolve_settled(records.drop_last(), state);
        assert(records.drop_last().push(records.last()) =~= records);
    }
}

/// The resolver acts on a key when it first sees it pressed, and not again
/// while its record stays: right after one walk through the table a second
/// one changes nothing, whatever has become of the reports and the layer
/// in between.
pub proof fn lemma_resolve_once(records: Seq<Key>, state: ResolverState, later: ResolverState)
    ensures
        spec_resolve(spec_resolve(records, state).0, later) == (
            spec_resolve(records, state).0,
            later,
        ),
{
    lemma_resolve_keeps(records, state);
    lemma_kept_records(records);
    lemma_resolve_settled(spec_resolve(records, state).0, later);
}

/// One cycle of the resolver on the primary half, at `now`.
pub fn key_provision_at(
    registered_matrix_keys: &mut RegisteredMatrixKeys,
    slave_key_report: &[u8; 6],
    layout: &Layout,
    layer: &mut usize,
    keyboard_key_report: &mut KeyboardKeyReport,
    mouse_key_report: &mut MouseKeyReport,
    now: u64,
)
    ensures
        (
            final(registered_matrix_keys)@,
            ResolverState::of(*final(keyboard_key_report), *final(mouse_key_report), *final(layer)),
        ) == spec_key_provision(
            old(registered_matrix_keys)@,
            slave_key_report@,
            *layout,
            ResolverState::of(*old(keyboard_key_report), *old(mouse_key_report), *old(layer)),
            now,
        ),
        final(registered_matrix_keys).sleep_condition == spec_provision_timer(
            old(registered_matrix_keys).sleep_condition,
            slave_key_report@,
            *old(layer),
            now,
        ),
        old(registered_matrix_keys).wf() ==> final(registered_matrix_keys).wf(),
        old(registered_matrix_keys).wf() ==> never_resurrects(
            old(registered_matrix_keys)@,
            final(registered_matrix_keys)@,
        ),
{
    proof {
        if sound(registered_matrix_keys@) {
            lemma_provision_keeps_places(
                registered_matrix_keys@,
                slave_key_report@,
                *layout,
                ResolverState::of(*keyboard_key_report, *mouse_key_report, *layer),
                now,
            );
        }
    }
    registered_matrix_keys.store_keys_slave_at(slave_key_report, *layer, now);
    registered_matrix_keys.transform_matrix_to_hid(layout);
    registered_matrix_keys.process_combos(layout);
    resolve_keys(registered_matrix_keys, keyboard_key_report, mouse_key_report, layer);
}

/// One cycle of the resolver on the primary half, with the time of now.
pub fn key_provision(
    registered_matrix_keys: &mut RegisteredMatrixKeys,
    slave_key_report: &[u8; 6],
    layout: &Layout,
    layer: &mut usize,
    keyboard_key_report: &mut KeyboardKeyReport,
    mouse_key_report: &mut MouseKeyReport,
)
    ensures
        exists|now: u64|
            {
                &&& (
                    final(registered_matrix_keys)@,
                    ResolverState::of(
                        *final(keyboard_key_report),
                        *final(mouse_key_report),
                        *final(layer),
                    ),
                ) == #[trigger] spec_key_provision(
                    old(registered_matrix_keys)@,
                    slave_key_report@,
                    *layout,
                    ResolverState::of(*old(keyboard_key_report), *old(mouse_key_report), *old(layer)),
                    now,
                )
                &&& final(registered_matrix_keys).sleep_condition == spec_provision_timer(
                    old(registered_matrix_keys).sleep_condition,
                    slave_key_report@,
                    *old(layer),
                    now,
                )
            },
        old(registered_matrix_keys).wf() ==> final(registered_matrix_keys).wf(),
        old(registered_matrix_keys).wf() ==> never_resurrects(
            old(registered_matrix_keys)@,
            final(registered_matrix_keys)@,
        ),
{
    let now = now_ticks();
    key_provision_at(
        registered_matrix_keys,
        slave_key_report,
        layout,
        layer,
        keyboard_key_report,
        mouse_key_report,
        now,
    );
}

/// The resolver's part of a cycle on the primary half at `now`, with the
/// table locked: with a host connected, one cycle of the resolver; with
/// none, the table, the reports and the layer are left as they are.
pub fn key_provision_if_connected_at(
    connected: bool,
    registered_matrix_keys: &mut RegisteredMatrixKeys,
    slave_key_report: &[u8; 6],
    layout: &Layout,
    layer: &mut usize,
    keyboard_key_report: &mut KeyboardKeyReport,
    mouse_key_report: &mut MouseKeyReport,
    now: u64,
)
    ensures
        connected ==> {
            &&& (
                final(registered_matrix_keys)@,
                ResolverState::of(
                    *final(keyboard_key_report),
                    *final(mouse_key_report),
                    *final(layer),
                ),
            ) == spec_key_provision(
                old(registered_matrix_keys)@,
                slave_key_report@,
                *layout,
                ResolverState::of(*old(keyboard_key_report), *old(mouse_key_report), *old(layer)),
                now,
            )
            &&& final(registered_matrix_keys).sleep_condition == spec_provision_timer(
                old(registered_matrix_keys).sleep_condition,
                slave_key_report@,
                *old(layer),
                now,
            )
        },
        !connected ==> {
            &&& final(registered_matrix_keys)@ == old(registered_matrix_keys)@
            &&& final(registered_matrix_keys).sleep_condition
                == old(registered_matrix_keys).sleep_condition
            &&& *final(keyboard_key_report) == *old(keyboard_key_report)
            &&& *final(mouse_key_report) == *old(mouse_key_report)
            &&& *final(layer) == *old(layer)
        },
        old(registered_matrix_keys).wf() ==> final(registered_matrix_keys).wf(),
        old(registered_matrix_keys).wf() ==> never_resurrects(
            old(registered_matrix_keys)@,
            final(registered_matrix_keys)@,
        ),
{
    if connected {
        key_provision_at(
            registered_matrix_keys,
            slave_key_report,
            layout,
            layer,
            keyboard_key_report,
            mouse_key_report,
            now,
        );
    } else {
        proof {
            lemma_unchanged_never_resurrects(registered_matrix_keys@);
        }
    }
}

/// The resolver's part of a cycle on the primary half, with the time of
/// now and the table locked: with a host connected, one cycle of the
/// resolver; with none, everything is left as it is.
pub fn key_provision_if_connected(
    connected: bool,
    registered_matrix_keys: &mut RegisteredMatrixKeys,
    slave_key_report: &[u8; 6],
    layout: &Layout,
    layer: &mut usize,
    keyboard_key_report: &mut KeyboardKeyReport,
    mouse_key_report: &mut MouseKeyReport,
)
    ensures
        connected ==> exists|now: u64|
            {
                &&& (
                    final(registered_matrix_keys)@,
                    ResolverState::of(
                        *final(keyboard_key_report),
                        *final(mouse_key_report),
                        *final(layer),
                    ),
                ) == #[trigger] spec_key_provision(
                    old(registered_matrix_keys)@,
                    slave_key_report@,
                    *layout,
                    ResolverState::of(*old(keyboard_key_report), *old(mouse_key_report), *old(layer)),
                    now,
                )
                &&& final(registered_matrix_keys).sleep_condition == spec_provision_timer(
                    old(registered_matrix_keys).sleep_condition,
                    slave_key_report@,
                    *old(layer),
                    now,
                )
            },
        !connected ==> {
            &&& final(registered_matrix_keys)@ == old(registered_matrix_keys)@
            &&& final(registered_matrix_keys).sleep_condition
                == old(registered_matrix_keys).sleep_condition
            &&& *final(keyboard_key_report) == *old(keyboard_key_report)
            &&& *final(mouse_key_report) == *old(mouse_key_report)
            &&& *final(layer) == *old(layer)
        },
        old(registered_matrix_keys).wf() ==> final(registered_matrix_keys).wf(),
        old(registered_matrix_keys).wf() ==> never_resurrects(
            old(registered_matrix_keys)@,
            final(registered_matrix_keys)@,
        ),
{
    let now = now_ticks();
    key_provision_if_connected_at(
        connected,
        registered_matrix_keys,
        slave_key_report,
        layout,
        layer,
        keyboard_key_report,
        mouse_key_report,
        now,
    );
}

/// The resolver's part of a cycle on the secondary half, with the table
/// locked: with the primary half connected, one cycle of the resolver; with
/// it not connected, the table and the report are left as they are.
pub fn key_provision_slave_if_connected(
    connected: bool,
    registered_matrix_keys: &mut RegisteredMatrixKeys,
    keyboard_key_report: &mut KeyboardKeyReport,
)
    ensures
        connected ==> (final(registered_matrix_keys)@, final(keyboard_key_report)@.keys)
            == spec_resolve_slave(old(registered_matrix_keys)@, old(keyboard_key_report)@.keys),
        !connected ==> final(registered_matrix_keys)@ == old(registered_matrix_keys)@,
        !connected ==> final(keyboard_key_report)@.keys == old(keyboard_key_report)@.keys,
        final(keyboard_key_report).modifiers == old(keyboard_key_report).modifiers,
        final(keyboard_key_report).reserved == old(keyboard_key_report).reserved,
        final(registered_matrix_keys).sleep_condition == old(registered_matrix_keys).sleep_condition,
        old(registered_matrix_keys).wf() ==> final(registered_matrix_keys).wf(),
        old(registered_matrix_keys).wf() ==> never_resurrects(
            old(registered_matrix_keys)@,
            final(registered_matrix_keys)@,
        ),
{
    if connected {
        key_provision_slave(registered_matrix_keys, keyboard_key_report);
    } else {
        proof {
            lemma_unchanged_never_resurrects(registered_matrix_keys@);
        }
    }
}

} // verus!
