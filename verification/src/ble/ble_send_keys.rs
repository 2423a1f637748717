//! The resolver of a keyboard with two layers and no mouse: what a pressed
//! or released key does to the keyboard report and to the active layer, and
//! the cycle that goes through the table with it.
use vstd::prelude::*;

use crate::ble::{KeyboardKeyReport, KeyboardView};
use crate::config::enums::{HidModifiers, Kc, KeyType};
use crate::config::layers::Layer;
use crate::config::layout::Layout;
use crate::fixed_vec::{
    macro_contents, macro_get, macro_len, records_get, records_len, records_remove, records_set,
};
use crate::key_provision::{
    expansion_depth, lemma_expansions_are_plain, lemma_kept_records, spec_kept,
};
use crate::matrix::records::{lemma_unchanged_never_resurrects, never_resurrects};
use crate::matrix::{Key, KeyState, RegisteredMatrixKeys};

verus! {

/// The keyboard as the resolver sees it: its report. The transport keeps
/// the rest.
pub struct BleKeyboard {
    pub key_report: KeyboardKeyReport,
}

impl BleKeyboard {
    /// A keyboard whose report holds nothing.
    pub fn new() -> (keyboard: BleKeyboard)
        ensures
            keyboard.key_report@ == (KeyboardView {
                modifiers: 0,
                reserved: 0,
                keys: Seq::new(6, |i: int| 0u8),
            }),
    {
        BleKeyboard { key_report: KeyboardKeyReport::default() }
    }

    /// True if a host is connected: the transport counts one connection at
    /// least.
    pub fn connected(connected_count: usize) -> (connected: bool)
        ensures
            connected == (connected_count > 0),
    {
        connected_count > 0
    }
}

/// The report and the layer after a key that is resolved by itself was
/// pressed: a layer key makes the upper layer the active one and empties
/// the report, a modifier sets its bit, an ordinary key takes the first
/// free slot. Any other key does nothing.
pub open spec fn spec_send_plain(report: KeyboardView, layer: Layer, key: Kc) -> (
    KeyboardView,
    Layer,
) {
    match key.key_type() {
        KeyType::Layer => (report.flushed(), Layer::Upper),
        KeyType::Modifier => (report.with_modifier(HidModifiers::spec_modifier(key)), layer),
        KeyType::Key => (report.press(key.spec_code()), layer),
        _ => (report, layer),
    }
}

/// The report and the layer after a key that is resolved by itself was
/// released: a layer key makes the base layer the active one and empties
/// the report, a modifier clears its bit, an ordinary key frees its slot.
/// Any other key does nothing.
pub open spec fn spec_remove_plain(report: KeyboardView, layer: Layer, key: Kc) -> (
    KeyboardView,
    Layer,
) {
    match key.key_type() {
        KeyType::Layer => (report.flushed(), Layer::Base),
        KeyType::Modifier => (report.without_modifier(HidModifiers::spec_modifier(key)), layer),
        KeyType::Key => (report.release(key.spec_code()), layer),
        _ => (report, layer),
    }
}

/// The report and the layer after the keys of an expansion were pressed,
/// first to last.
pub open spec fn spec_send_each(report: KeyboardView, layer: Layer, keys: Seq<Kc>) -> (
    KeyboardView,
    Layer,
)
    decreases keys.len(),
{
    if keys.len() == 0 {
        (report, layer)
    } else {
        let before = spec_send_each(report, layer, keys.drop_last());
        spec_send_plain(before.0, before.1, keys.last())
    }
}

/// The report and the layer after the keys of an expansion were released,
/// first to last.
pub open spec fn spec_remove_each(report: KeyboardView, layer: Layer, keys: Seq<Kc>) -> (
    KeyboardView,
    Layer,
)
    decreases keys.len(),
{
    if keys.len() == 0 {
        (report, layer)
    } else {
        let before = spec_remove_each(report, layer, keys.drop_last());
        spec_remove_plain(before.0, before.1, keys.last())
    }
}

/// The report and the layer after `key` was pressed: a macro presses the
/// keys of its expansion, any other key itself.
pub open spec fn spec_send(report: KeyboardView, layer: Layer, key: Kc) -> (KeyboardView, Layer) {
    if key.key_type() == KeyType::Macro {
        spec_send_each(report, layer, key.spec_macro_sequence())
    } else {
        spec_send_plain(report, layer, key)
    }
}

/// The report and the layer after `key` was released: a macro releases the
/// keys of its expansion, any other key itself.
pub open spec fn spec_remove(report: KeyboardView, layer: Layer, key: Kc) -> (KeyboardView, Layer) {
    if key.key_type() == KeyType::Macro {
        spec_remove_each(report, layer, key.spec_macro_sequence())
    } else {
        spec_remove_plain(report, layer, key)
    }
}

/// Resolves the keys of an expansion as pressed, first to last.
fn send_expansion(
    ble_keyboard: &mut BleKeyboard,
    keys: &heapless::Vec<Kc, 16>,
    layer_state: &mut Layer,
)
    requires
        forall|i: int|
            0 <= i < macro_contents(*keys).len() ==> (#[trigger] macro_contents(*keys)[i]).is_plain(),
    ensures
        (final(ble_keyboard).key_report@, *final(layer_state)) == spec_send_each(
            old(ble_keyboard).key_report@,
            *old(layer_state),
            macro_contents(*keys),
        ),
    decreases 0nat, 1nat,
{
    let ghost report = ble_keyboard.key_report@;
    let ghost layer = *layer_state;
    let ghost all = macro_contents(*keys);
    let count = macro_len(keys);
    let mut index: usize = 0;
    while index < count
        invariant
            index <= count,
            count == all.len(),
            all == macro_contents(*keys),
            forall|i: int| 0 <= i < all.len() ==> (#[trigger] all[i]).is_plain(),
            (ble_keyboard.key_report@, *layer_state) == spec_send_each(
                report,
                layer,
                all.take(index as int),
            ),
        decreases count - index,
    {
        let key = macro_get(keys, index);
        assert(all.take(index + 1).drop_last() =~= all.take(index as int));
        send_keys(ble_keyboard, &key, layer_state);
        index += 1;
    }
    assert(all.take(count as int) =~= all);
}

/// Resolves the keys of an expansion as released, first to last.
fn remove_expansion(
    ble_keyboard: &mut BleKeyboard,
    keys: &heapless::Vec<Kc, 16>,
    layer_state: &mut Layer,
)
    requires
        forall|i: int|
            0 <= i < macro_contents(*keys).len() ==> (#[trigger] macro_contents(*keys)[i]).is_plain(),
    ensures
        (final(ble_keyboard).key_report@, *final(layer_state)) == spec_remove_each(
            old(ble_keyboard).key_report@,
            *old(layer_state),
            macro_contents(*keys),
        ),
    decreases 0nat, 1nat,
{
    let ghost report = ble_keyboard.key_report@;
    let ghost layer = *layer_state;
    let ghost all = macro_contents(*keys);
    let count = macro_len(keys);
    let mut index: usize = 0;
    while index < count
        invariant
            index <= count,
            count == all.len(),
            all == macro_contents(*keys),
            forall|i: int| 0 <= i < all.len() ==> (#[trigger] all[i]).is_plain(),
            (ble_keyboard.key_report@, *layer_state) == spec_remove_each(
                report,
                layer,
                all.take(index as int),
            ),
        decreases count - index,
    {
        let key = macro_get(keys, index);
        assert(all.take(index + 1).drop_last() =~= all.take(index as int));
        remove_keys(ble_keyboard, &key, layer_state);
        index += 1;
    }
    assert(all.take(count as int) =~= all);
}

/// Resolves a pressed key: changes the report and the active layer as the
/// type of the key asks.
pub fn send_keys(ble_keyboard: &mut BleKeyboard, valid_key: &Kc, layer_state: &mut Layer)
    ensures
        (final(ble_keyboard).key_report@, *final(layer_state)) == spec_send(
            old(ble_keyboard).key_report@,
            *old(layer_state),
            *valid_key,
        ),
    decreases expansion_depth(*valid_key), 0nat,
{
    match KeyType::check_type(valid_key) {
        KeyType::Macro => {
            let macro_valid_keys = Kc::get_macro_sequence(valid_key);
            proof {
                lemma_expansions_are_plain(*valid_key);
            }
            send_expansion(ble_keyboard, &macro_valid_keys, layer_state);
        },
        KeyType::Layer => {
            *layer_state = Layer::Upper;
            ble_keyboard.key_report.flush();
        },
        KeyType::Modifier => {
            ble_keyboard.key_report.modifiers |= HidModifiers::get_modifier(valid_key);
        },
        KeyType::Key => {
            ble_keyboard.key_report.press(valid_key.code());
        },
        _ => {},
    }
}

/// Resolves a released key: takes back what pressing it did to the report,
/// and returns to the base layer for a layer key.
pub fn remove_keys(ble_keyboard: &mut BleKeyboard, valid_key: &Kc, layer_state: &mut Layer)
    ensures
        (final(ble_keyboard).key_report@, *final(layer_state)) == spec_remove(
            old(ble_keyboard).key_report@,
            *old(layer_state),
            *valid_key,
        ),
    decreases expansion_depth(*valid_key), 0nat,
{
    match KeyType::check_type(valid_key) {
        KeyType::Macro => {
            let macro_valid_keys = Kc::get_macro_sequence(valid_key);
            proof {
                lemma_expansions_are_plain(*valid_key);
            }
            remove_expansion(ble_keyboard, &macro_valid_keys, layer_state);
        },
        KeyType::Layer => {
            *layer_state = Layer::Base;
            ble_keyboard.key_report.flush();
        },
        KeyType::Modifier => {
            ble_keyboard.key_report.modifiers &= !HidModifiers::get_modifier(valid_key);
        },
        KeyType::Key => {
            ble_keyboard.key_report.release(valid_key.code());
        },
        _ => {},
    }
}

/// The key that the layout gives for the place of a record on a layer, if
/// it has such a place.
pub open spec fn spec_key_on(layout: Layout, layer: Layer, key: Key) -> Option<Kc> {
    layout.spec_get(layer.spec_index(), key.position.row, key.position.col)
}

/// The table, the report and the layer after the records were gone
/// through, first to last, each with the key that the layout gives for its
/// place on the layer that is active when its turn comes.
///
/// A released key is resolved as released and its record leaves the table.
/// A pressed key is resolved as pressed when it is seen for the first
/// time; its record stays and is marked. A pressed key that is marked is
/// passed over. Where the layout has no key for a place, nothing is
/// resolved.
pub open spec fn spec_send_resolve(
    records: Seq<Key>,
    layout: Layout,
    report: KeyboardView,
    layer: Layer,
) -> (Seq<Key>, KeyboardView, Layer)
    decreases records.len(),
{
    if records.len() == 0 {
        (records, report, layer)
    } else {
        let before = spec_send_resolve(records.drop_last(), layout, report, layer);
        let key = records.last();
        if key.info.state == KeyState::Released {
            match spec_key_on(layout, before.2, key) {
                Some(keycode) => {
                    let after = spec_remove(before.1, before.2, keycode);
                    (before.0, after.0, after.1)
                },
                None => before,
            }
        } else if key.info.reported {
            (before.0.push(key), before.1, before.2)
        } else {
            match spec_key_on(layout, before.2, key) {
                Some(keycode) => {
                    let after = spec_send(before.1, before.2, keycode);
                    (before.0.push(key.marked_reported()), after.0, after.1)
                },
                None => (before.0.push(key.marked_reported()), before.1, before.2),
            }
        }
    }
}

/// The cycle leaves the pressed records in the table, marked.
pub proof fn lemma_send_resolve_keeps(
    records: Seq<Key>,
    layout: Layout,
    report: KeyboardView,
    layer: Layer,
)
    ensures
        spec_send_resolve(records, layout, report, layer).0 == spec_kept(records),
    decreases records.len(),
{
    if records.len() > 0 {
        lemma_send_resolve_keeps(records.drop_last(), layout, report, layer);
        let key = records.last();
        if key.info.state == KeyState::Pressed && key.info.reported {
            assert(key.marked_reported() == key);
        }
    }
}

/// One cycle of the keyboard with two layers: goes through the records of
/// the table, first to last, resolves every released key and every key
/// that is pressed for the first time, and takes the released ones out of
/// the table. Hands back the bytes of the report to send, unless the table
/// was empty.
pub fn ble_send_keys_cycle(
    ble_keyboard: &mut BleKeyboard,
    registered_matrix_keys: &mut RegisteredMatrixKeys,
    layout: &Layout,
    layer_state: &mut Layer,
) -> (report: Option<[u8; 8]>)
    ensures
        (
            final(registered_matrix_keys)@,
            final(ble_keyboard).key_report@,
            *final(layer_state),
        ) == spec_send_resolve(
            old(registered_matrix_keys)@,
            *layout,
            old(ble_keyboard).key_report@,
            *old(layer_state),
        ),
        report is Some <==> old(registered_matrix_keys)@.len() > 0,
        report matches Some(bytes) ==> bytes@ == final(ble_keyboard).key_report@.bytes(),
        final(registered_matrix_keys).sleep_condition == old(registered_matrix_keys).sleep_condition,
        old(registered_matrix_keys).wf() ==> final(registered_matrix_keys).wf(),
        old(registered_matrix_keys).wf() ==> never_resurrects(
            old(registered_matrix_keys)@,
            final(registered_matrix_keys)@,
        ),
{
    let ghost start = registered_matrix_keys@;
    let ghost report = ble_keyboard.key_report@;
    let ghost layer = *layer_state;
    let ghost mut seen: int = 0;
    let any = records_len(&registered_matrix_keys.keys) > 0;
    let mut index: usize = 0;
    assert(start.take(0) =~= Seq::<Key>::empty());
    assert(spec_send_resolve(start.take(0), *layout, report, layer).0 + start.skip(0) =~= start);
    while index < records_len(&registered_matrix_keys.keys)
        invariant
            0 <= seen <= start.len(),
            index == spec_send_resolve(start.take(seen), *layout, report, layer).0.len(),
            registered_matrix_keys@ == spec_send_resolve(start.take(seen), *layout, report, layer).0
                + start.skip(seen),
            ble_keyboard.key_report@ == spec_send_resolve(start.take(seen), *layout, report, layer).1,
            *layer_state == spec_send_resolve(start.take(seen), *layout, report, layer).2,
            registered_matrix_keys.sleep_condition == old(registered_matrix_keys).sleep_condition,
        decreases registered_matrix_keys@.len() - index,
    {
        let mut key = records_get(&registered_matrix_keys.keys, index);
        proof {
            assert(key == start[seen]);
            assert(start.take(seen + 1).drop_last() =~= start.take(seen));
            assert(start.take(seen + 1).last() == start[seen]);
        }
        let found = layout.get(layer_state.index(), key.position.row, key.position.col);
        match key.info.state {
            KeyState::Pressed => {
                if !key.info.reported {
                    match found {
                        Some(valid_key) => send_keys(ble_keyboard, &valid_key, layer_state),
                        None => {},
                    }
                    key.info.reported = true;
                    records_set(&mut registered_matrix_keys.keys, index, key);
                }
                index += 1;
            },
            KeyState::Released => {
                match found {
                    Some(valid_key) => remove_keys(ble_keyboard, &valid_key, layer_state),
                    None => {},
                }
                records_remove(&mut registered_matrix_keys.keys, index);
            },
        }
        proof {
            assert(registered_matrix_keys@ =~= spec_send_resolve(
                start.take(seen + 1),
                *layout,
                report,
                layer,
            ).0 + start.skip(seen + 1));
            seen = seen + 1;
        }
    }
    proof {
        assert(start.take(seen) =~= start);
        assert(registered_matrix_keys@ =~= spec_send_resolve(start, *layout, report, layer).0);
        lemma_send_resolve_keeps(start, *layout, report, layer);
        lemma_kept_records(start);
    }
    if any {
        Some(ble_keyboard.key_report.construct())
    } else {
        None
    }
}

/// The resolver's part of a cycle of the keyboard with two layers, with the
/// table locked: with a host connected, one cycle through the table; with
/// none, the table, the report and the layer are left as they are and
/// nothing is to be sent.
pub fn ble_send_keys_cycle_if_connected(
    connected: bool,
    ble_keyboard: &mut BleKeyboard,
    registered_matrix_keys: &mut RegisteredMatrixKeys,
    layout: &Layout,
    layer_state: &mut Layer,
) -> (report: Option<[u8; 8]>)
    ensures
        connected ==> {
            &&& (
                final(registered_matrix_keys)@,
                final(ble_keyboard).key_report@,
                *final(layer_state),
            ) == spec_send_resolve(
                old(registered_matrix_keys)@,
                *layout,
                old(ble_keyboard).key_report@,
                *old(layer_state),
            )
            &&& (report is Some <==> old(registered_matrix_keys)@.len() > 0)
            &&& (report matches Some(bytes) ==> bytes@ == final(ble_keyboard).key_report@.bytes())
        },
        !connected ==> {
            &&& final(registered_matrix_keys)@ == old(registered_matrix_keys)@
            &&& final(ble_keyboard).key_report == old(ble_keyboard).key_report
            &&& *final(layer_state) == *old(layer_state)
            &&& report is None
        },
        final(registered_matrix_keys).sleep_condition == old(registered_matrix_keys).sleep_condition,
        old(registered_matrix_keys).wf() ==> final(registered_matrix_keys).wf(),
        old(registered_matrix_keys).wf() ==> never_resurrects(
            old(registered_matrix_keys)@,
            final(registered_matrix_keys)@,
        ),
{
    if connected {
        ble_send_keys_cycle(ble_keyboard, registered_matrix_keys, layout, layer_state)
    } else {
        proof {
            lemma_unchanged_never_resurrects(registered_matrix_keys@);
        }
        None
    }
}

} // verus!
