//! The sweeper: it releases the keys that the scanner has not detected for
//! the debounce interval.
use vstd::prelude::*;

use crate::clock::now_ticks;
use crate::matrix::records::{never_resurrects, spec_sweep};
use crate::matrix::{Key, KeyState, RegisteredMatrixKeys};

verus! {

/// One sweep of the table, with the time of now: every pressed key that the
/// scanner has not detected for `key_debounce` ticks is released.
pub fn calculate_debounce(registered_matrix_keys: &mut RegisteredMatrixKeys, key_debounce: u64)
    ensures
        exists|now: u64|
            final(registered_matrix_keys)@ == #[trigger] spec_sweep(
                old(registered_matrix_keys)@,
                now,
                key_debounce,
            ),
        final(registered_matrix_keys).sleep_condition == old(registered_matrix_keys).sleep_condition,
        old(registered_matrix_keys).wf() ==> final(registered_matrix_keys).wf(),
        old(registered_matrix_keys).wf() ==> never_resurrects(
            old(registered_matrix_keys)@,
            final(registered_matrix_keys)@,
        ),
{
    let now = now_ticks();
    registered_matrix_keys.sweep(now, key_debounce);
}

/// The timing of a release: a key that was last detected at `t0` is
/// pressed after every sweep before `t0 + debounce`, and released after any
/// sweep at or after it. A sweep changes nothing else, and a released key
/// stays released.
pub proof fn lemma_debounce_timing(records: Seq<Key>, index: int, now: u64, debounce: u64)
    requires
        0 <= index < records.len(),
    ensures
        spec_sweep(records, now, debounce).len() == records.len(),
        spec_sweep(records, now, debounce)[index].keycode == records[index].keycode,
        spec_sweep(records, now, debounce)[index].position == records[index].position,
        spec_sweep(records, now, debounce)[index].info.pressed_time
            == records[index].info.pressed_time,
        spec_sweep(records, now, debounce)[index].info.reported == records[index].info.reported,
        records[index].info.state == KeyState::Pressed ==> (spec_sweep(
            records,
            now,
            debounce,
        )[index].info.state == KeyState::Released <==> now >= records[index].info.pressed_time
            + debounce),
        records[index].info.state == KeyState::Released ==> spec_sweep(
            records,
            now,
            debounce,
        )[index].info.state == KeyState::Released,
{
}

} // verus!
