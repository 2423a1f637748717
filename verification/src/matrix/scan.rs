//! The scanner: the buffer that it collects detected keys in, and what it
//! decides from cycle to cycle.
use vstd::prelude::*;

use crate::ble::{BleStatus, Debounce};
use crate::clock::now_ticks;
use crate::config::user_config::{COLS, ROWS};
use crate::matrix::KeyPos;
use crate::search::{first_index, lemma_first_index, lemma_first_index_exists};

verus! {

/// The buffer of the scanner after a key was detected at `position`: the
/// key takes the first free slot; with no slot free it is dropped. A free
/// slot holds the position that stands for no key.
pub open spec fn spec_register(buffer: Seq<KeyPos>, position: KeyPos) -> Seq<KeyPos> {
    if buffer.contains(KeyPos::spec_default()) {
        buffer.update(first_index(buffer, KeyPos::spec_default()), position)
    } else {
        buffer
    }
}

/// The buffer of the scanner after the columns of one row were sampled:
/// every column that is high is a key at that row, at its column behind
/// the offset of the half, detected on `layer`.
pub open spec fn spec_scan_row(
    buffer: Seq<KeyPos>,
    row: u8,
    levels: Seq<bool>,
    col_offset: u8,
    layer: usize,
) -> Seq<KeyPos>
    decreases levels.len(),
{
    if levels.len() == 0 {
        buffer
    } else {
        let before = spec_scan_row(buffer, row, levels.drop_last(), col_offset, layer);
        if levels.last() {
            spec_register(
                before,
                KeyPos { row, col: (levels.len() - 1 + col_offset) as u8, layer },
            )
        } else {
            before
        }
    }
}

/// The buffer of the scanner after all rows were sampled, first to last.
pub open spec fn spec_scan(
    buffer: Seq<KeyPos>,
    levels: Seq<[bool; COLS]>,
    col_offset: u8,
    layer: usize,
) -> Seq<KeyPos>
    decreases levels.len(),
{
    if levels.len() == 0 {
        buffer
    } else {
        spec_scan_row(
            spec_scan(buffer, levels.drop_last(), col_offset, layer),
            (levels.len() - 1) as u8,
            levels.last()@,
            col_offset,
            layer,
        )
    }
}

/// The scanner keeps its buffer at six slots.
pub proof fn lemma_scan_row_len(
    buffer: Seq<KeyPos>,
    row: u8,
    levels: Seq<bool>,
    col_offset: u8,
    layer: usize,
)
    ensures
        spec_scan_row(buffer, row, levels, col_offset, layer).len() == buffer.len(),
    decreases levels.len(),
{
    if levels.len() > 0 {
        lemma_scan_row_len(buffer, row, levels.drop_last(), col_offset, layer);
        let before = spec_scan_row(buffer, row, levels.drop_last(), col_offset, layer);
        if before.contains(KeyPos::spec_default()) {
            lemma_first_index_exists(before, KeyPos::spec_default());
        }
    }
}

/// What the scanner keeps between scans: the keys that it has detected and
/// not yet stored. The pins stay with the hardware.
pub struct PinMatrix {
    pub registered_local_keys_array: [KeyPos; 6],
}

impl PinMatrix {
    /// A scanner whose buffer is empty.
    pub fn new() -> (matrix: PinMatrix)
        ensures
            matrix.registered_local_keys_array@ == Seq::new(6, |i: int| KeyPos::spec_default()),
    {
        let matrix = PinMatrix { registered_local_keys_array: [KeyPos::default();6] };
        assert(matrix.registered_local_keys_array@ =~= Seq::new(6, |i: int| KeyPos::spec_default()));
        matrix
    }

    /// Enters a detected key into the buffer: it takes the first free slot;
    /// with no slot free it is dropped.
    pub fn register(&mut self, position: KeyPos)
        ensures
            final(self).registered_local_keys_array@ == spec_register(
                old(self).registered_local_keys_array@,
                position,
            ),
    {
        let mut index: usize = 0;
        while index < 6
            invariant
                index <= 6,
                self.registered_local_keys_array == old(self).registered_local_keys_array,
                forall|j: int|
                    0 <= j < index ==> self.registered_local_keys_array@[j] != KeyPos::spec_default(),
            decreases 6 - index,
        {
            if self.registered_local_keys_array[index] == KeyPos::default() {
                proof {
                    lemma_first_index(
                        self.registered_local_keys_array@,
                        KeyPos::spec_default(),
                        index as int,
                    );
                }
                self.registered_local_keys_array[index] = position;
                return ;
            }
            index += 1;
        }
    }

    /// Enters the keys of one sampled row into the buffer: every column
    /// that is high is a key.
    pub fn scan_row(&mut self, row: u8, levels: &[bool; COLS], col_offset: u8, layer: usize)
        requires
            col_offset + COLS <= 256,
        ensures
            final(self).registered_local_keys_array@ == spec_scan_row(
                old(self).registered_local_keys_array@,
                row,
                levels@,
                col_offset,
                layer,
            ),
    {
        let ghost start = self.registered_local_keys_array@;
        let mut col: usize = 0;
        while col < COLS
            invariant
                col <= COLS,
                col_offset + COLS <= 256,
                self.registered_local_keys_array@ == spec_scan_row(
                    start,
                    row,
                    levels@.take(col as int),
                    col_offset,
                    layer,
                ),
            decreases COLS - col,
        {
            proof {
                assert(levels@.take(col + 1).drop_last() =~= levels@.take(col as int));
                assert(levels@.take(col + 1).last() == levels@[col as int]);
            }
            if levels[col] {
                self.register(KeyPos { row, col: col as u8 + col_offset, layer });
            }
            col += 1;
        }
        assert(levels@.take(COLS as int) =~= levels@);
    }

    /// Enters the keys of one sampled matrix into the buffer, row by row.
    /// The buffer holds six keys at most; what is detected beyond them is
    /// dropped, and found again by the next scan.
    pub fn standard_scan(&mut self, levels: &[[bool; COLS]; ROWS], col_offset: u8, layer: usize)
        requires
            col_offset + COLS <= 256,
        ensures
            final(self).registered_local_keys_array@ == spec_scan(
                old(self).registered_local_keys_array@,
                levels@,
                col_offset,
                layer,
            ),
    {
        let ghost start = self.registered_local_keys_array@;
        let mut row: usize = 0;
        while row < ROWS
            invariant
                row <= ROWS,
                col_offset + COLS <= 256,
                self.registered_local_keys_array@ == spec_scan(
                    start,
                    levels@.take(row as int),
                    col_offset,
                    layer,
                ),
            decreases ROWS - row,
        {
            proof {
                assert(levels@.take(row + 1).drop_last() =~= levels@.take(row as int));
                assert(levels@.take(row + 1).last() == levels@[row as int]);
            }
            self.scan_row(row as u8, &levels[row], col_offset, layer);
            row += 1;
        }
        assert(levels@.take(ROWS as int) =~= levels@);
    }
}

/// What the scanner does next.
#[derive(Clone, Copy, Debug, PartialEq, Eq, Structural)]
pub enum ScanAction {
    /// Arm the wake-up pins and halt until a key wakes the keyboard up.
    Sleep,
    /// Scan the matrix.
    Scan,
    /// Rest for the time that a task rests while nothing is connected.
    Rest,
}

/// What the scanner keeps between cycles: the connection status as it
/// last saw it, and the timer that says when to look again.
pub struct ScanState {
    pub ble_status_local: BleStatus,
    pub ble_status_debounce: Debounce,
}

impl ScanState {
    /// The state of a scanner that starts at `now`: not connected, as far
    /// as it knows.
    pub fn new_at(now: u64, status_interval: u64) -> (state: ScanState)
        ensures
            state.ble_status_local == BleStatus::NotConnected,
            state.ble_status_debounce == Debounce::spec_new(now, status_interval),
    {
        ScanState {
            ble_status_local: BleStatus::NotConnected,
            ble_status_debounce: Debounce::new_at(now, status_interval),
        }
    }

    /// The state of a scanner that starts now.
    pub fn new(status_interval: u64) -> (state: ScanState)
        ensures
            state.ble_status_local == BleStatus::NotConnected,
            exists|now: u64|
                state.ble_status_debounce == #[trigger] Debounce::spec_new(now, status_interval),
    {
        ScanState::new_at(now_ticks(), status_interval)
    }

    /// The status that the scanner goes by after a cycle at `now`: when
    /// its timer fires and the shared status could be read, that status;
    /// else the one it had.
    pub open spec fn spec_status(self, shared: Option<BleStatus>, now: u64) -> BleStatus {
        match shared {
            Some(status) if self.ble_status_debounce.fires_at(now) => status,
            _ => self.ble_status_local,
        }
    }
}

/// What the scanner does in a cycle: sleep if the sleep timer has fired;
/// else scan if a host is connected, and rest if none is.
pub open spec fn spec_scan_action(sleep_due: bool, status: BleStatus) -> ScanAction {
    if sleep_due {
        ScanAction::Sleep
    } else if status == BleStatus::Connected {
        ScanAction::Scan
    } else {
        ScanAction::Rest
    }
}

/// One cycle of the scanner's decisions at `now`. `sleep_due` says whether
/// the sleep timer of the table has fired, and is false when the table
/// could not be locked; `shared_status` is the shared connection status,
/// if it could be read.
pub fn scan_grid_cycle_at(
    state: &mut ScanState,
    sleep_due: bool,
    shared_status: Option<BleStatus>,
    now: u64,
) -> (action: ScanAction)
    ensures
        final(state).ble_status_debounce == old(state).ble_status_debounce.looked_at(now),
        final(state).ble_status_local == old(state).spec_status(shared_status, now),
        action == spec_scan_action(sleep_due, old(state).spec_status(shared_status, now)),
{
    if state.ble_status_debounce.elapsed_at(now) {
        match shared_status {
            Some(status) => {
                state.ble_status_local = status;
            },
            None => {},
        }
    }
    if sleep_due {
        ScanAction::Sleep
    } else {
        match state.ble_status_local {
            BleStatus::Connected => ScanAction::Scan,
            BleStatus::NotConnected => ScanAction::Rest,
        }
    }
}

/// One cycle of the scanner's decisions, with the time of now.
pub fn scan_grid_cycle(
    state: &mut ScanState,
    sleep_due: bool,
    shared_status: Option<BleStatus>,
) -> (action: ScanAction)
    ensures
        exists|now: u64|
            {
                &&& final(state).ble_status_debounce == #[trigger] old(
                    state,
                ).ble_status_debounce.looked_at(now)
                &&& final(state).ble_status_local == old(state).spec_status(shared_status, now)
                &&& action == spec_scan_action(
                    sleep_due,
                    old(state).spec_status(shared_status, now),
                )
            },
{
    let now = now_ticks();
    scan_grid_cycle_at(state, sleep_due, shared_status, now)
}

} // verus!
