//! The parameters that a keyboard is built with.
use vstd::prelude::*;

verus! {

/// Rows of the switch matrix of one half.
pub const ROWS: usize = 4;

/// Columns of the switch matrix of one half.
pub const COLS: usize = 6;

/// Columns of a keymap: those of both halves, side by side.
pub const KEYMAP_COLS: usize = 12;

/// Layers of a keymap.
pub const LAYERS: usize = 2;

/// Number of combos that a layout registers.
pub const USER_SET_COMBO_NUMBER: usize = 1;

/// How far a directional mouse command moves beyond one step, at fast
/// speed.
pub const CURSOR_PARAM_FAST: u8 = 6;

/// How far a directional mouse command moves beyond one step, at normal
/// speed.
pub const CURSOR_PARAM_NORMAL: u8 = 2;

/// How far a directional mouse command moves beyond one step, at slow
/// speed.
pub const CURSOR_PARAM_SLOW: u8 = 0;

/// How many keys the table of registered keys can track at once.
pub const REGISTERED_KEYS_ARRAY_SIZE: usize = 12;

/// Where the row of a key stands in the byte that the halves exchange.
pub const BIT_SHIFT: u8 = 4;

/// Offset of the columns of the primary half in the keymap.
pub const MASTER_COL_OFFSET: u8 = 0;

/// Offset of the columns of the secondary half in the keymap: they follow
/// those of the primary half.
pub const SLAVE_COL_OFFSET: u8 = 6;

/// Debounce interval of a key on the primary half, in milliseconds.
pub const MASTER_KEY_DEBOUNCE_MS: u64 = 20;

/// Debounce interval of a key on the secondary half, in milliseconds.
pub const SLAVE_KEY_DEBOUNCE_MS: u64 = 10;

/// How often the scanner looks at the connection status, in milliseconds.
pub const BLE_STATUS_DEBOUNCE_MS: u64 = 500;

/// Inactivity after which the keyboard goes to sleep, in milliseconds.
pub const ENTER_SLEEP_DEBOUNCE_MS: u64 = 600000;

/// How long a task rests while the keyboard is not connected, in
/// milliseconds.
pub const NOT_CONNECTED_DELAY_MS: u64 = 100;

} // verus!
