//! The keymap: which key stands at which position, layer by layer.
use vstd::prelude::*;

use crate::config::enums::{Kc, KeyType};
use crate::config::user_config::{KEYMAP_COLS, LAYERS, ROWS, USER_SET_COMBO_NUMBER};

pub mod colemakdh;
pub mod dvorak;
pub mod dvorak_5x3;
pub mod qwerty;

verus! {

/// A keymap and the combos that go with it. It is made once and only read
/// afterwards.
pub struct Layout {
    /// The key at each position: by layer, then row, then column.
    pub keymap: [[[Kc; KEYMAP_COLS]; ROWS]; LAYERS],
    /// The combos that are looked for. A key that is no combo stands for
    /// none.
    pub combos: [Kc; USER_SET_COMBO_NUMBER],
}

impl Default for Layout {
    /// A keymap with no key mapped and no combo.
    fn default() -> (layout: Layout)
        ensures
            forall|layer: usize, row: u8, col: u8|
                layout.maps(layer, row, col) ==> #[trigger] layout.spec_get(layer, row, col)
                    == Some(Kc::Undf),
            layout.combos@ == seq![Kc::Undf],
    {
        let layout = Layout { keymap: [[[Kc::Undf; KEYMAP_COLS]; ROWS]; LAYERS], combos: [Kc::Undf] };
        assert(layout.combos@ =~= seq![Kc::Undf]);
        layout
    }
}

impl Layout {
    /// True if the keymap has a place for this position on this layer.
    pub open spec fn maps(&self, layer: usize, row: u8, col: u8) -> bool {
        layer < LAYERS && row < ROWS && col < KEYMAP_COLS
    }

    /// The key at a position on a layer; `None` where the keymap has no
    /// such place.
    pub open spec fn spec_get(&self, layer: usize, row: u8, col: u8) -> Option<Kc> {
        if self.maps(layer, row, col) {
            Some(self.keymap@[layer as int]@[row as int]@[col as int])
        } else {
            None
        }
    }

    /// The key at a position on a layer; `None` where the keymap has no
    /// such place.
    pub fn get(&self, layer: usize, row: u8, col: u8) -> (key: Option<Kc>)
        ensures
            key == self.spec_get(layer, row, col),
    {
        if layer < LAYERS && (row as usize) < ROWS && (col as usize) < KEYMAP_COLS {
            Some(self.keymap[layer][row as usize][col as usize])
        } else {
            None
        }
    }

    /// The layout that the keyboard is built with.
    pub fn init() -> (layout: Layout)
        ensures
            layout == dvorak::spec_layout(),
    {
        dvorak::layout()
    }

    /// The layer that a layer key switches to: the keys `L1` to `L5` stand
    /// for the layers 1 to 5, whose codes follow one another. Any other key
    /// stands for the base layer, 0.
    pub open spec fn spec_layer(key: Kc) -> usize {
        if key.key_type() == KeyType::Layer {
            (key.spec_code() - 0xA4) as usize
        } else {
            0
        }
    }

    /// The layer that a layer key switches to, and 0 for any other key.
    pub fn get_layer(layer: &Kc) -> (number: usize)
        ensures
            number == Layout::spec_layer(*layer),
    {
        match layer {
            Kc::L1 => 1,
            Kc::L2 => 2,
            Kc::L3 => 3,
            Kc::L4 => 4,
            Kc::L5 => 5,
            _ => 0,
        }
    }
}

} // verus!
