//! The Dvorak layout.
use vstd::prelude::*;

use crate::config::enums::Kc;
use crate::config::layout::Layout;

verus! {

/// The keymap: two layers of four rows of twelve columns, the six of the
/// primary half before the six of the secondary half.
pub open spec fn spec_layout() -> Layout {
    Layout {
        keymap: [
            [
                [Kc::Esc, Kc::Qte, Kc::Com, Kc::Per, Kc::P, Kc::Y, Kc::F, Kc::G, Kc::C, Kc::R, Kc::L, Kc::Fsl],
                [Kc::Bksp, Kc::A, Kc::O, Kc::E, Kc::U, Kc::I, Kc::D, Kc::H, Kc::T, Kc::N, Kc::S, Kc::Mns],
                [Kc::ModCo, Kc::Scn, Kc::Q, Kc::J, Kc::K, Kc::X, Kc::B, Kc::M, Kc::W, Kc::V, Kc::Z, Kc::Eq],
                [Kc::Undf, Kc::Undf, Kc::Undf, Kc::ModSu, Kc::Spac, Kc::ModSh, Kc::Tab, Kc::Entr, Kc::L1, Kc::Undf, Kc::Undf, Kc::Undf],
            ],
            [
                [Kc::Esc, Kc::ModSu, Kc::N7, Kc::N8, Kc::N9, Kc::Pscr, Kc::Undf, Kc::MaLP, Kc::MaRP, Kc::Undf, Kc::Undf, Kc::Undf],
                [Kc::Bksp, Kc::Undf, Kc::N4, Kc::N5, Kc::N6, Kc::Del, Kc::Undf, Kc::ArL, Kc::ArD, Kc::ArU, Kc::ArR, Kc::Undf],
                [Kc::ModCo, Kc::N0, Kc::N1, Kc::N2, Kc::N3, Kc::MaSL, Kc::Bksl, Kc::Lbrk, Kc::Rbrk, Kc::Grav, Kc::Undf, Kc::Undf],
                [Kc::Undf, Kc::Undf, Kc::Undf, Kc::ModSu, Kc::Spac, Kc::ModSh, Kc::Tab, Kc::Entr, Kc::L1, Kc::Undf, Kc::Undf, Kc::Undf],
            ],
        ],
        combos: [Kc::Undf],
    }
}

/// The Dvorak layout.
pub fn layout() -> (layout: Layout)
    ensures
        layout == spec_layout(),
{
    Layout {
        keymap: [
            [
                [Kc::Esc, Kc::Qte, Kc::Com, Kc::Per, Kc::P, Kc::Y, Kc::F, Kc::G, Kc::C, Kc::R, Kc::L, Kc::Fsl],
                [Kc::Bksp, Kc::A, Kc::O, Kc::E, Kc::U, Kc::I, Kc::D, Kc::H, Kc::T, Kc::N, Kc::S, Kc::Mns],
                [Kc::ModCo, Kc::Scn, Kc::Q, Kc::J, Kc::K, Kc::X, Kc::B, Kc::M, Kc::W, Kc::V, Kc::Z, Kc::Eq],
                [Kc::Undf, Kc::Undf, Kc::Undf, Kc::ModSu, Kc::Spac, Kc::ModSh, Kc::Tab, Kc::Entr, Kc::L1, Kc::Undf, Kc::Undf, Kc::Undf],
            ],
            [
                [Kc::Esc, Kc::ModSu, Kc::N7, Kc::N8, Kc::N9, Kc::Pscr, Kc::Undf, Kc::MaLP, Kc::MaRP, Kc::Undf, Kc::Undf, Kc::Undf],
                [Kc::Bksp, Kc::Undf, Kc::N4, Kc::N5, Kc::N6, Kc::Del, Kc::Undf, Kc::ArL, Kc::ArD, Kc::ArU, Kc::ArR, Kc::Undf],
                [Kc::ModCo, Kc::N0, Kc::N1, Kc::N2, Kc::N3, Kc::MaSL, Kc::Bksl, Kc::Lbrk, Kc::Rbrk, Kc::Grav, Kc::Undf, Kc::Undf],
                [Kc::Undf, Kc::Undf, Kc::Undf, Kc::ModSu, Kc::Spac, Kc::ModSh, Kc::Tab, Kc::Entr, Kc::L1, Kc::Undf, Kc::Undf, Kc::Undf],
            ],
        ],
        combos: [Kc::Undf],
    }
}

} // verus!
