//! The QWERTY layout.
use vstd::prelude::*;

use crate::config::enums::Kc;
use crate::config::layout::Layout;

verus! {

/// The keymap: two layers of four rows of twelve columns, the six of the
/// primary half before the six of the secondary half.
pub open spec fn spec_layout() -> Layout {
    Layout {
        keymap: [
            [
                [Kc::Esc, Kc::Q, Kc::W, Kc::E, Kc::R, Kc::T, Kc::Y, Kc::U, Kc::I, Kc::O, Kc::P, Kc::Lbrk],
                [Kc::Bksp, Kc::A, Kc::S, Kc::D, Kc::F, Kc::G, Kc::H, Kc::J, Kc::K, Kc::L, Kc::Scn, Kc::Qte],
                [Kc::ModCo, Kc::Z, Kc::X, Kc::C, Kc::V, Kc::B, Kc::N, Kc::M, Kc::Com, Kc::Per, Kc::Fsl, Kc::Rbrk],
                [Kc::Undf, Kc::Undf, Kc::Undf, Kc::ModSu, Kc::Spac, Kc::ModSh, Kc::Tab, Kc::Entr, Kc::L1, Kc::Undf, Kc::Undf, Kc::Undf],
            ],
            [
                [Kc::Esc, Kc::Undf, Kc::N7, Kc::N8, Kc::N9, Kc::Pscr, Kc::Undf, Kc::MaLP, Kc::MaRP, Kc::Undf, Kc::Undf, Kc::Undf],
                [Kc::Bksp, Kc::ModAl, Kc::N4, Kc::N5, Kc::N6, Kc::Del, Kc::Undf, Kc::ArL, Kc::ArD, Kc::ArU, Kc::ArR, Kc::Undf],
                [Kc::ModCo, Kc::N0, Kc::N1, Kc::N2, Kc::N3, Kc::MaSL, Kc::Bksl, Kc::Lbrk, Kc::Rbrk, Kc::Grav, Kc::Undf, Kc::Undf],
                [Kc::Undf, Kc::Undf, Kc::Undf, Kc::ModSu, Kc::Spac, Kc::ModSh, Kc::Tab, Kc::Entr, Kc::L1, Kc::Undf, Kc::Undf, Kc::Undf],
            ],
        ],
        combos: [Kc::Undf],
    }
}

/// The QWERTY layout.
pub fn layout() -> (layout: Layout)
    ensures
        layout == spec_layout(),
{
    Layout {
        keymap: [
            [
                [Kc::Esc, Kc::Q, Kc::W, Kc::E, Kc::R, Kc::T, Kc::Y, Kc::U, Kc::I, Kc::O, Kc::P, Kc::Lbrk],
                [Kc::Bksp, Kc::A, Kc::S, Kc::D, Kc::F, Kc::G, Kc::H, Kc::J, Kc::K, Kc::L, Kc::Scn, Kc::Qte],
                [Kc::ModCo, Kc::Z, Kc::X, Kc::C, Kc::V, Kc::B, Kc::N, Kc::M, Kc::Com, Kc::Per, Kc::Fsl, Kc::Rbrk],
                [Kc::Undf, Kc::Undf, Kc::Undf, Kc::ModSu, Kc::Spac, Kc::ModSh, Kc::Tab, Kc::Entr, Kc::L1, Kc::Undf, Kc::Undf, Kc::Undf],
            ],
            [
                [Kc::Esc, Kc::Undf, Kc::N7, Kc::N8, Kc::N9, Kc::Pscr, Kc::Undf, Kc::MaLP, Kc::MaRP, Kc::Undf, Kc::Undf, Kc::Undf],
                [Kc::Bksp, Kc::ModAl, Kc::N4, Kc::N5, Kc::N6, Kc::Del, Kc::Undf, Kc::ArL, Kc::ArD, Kc::ArU, Kc::ArR, Kc::Undf],
                [Kc::ModCo, Kc::N0, Kc::N1, Kc::N2, Kc::N3, Kc::MaSL, Kc::Bksl, Kc::Lbrk, Kc::Rbrk, Kc::Grav, Kc::Undf, Kc::Undf],
                [Kc::Undf, Kc::Undf, Kc::Undf, Kc::ModSu, Kc::Spac, Kc::ModSh, Kc::Tab, Kc::Entr, Kc::L1, Kc::Undf, Kc::Undf, Kc::Undf],
            ],
        ],
        combos: [Kc::Undf],
    }
}

} // verus!
