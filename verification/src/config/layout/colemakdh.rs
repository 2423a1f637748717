//! The Colemak-DH layout.
use vstd::prelude::*;

use crate::config::enums::Kc;
use crate::config::layout::Layout;

verus! {

/// The keymap: two layers of four rows of twelve columns, the six of the
/// primary half before the six of the secondary half.
pub open spec fn spec_layout() -> Layout {
    Layout {
        keymap: [
            [
                [Kc::Esc, Kc::Q, Kc::W, Kc::F, Kc::P, Kc::B, Kc::J, Kc::L, Kc::U, Kc::Y, Kc::Scn, Kc::Fsl],
                [Kc::Bksp, Kc::A, Kc::R, Kc::S, Kc::T, Kc::G, Kc::M, Kc::N, Kc::E, Kc::I, Kc::O, Kc::Mns],
                [Kc::ModCo, Kc::Z, Kc::X, Kc::C, Kc::D, Kc::V, Kc::K, Kc::H, Kc::Com, Kc::Per, Kc::Qte, Kc::Eq],
                [Kc::Undf, Kc::Undf, Kc::Undf, Kc::ModSu, Kc::Spac, Kc::ModSh, Kc::Tab, Kc::Entr, Kc::L1, Kc::Undf, Kc::Undf, Kc::Undf],
            ],
            [
                [Kc::Esc, Kc::Undf, Kc::N7, Kc::N8, Kc::N9, Kc::Pscr, Kc::Undf, Kc::MaLP, Kc::MaRP, Kc::Undf, Kc::Undf, Kc::Undf],
                [Kc::Bksp, Kc::ModAl, Kc::N4, Kc::N5, Kc::N6, Kc::Del, Kc::Undf, Kc::ArL, Kc::ArD, Kc::ArU, Kc::ArR, Kc::Undf],
                [Kc::ModCo, Kc::N0, Kc::N1, Kc::N2, Kc::N3, Kc::MaSL, Kc::Bksl, Kc::Lbrk, Kc::Rbrk, Kc::Grav, Kc::Undf, Kc::Undf],
                [Kc::Undf, Kc::Undf, Kc::Undf, Kc::ModSu, Kc::Spac, Kc::ModSh, Kc::Tab, Kc::Entr, Kc::L1, Kc::Undf, Kc::Undf, Kc::Undf],
            ],
        ],
        combos: [Kc::Undf],
    }
}

/// The Colemak-DH layout.
pub fn layout() -> (layout: Layout)
    ensures
        layout == spec_layout(),
{
    Layout {
        keymap: [
            [
                [Kc::Esc, Kc::Q, Kc::W, Kc::F, Kc::P, Kc::B, Kc::J, Kc::L, Kc::U, Kc::Y, Kc::Scn, Kc::Fsl],
                [Kc::Bksp, Kc::A, Kc::R, Kc::S, Kc::T, Kc::G, Kc::M, Kc::N, Kc::E, Kc::I, Kc::O, Kc::Mns],
                [Kc::ModCo, Kc::Z, Kc::X, Kc::C, Kc::D, Kc::V, Kc::K, Kc::H, Kc::Com, Kc::Per, Kc::Qte, Kc::Eq],
                [Kc::Undf, Kc::Undf, Kc::Undf, Kc::ModSu, Kc::Spac, Kc::ModSh, Kc::Tab, Kc::Entr, Kc::L1, Kc::Undf, Kc::Undf, Kc::Undf],
            ],
            [
                [Kc::Esc, Kc::Undf, Kc::N7, Kc::N8, Kc::N9, Kc::Pscr, Kc::Undf, Kc::MaLP, Kc::MaRP, Kc::Undf, Kc::Undf, Kc::Undf],
                [Kc::Bksp, Kc::ModAl, Kc::N4, Kc::N5, Kc::N6, Kc::Del, Kc::Undf, Kc::ArL, Kc::ArD, Kc::ArU, Kc::ArR, Kc::Undf],
                [Kc::ModCo, Kc::N0, Kc::N1, Kc::N2, Kc::N3, Kc::MaSL, Kc::Bksl, Kc::Lbrk, Kc::Rbrk, Kc::Grav, Kc::Undf, Kc::Undf],
                [Kc::Undf, Kc::Undf, Kc::Undf, Kc::ModSu, Kc::Spac, Kc::ModSh, Kc::Tab, Kc::Entr, Kc::L1, Kc::Undf, Kc::Undf, Kc::Undf],
            ],
        ],
        combos: [Kc::Undf],
    }
}

} // verus!
