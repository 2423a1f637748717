//! The Dvorak layout for a board of five columns and three rows a half, with a thumb row.
use vstd::prelude::*;

use crate::config::enums::Kc;
use crate::config::layout::Layout;

verus! {

/// The keymap: two layers of four rows of twelve columns, the six of the
/// primary half before the six of the secondary half.
pub open spec fn spec_layout() -> Layout {
    Layout {
        keymap: [
            [
                [Kc::Undf, Kc::Qte, Kc::Com, Kc::Per, Kc::P, Kc::Y, Kc::F, Kc::G, Kc::C, Kc::R, Kc::L, Kc::Undf],
                [Kc::Undf, Kc::A, Kc::O, Kc::E, Kc::U, Kc::I, Kc::D, Kc::H, Kc::T, Kc::N, Kc::S, Kc::Undf],
                [Kc::Undf, Kc::ModCo, Kc::Q, Kc::J, Kc::K, Kc::X, Kc::B, Kc::M, Kc::W, Kc::V, Kc::Z, Kc::Undf],
                [Kc::Undf, Kc::Undf, Kc::Undf, Kc::ModSu, Kc::Spac, Kc::ModSh, Kc::Tab, Kc::Entr, Kc::L1, Kc::Undf, Kc::Undf, Kc::Undf],
            ],
            [
                [Kc::Undf, Kc::Esc, Kc::N7, Kc::N8, Kc::N9, Kc::Pscr, Kc::MaSL, Kc::MaLP, Kc::MaRP, Kc::Eq, Kc::Fsl, Kc::Undf],
                [Kc::Undf, Kc::Bksp, Kc::N4, Kc::N5, Kc::N6, Kc::Del, Kc::Mns, Kc::ArL, Kc::ArD, Kc::ArU, Kc::ArR, Kc::Undf],
                [Kc::Undf, Kc::N0, Kc::N1, Kc::N2, Kc::N3, Kc::ModAl, Kc::Bksl, Kc::Lbrk, Kc::Rbrk, Kc::Grav, Kc::Scn, Kc::Undf],
                [Kc::Undf, Kc::Undf, Kc::Undf, Kc::ModSu, Kc::Spac, Kc::ModSh, Kc::Tab, Kc::Entr, Kc::L1, Kc::Undf, Kc::Undf, Kc::Undf],
            ],
        ],
        combos: [Kc::Undf],
    }
}

/// The Dvorak layout for a board of five columns and three rows a half, with a thumb row.
pub fn layout() -> (layout: Layout)
    ensures
        layout == spec_layout(),
{
    Layout {
        keymap: [
            [
                [Kc::Undf, Kc::Qte, Kc::Com, Kc::Per, Kc::P, Kc::Y, Kc::F, Kc::G, Kc::C, Kc::R, Kc::L, Kc::Undf],
                [Kc::Undf, Kc::A, Kc::O, Kc::E, Kc::U, Kc::I, Kc::D, Kc::H, Kc::T, Kc::N, Kc::S, Kc::Undf],
                [Kc::Undf, Kc::ModCo, Kc::Q, Kc::J, Kc::K, Kc::X, Kc::B, Kc::M, Kc::W, Kc::V, Kc::Z, Kc::Undf],
                [Kc::Undf, Kc::Undf, Kc::Undf, Kc::ModSu, Kc::Spac, Kc::ModSh, Kc::Tab, Kc::Entr, Kc::L1, Kc::Undf, Kc::Undf, Kc::Undf],
            ],
            [
                [Kc::Undf, Kc::Esc, Kc::N7, Kc::N8, Kc::N9, Kc::Pscr, Kc::MaSL, Kc::MaLP, Kc::MaRP, Kc::Eq, Kc::Fsl, Kc::Undf],
                [Kc::Undf, Kc::Bksp, Kc::N4, Kc::N5, Kc::N6, Kc::Del, Kc::Mns, Kc::ArL, Kc::ArD, Kc::ArU, Kc::ArR, Kc::Undf],
                [Kc::Undf, Kc::N0, Kc::N1, Kc::N2, Kc::N3, Kc::ModAl, Kc::Bksl, Kc::Lbrk, Kc::Rbrk, Kc::Grav, Kc::Scn, Kc::Undf],
                [Kc::Undf, Kc::Undf, Kc::Undf, Kc::ModSu, Kc::Spac, Kc::ModSh, Kc::Tab, Kc::Entr, Kc::L1, Kc::Undf, Kc::Undf, Kc::Undf],
            ],
        ],
        combos: [Kc::Undf],
    }
}

} // verus!
