use esp32_rustboard::config::enums::{HidModifiers, HidMouseKeys, Kc, KeyType};
use esp32_rustboard::config::layers::Layer;
use esp32_rustboard::config::layout::{colemakdh, dvorak, dvorak_5x3, qwerty, Layout};

#[test]
fn codes_of_ordinary_keys() {
    assert_eq!(Kc::No.code(), 0x00);
    assert_eq!(Kc::Undf.code(), 0x03);
    assert_eq!(Kc::A.code(), 0x04);
    assert_eq!(Kc::D.code(), 0x07);
    assert_eq!(Kc::Z.code(), 0x1D);
    assert_eq!(Kc::N0.code(), 0x27);
    assert_eq!(Kc::Bksp.code(), 0x2A);
    assert_eq!(Kc::Lg1.code(), 0x90);
    assert_eq!(Kc::Lg3.code(), 0x92);
    assert_eq!(Kc::Exs.code(), 0xA4);
}

#[test]
fn codes_of_internal_keys() {
    assert_eq!(Kc::L1.code(), 0xA5);
    assert_eq!(Kc::L5.code(), 0xA9);
    assert_eq!(Kc::ModSh.code(), 0xB0);
    assert_eq!(Kc::ModSu.code(), 0xB3);
    assert_eq!(Kc::MaLP.code(), 0xC0);
    assert_eq!(Kc::MaRB.code(), 0xCE);
    assert_eq!(Kc::MaPipe.code(), 0xDD);
    assert_eq!(Kc::MoGL.code(), 0xD0);
    assert_eq!(Kc::MoCS.code(), 0xDC);
    assert_eq!(Kc::ComboCtrlD.code(), 0xF0);
}

#[test]
fn default_key_is_undefined() {
    assert_eq!(Kc::default(), Kc::Undf);
}

#[test]
fn every_type_has_its_keys() {
    assert_eq!(KeyType::check_type(&Kc::A), KeyType::Key);
    assert_eq!(KeyType::check_type(&Kc::Undf), KeyType::Key);
    assert_eq!(KeyType::check_type(&Kc::No), KeyType::Key);
    assert_eq!(KeyType::check_type(&Kc::Exs), KeyType::Key);
    assert_eq!(KeyType::check_type(&Kc::L1), KeyType::Layer);
    assert_eq!(KeyType::check_type(&Kc::L5), KeyType::Layer);
    assert_eq!(KeyType::check_type(&Kc::ModSh), KeyType::Modifier);
    assert_eq!(KeyType::check_type(&Kc::ModSu), KeyType::Modifier);
    assert_eq!(KeyType::check_type(&Kc::MaCp), KeyType::Macro);
    assert_eq!(KeyType::check_type(&Kc::MaPipe), KeyType::Macro);
    assert_eq!(KeyType::check_type(&Kc::MoGL), KeyType::Mouse);
    assert_eq!(KeyType::check_type(&Kc::MoCS), KeyType::Mouse);
    assert_eq!(KeyType::check_type(&Kc::ComboCtrlD), KeyType::Combo);
}

#[test]
fn modifier_bits() {
    assert_eq!(HidModifiers::get_modifier(&Kc::ModCo), 0x01);
    assert_eq!(HidModifiers::get_modifier(&Kc::ModSh), 0x02);
    assert_eq!(HidModifiers::get_modifier(&Kc::ModAl), 0x04);
    assert_eq!(HidModifiers::get_modifier(&Kc::ModSu), 0x08);
    assert_eq!(HidModifiers::get_modifier(&Kc::A), 0);
    assert_eq!(HidModifiers::get_modifier(&Kc::L1), 0);
    assert_eq!(HidModifiers::No.bits(), 0x00);
    assert_eq!(HidModifiers::Control.bits(), 0x01);
    assert_eq!(HidModifiers::ControlShift.bits(), 0x03);
    assert_eq!(HidModifiers::Shift.bits(), 0x02);
    assert_eq!(HidModifiers::Alt.bits(), 0x04);
    assert_eq!(HidModifiers::Super.bits(), 0x08);
}

#[test]
fn mouse_button_bits() {
    assert_eq!(HidMouseKeys::LeftClick.bits(), 0x01);
    assert_eq!(HidMouseKeys::RightClick.bits(), 0x02);
    assert_eq!(HidMouseKeys::MiddleClick.bits(), 0x04);
    assert_eq!(HidMouseKeys::Back.bits(), 0x08);
    assert_eq!(HidMouseKeys::Forward.bits(), 0x10);
}

#[test]
fn macro_sequences() {
    assert_eq!(Kc::get_macro_sequence(&Kc::MaCp).as_slice(), &[Kc::ModCo, Kc::C]);
    assert_eq!(Kc::get_macro_sequence(&Kc::MaPa).as_slice(), &[Kc::ModCo, Kc::V]);
    assert_eq!(Kc::get_macro_sequence(&Kc::MaRP).as_slice(), &[Kc::ModSh, Kc::N0]);
    assert_eq!(Kc::get_macro_sequence(&Kc::MaEx).as_slice(), &[Kc::ModSh, Kc::N1]);
    assert_eq!(Kc::get_macro_sequence(&Kc::MaAt).as_slice(), &[Kc::ModSh, Kc::N2]);
    assert_eq!(Kc::get_macro_sequence(&Kc::MaHs).as_slice(), &[Kc::ModSh, Kc::N3]);
    assert_eq!(Kc::get_macro_sequence(&Kc::MaDl).as_slice(), &[Kc::ModSh, Kc::N4]);
    assert_eq!(Kc::get_macro_sequence(&Kc::MaMd).as_slice(), &[Kc::ModSh, Kc::N5]);
    assert_eq!(Kc::get_macro_sequence(&Kc::MaCa).as_slice(), &[Kc::ModSh, Kc::N6]);
    assert_eq!(Kc::get_macro_sequence(&Kc::MaAmp).as_slice(), &[Kc::ModSh, Kc::N7]);
    assert_eq!(Kc::get_macro_sequence(&Kc::MaAst).as_slice(), &[Kc::ModSh, Kc::N8]);
    assert_eq!(Kc::get_macro_sequence(&Kc::MaLP).as_slice(), &[Kc::ModSh, Kc::N9]);
    assert_eq!(Kc::get_macro_sequence(&Kc::MaSL).as_slice(), &[Kc::ModSu, Kc::L]);
    assert_eq!(Kc::get_macro_sequence(&Kc::MaLB).as_slice(), &[Kc::ModSh, Kc::Lbrk]);
    assert_eq!(Kc::get_macro_sequence(&Kc::MaRB).as_slice(), &[Kc::ModSh, Kc::Rbrk]);
    assert_eq!(Kc::get_macro_sequence(&Kc::MaPipe).as_slice(), &[Kc::ModSh, Kc::Bksl]);
}

#[test]
fn no_macro_no_sequence() {
    assert!(Kc::get_macro_sequence(&Kc::A).is_empty());
    assert!(Kc::get_macro_sequence(&Kc::ModSh).is_empty());
    assert!(Kc::get_macro_sequence(&Kc::ComboCtrlD).is_empty());
}

#[test]
fn expansions() {
    assert_eq!(Kc::expansion(&Kc::MaCp).as_slice(), &[Kc::ModCo, Kc::C]);
    assert_eq!(Kc::expansion(&Kc::MaPipe).as_slice(), &[Kc::ModSh, Kc::Bksl]);
    assert_eq!(Kc::expansion(&Kc::ComboCtrlD).as_slice(), &[Kc::ModCo, Kc::Bksp]);
    assert!(Kc::expansion(&Kc::A).is_empty());
    assert!(Kc::expansion(&Kc::L1).is_empty());
    assert!(Kc::expansion(&Kc::MoGL).is_empty());
}

#[test]
fn combo_lists() {
    let (reported, chord) = Kc::get_combo(&Kc::ComboCtrlD);
    assert_eq!(reported.as_slice(), &[Kc::ModCo, Kc::Bksp]);
    assert_eq!(chord.as_slice(), &[Kc::ModCo, Kc::D]);
    let (reported, chord) = Kc::get_combo(&Kc::Undf);
    assert!(reported.is_empty());
    assert!(chord.is_empty());
}

#[test]
fn layer_numbers() {
    assert_eq!(Layout::get_layer(&Kc::L1), 1);
    assert_eq!(Layout::get_layer(&Kc::L2), 2);
    assert_eq!(Layout::get_layer(&Kc::L3), 3);
    assert_eq!(Layout::get_layer(&Kc::L4), 4);
    assert_eq!(Layout::get_layer(&Kc::L5), 5);
    assert_eq!(Layout::get_layer(&Kc::A), 0);
    assert_eq!(Layer::Base.index(), 0);
    assert_eq!(Layer::Upper.index(), 1);
}

#[test]
fn default_layout_maps_nothing() {
    let layout = Layout::default();
    assert_eq!(layout.get(0, 0, 0), Some(Kc::Undf));
    assert_eq!(layout.get(1, 3, 11), Some(Kc::Undf));
    assert_eq!(layout.combos, [Kc::Undf]);
}

#[test]
fn layout_has_no_place_outside_the_matrix() {
    let layout = qwerty::layout();
    assert_eq!(layout.get(2, 0, 0), None);
    assert_eq!(layout.get(0, 4, 0), None);
    assert_eq!(layout.get(0, 0, 12), None);
    assert_eq!(layout.get(255, 255, 255), None);
}

#[test]
fn qwerty_keys() {
    let layout = qwerty::layout();
    assert_eq!(layout.get(0, 0, 0), Some(Kc::Esc));
    assert_eq!(layout.get(0, 0, 1), Some(Kc::Q));
    assert_eq!(layout.get(0, 1, 1), Some(Kc::A));
    assert_eq!(layout.get(0, 0, 11), Some(Kc::Lbrk));
    assert_eq!(layout.get(0, 2, 0), Some(Kc::ModCo));
    assert_eq!(layout.get(0, 3, 8), Some(Kc::L1));
    assert_eq!(layout.get(1, 0, 7), Some(Kc::MaLP));
    assert_eq!(layout.get(1, 2, 5), Some(Kc::MaSL));
    assert_eq!(layout.get(1, 3, 11), Some(Kc::Undf));
}

#[test]
fn dvorak_keys() {
    let layout = dvorak::layout();
    assert_eq!(layout.get(0, 0, 1), Some(Kc::Qte));
    assert_eq!(layout.get(0, 1, 1), Some(Kc::A));
    assert_eq!(layout.get(0, 1, 6), Some(Kc::D));
    assert_eq!(layout.get(0, 2, 11), Some(Kc::Eq));
    assert_eq!(layout.get(0, 3, 8), Some(Kc::L1));
    assert_eq!(layout.get(1, 0, 1), Some(Kc::ModSu));
    assert_eq!(layout.get(1, 1, 7), Some(Kc::ArL));
    assert_eq!(layout.combos, [Kc::Undf]);
}

#[test]
fn dvorak_5x3_keys() {
    let layout = dvorak_5x3::layout();
    assert_eq!(layout.get(0, 0, 0), Some(Kc::Undf));
    assert_eq!(layout.get(0, 0, 1), Some(Kc::Qte));
    assert_eq!(layout.get(0, 2, 1), Some(Kc::ModCo));
    assert_eq!(layout.get(1, 0, 6), Some(Kc::MaSL));
    assert_eq!(layout.get(1, 2, 5), Some(Kc::ModAl));
    assert_eq!(layout.get(1, 2, 10), Some(Kc::Scn));
}

#[test]
fn colemakdh_keys() {
    let layout = colemakdh::layout();
    assert_eq!(layout.get(0, 0, 3), Some(Kc::F));
    assert_eq!(layout.get(0, 0, 10), Some(Kc::Scn));
    assert_eq!(layout.get(0, 1, 11), Some(Kc::Mns));
    assert_eq!(layout.get(0, 2, 0), Some(Kc::ModCo));
    assert_eq!(layout.get(0, 3, 7), Some(Kc::Entr));
    assert_eq!(layout.get(1, 1, 1), Some(Kc::ModAl));
    assert_eq!(layout.get(1, 2, 9), Some(Kc::Grav));
}

#[test]
fn the_keyboard_starts_with_the_dvorak_layout() {
    let layout = Layout::init();
    let dvorak = dvorak::layout();
    assert_eq!(layout.keymap, dvorak.keymap);
    assert_eq!(layout.combos, dvorak.combos);
}
