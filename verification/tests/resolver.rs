use esp32_rustboard::ble::ble_send_keys::{remove_keys, send_keys, BleKeyboard};
use esp32_rustboard::ble::KeyboardKeyReport;
use esp32_rustboard::config::enums::Kc;
use esp32_rustboard::config::layers::Layer;
use esp32_rustboard::key_provision::{
    add_keys_master, add_keys_slave, remove_keys_master, remove_keys_slave,
};
use esp32_rustboard::matrix::KeyPos;
use esp32_rustboard::mouse::MouseKeyReport;

struct Board {
    keyboard: KeyboardKeyReport,
    mouse: MouseKeyReport,
    layer: usize,
}

fn board() -> Board {
    Board { keyboard: KeyboardKeyReport::default(), mouse: MouseKeyReport::default(), layer: 0 }
}

fn press(board: &mut Board, key: Kc) {
    add_keys_master(&mut board.keyboard, &mut board.mouse, &key, &mut board.layer);
}

fn release(board: &mut Board, key: Kc) {
    remove_keys_master(&mut board.keyboard, &mut board.mouse, &key, &mut board.layer);
}

#[test]
fn a_new_keyboard_report_is_empty() {
    let report = KeyboardKeyReport::default();
    assert_eq!(report.modifiers, 0);
    assert_eq!(report.reserved, 0);
    assert_eq!(report.keys, [0; 6]);
    assert_eq!(report.construct(), [0; 8]);
}

#[test]
fn report_bytes_are_modifiers_reserved_keys() {
    let report = KeyboardKeyReport { modifiers: 0x05, reserved: 0x09, keys: [4, 5, 6, 7, 8, 9] };
    assert_eq!(report.construct(), [0x05, 0x09, 4, 5, 6, 7, 8, 9]);
}

#[test]
fn a_key_takes_the_first_free_slot() {
    let mut b = board();
    press(&mut b, Kc::A);
    assert_eq!(b.keyboard.keys, [4, 0, 0, 0, 0, 0]);
    press(&mut b, Kc::B);
    assert_eq!(b.keyboard.keys, [4, 5, 0, 0, 0, 0]);
    release(&mut b, Kc::A);
    assert_eq!(b.keyboard.keys, [0, 5, 0, 0, 0, 0]);
    press(&mut b, Kc::C);
    assert_eq!(b.keyboard.keys, [6, 5, 0, 0, 0, 0]);
}

#[test]
fn a_key_is_reported_once() {
    let mut b = board();
    press(&mut b, Kc::A);
    press(&mut b, Kc::A);
    assert_eq!(b.keyboard.keys, [4, 0, 0, 0, 0, 0]);
}

#[test]
fn the_key_with_code_zero_is_never_reported() {
    let mut b = board();
    press(&mut b, Kc::No);
    assert_eq!(b.keyboard.keys, [0; 6]);
    for key in [Kc::A, Kc::B, Kc::C, Kc::D, Kc::E, Kc::F] {
        press(&mut b, key);
    }
    press(&mut b, Kc::No);
    assert_eq!(b.keyboard.keys, [4, 5, 6, 7, 8, 9]);
    release(&mut b, Kc::No);
    assert_eq!(b.keyboard.keys, [4, 5, 6, 7, 8, 9]);
}

#[test]
fn a_seventh_key_is_dropped() {
    let mut b = board();
    for key in [Kc::A, Kc::B, Kc::C, Kc::D, Kc::E, Kc::F] {
        press(&mut b, key);
    }
    assert_eq!(b.keyboard.keys, [4, 5, 6, 7, 8, 9]);
    press(&mut b, Kc::G);
    assert_eq!(b.keyboard.keys, [4, 5, 6, 7, 8, 9]);
    assert_eq!(b.keyboard.modifiers, 0);
    assert_eq!(b.layer, 0);
}

#[test]
fn no_more_than_six_keys_whatever_is_pressed() {
    let mut b = board();
    let keys = [
        Kc::A, Kc::B, Kc::MaCp, Kc::ModSh, Kc::D, Kc::E, Kc::F, Kc::G, Kc::H, Kc::MaEx, Kc::Z,
        Kc::MoGL, Kc::ComboCtrlD, Kc::N5,
    ];
    for key in keys {
        press(&mut b, key);
        let held = b.keyboard.keys.iter().filter(|code| **code != 0).count();
        assert!(held <= 6);
        for (i, code) in b.keyboard.keys.iter().enumerate() {
            for (j, other) in b.keyboard.keys.iter().enumerate() {
                assert!(i == j || *code == 0 || code != other);
            }
        }
    }
    assert_eq!(b.keyboard.keys, [4, 5, 6, 7, 8, 9]);
}

#[test]
fn releasing_a_key_that_is_not_reported_changes_nothing() {
    let mut b = board();
    press(&mut b, Kc::A);
    release(&mut b, Kc::B);
    assert_eq!(b.keyboard.keys, [4, 0, 0, 0, 0, 0]);
    release(&mut b, Kc::A);
    release(&mut b, Kc::A);
    assert_eq!(b.keyboard.keys, [0; 6]);
}

#[test]
fn modifiers_set_and_clear_their_bits() {
    let mut b = board();
    press(&mut b, Kc::ModSh);
    assert_eq!(b.keyboard.modifiers, 0x02);
    press(&mut b, Kc::ModCo);
    assert_eq!(b.keyboard.modifiers, 0x03);
    press(&mut b, Kc::ModAl);
    press(&mut b, Kc::ModSu);
    assert_eq!(b.keyboard.modifiers, 0x0F);
    release(&mut b, Kc::ModSh);
    assert_eq!(b.keyboard.modifiers, 0x0D);
    release(&mut b, Kc::ModSh);
    assert_eq!(b.keyboard.modifiers, 0x0D);
    assert_eq!(b.keyboard.keys, [0; 6]);
}

#[test]
fn a_macro_presses_and_releases_its_keys() {
    let mut b = board();
    press(&mut b, Kc::MaCp);
    assert_eq!(b.keyboard.modifiers, 0x01);
    assert_eq!(b.keyboard.keys, [0x06, 0, 0, 0, 0, 0]);
    release(&mut b, Kc::MaCp);
    assert_eq!(b.keyboard.modifiers, 0);
    assert_eq!(b.keyboard.keys, [0; 6]);
    press(&mut b, Kc::MaPipe);
    assert_eq!(b.keyboard.modifiers, 0x02);
    assert_eq!(b.keyboard.keys, [0x31, 0, 0, 0, 0, 0]);
}

#[test]
fn a_combo_presses_and_releases_what_it_reports() {
    let mut b = board();
    press(&mut b, Kc::ComboCtrlD);
    assert_eq!(b.keyboard.modifiers, 0x01);
    assert_eq!(b.keyboard.keys, [0x2A, 0, 0, 0, 0, 0]);
    release(&mut b, Kc::ComboCtrlD);
    assert_eq!(b.keyboard.modifiers, 0);
    assert_eq!(b.keyboard.keys, [0; 6]);
}

#[test]
fn mouse_keys_go_to_the_mouse_report() {
    let mut b = board();
    press(&mut b, Kc::MoGR);
    press(&mut b, Kc::MoLC);
    assert_eq!(b.mouse.construct(), [1, 3, 0, 0, 0]);
    assert_eq!(b.keyboard.keys, [0; 6]);
    release(&mut b, Kc::MoGR);
    assert_eq!(b.mouse.construct(), [1, 0, 0, 0, 0]);
}

#[test]
fn layer_flush() {
    let mut b = board();
    press(&mut b, Kc::A);
    assert_eq!(b.keyboard.keys[0], 0x04);
    press(&mut b, Kc::ModSh);
    press(&mut b, Kc::L1);
    assert_eq!(b.layer, 1);
    assert_eq!(b.keyboard.keys, [0; 6]);
    assert_eq!(b.keyboard.modifiers, 0);
    release(&mut b, Kc::L1);
    assert_eq!(b.layer, 0);
    assert_eq!(b.keyboard.keys, [0; 6]);
    assert_eq!(b.keyboard.modifiers, 0);
}

#[test]
fn a_layer_key_leaves_the_mouse_report() {
    let mut b = board();
    press(&mut b, Kc::MoLC);
    press(&mut b, Kc::L2);
    assert_eq!(b.layer, 2);
    assert_eq!(b.mouse.construct(), [1, 0, 0, 0, 0]);
}

#[test]
fn a_released_layer_key_steps_down_by_one() {
    let mut b = board();
    press(&mut b, Kc::L3);
    assert_eq!(b.layer, 3);
    release(&mut b, Kc::L3);
    assert_eq!(b.layer, 2);
    release(&mut b, Kc::L1);
    assert_eq!(b.layer, 1);
    release(&mut b, Kc::L1);
    assert_eq!(b.layer, 0);
}

#[test]
fn the_base_layer_is_the_lowest() {
    let mut b = board();
    press(&mut b, Kc::A);
    release(&mut b, Kc::L1);
    assert_eq!(b.layer, 0);
    assert_eq!(b.keyboard.keys, [4, 0, 0, 0, 0, 0]);
}

#[test]
fn the_secondary_half_reports_positions() {
    let mut report = KeyboardKeyReport::default();
    add_keys_slave(&mut report, &KeyPos::new(2, 11, 0));
    assert_eq!(report.keys, [0x2B, 0, 0, 0, 0, 0]);
    add_keys_slave(&mut report, &KeyPos::new(1, 6, 0));
    assert_eq!(report.keys, [0x2B, 0x16, 0, 0, 0, 0]);
    add_keys_slave(&mut report, &KeyPos::new(2, 11, 1));
    assert_eq!(report.keys, [0x2B, 0x16, 0, 0, 0, 0]);
    remove_keys_slave(&mut report, &KeyPos::new(2, 11, 0));
    assert_eq!(report.keys, [0, 0x16, 0, 0, 0, 0]);
    remove_keys_slave(&mut report, &KeyPos::new(3, 3, 0));
    assert_eq!(report.keys, [0, 0x16, 0, 0, 0, 0]);
    assert_eq!(report.modifiers, 0);
}

#[test]
fn the_secondary_half_drops_a_seventh_key() {
    let mut report = KeyboardKeyReport::default();
    for col in 6..12 {
        add_keys_slave(&mut report, &KeyPos::new(1, col, 0));
    }
    assert_eq!(report.keys, [0x16, 0x17, 0x18, 0x19, 0x1A, 0x1B]);
    add_keys_slave(&mut report, &KeyPos::new(2, 6, 0));
    assert_eq!(report.keys, [0x16, 0x17, 0x18, 0x19, 0x1A, 0x1B]);
}

#[test]
fn two_layer_keyboard_keys_and_modifiers() {
    let mut keyboard = BleKeyboard::new();
    let mut layer = Layer::Base;
    send_keys(&mut keyboard, &Kc::A, &mut layer);
    send_keys(&mut keyboard, &Kc::ModSh, &mut layer);
    send_keys(&mut keyboard, &Kc::MaCp, &mut layer);
    assert_eq!(keyboard.key_report.keys, [4, 6, 0, 0, 0, 0]);
    assert_eq!(keyboard.key_report.modifiers, 0x03);
    assert_eq!(layer, Layer::Base);
    remove_keys(&mut keyboard, &Kc::MaCp, &mut layer);
    remove_keys(&mut keyboard, &Kc::A, &mut layer);
    assert_eq!(keyboard.key_report.keys, [0; 6]);
    assert_eq!(keyboard.key_report.modifiers, 0x02);
}

#[test]
fn two_layer_keyboard_layer_key_empties_the_report_both_ways() {
    let mut keyboard = BleKeyboard::new();
    let mut layer = Layer::Base;
    send_keys(&mut keyboard, &Kc::A, &mut layer);
    send_keys(&mut keyboard, &Kc::ModSh, &mut layer);
    send_keys(&mut keyboard, &Kc::L1, &mut layer);
    assert_eq!(layer, Layer::Upper);
    assert_eq!(keyboard.key_report.keys, [0; 6]);
    assert_eq!(keyboard.key_report.modifiers, 0);
    send_keys(&mut keyboard, &Kc::B, &mut layer);
    send_keys(&mut keyboard, &Kc::ModCo, &mut layer);
    remove_keys(&mut keyboard, &Kc::L1, &mut layer);
    assert_eq!(layer, Layer::Base);
    assert_eq!(keyboard.key_report.keys, [0; 6]);
    assert_eq!(keyboard.key_report.modifiers, 0);
}

#[test]
fn two_layer_keyboard_passes_over_mouse_keys_and_combos() {
    let mut keyboard = BleKeyboard::new();
    let mut layer = Layer::Upper;
    send_keys(&mut keyboard, &Kc::MoLC, &mut layer);
    send_keys(&mut keyboard, &Kc::ComboCtrlD, &mut layer);
    remove_keys(&mut keyboard, &Kc::MoLC, &mut layer);
    assert_eq!(keyboard.key_report.construct(), [0; 8]);
    assert_eq!(layer, Layer::Upper);
    assert!(BleKeyboard::connected(1));
    assert!(!BleKeyboard::connected(0));
}

#[test]
fn same_keyboard_reports_compare_equal() {
    let a = KeyboardKeyReport { modifiers: 1, reserved: 0, keys: [4, 0, 0, 0, 0, 0] };
    let b = KeyboardKeyReport { modifiers: 1, reserved: 0, keys: [4, 0, 0, 0, 0, 0] };
    assert!(a.same_as(&b));
    assert!(!a.same_as(&KeyboardKeyReport { modifiers: 1, reserved: 0, keys: [4, 0, 0, 0, 0, 5] }));
    assert!(!a.same_as(&KeyboardKeyReport { modifiers: 0, reserved: 0, keys: [4, 0, 0, 0, 0, 0] }));
    assert!(!a.same_as(&KeyboardKeyReport { modifiers: 1, reserved: 2, keys: [4, 0, 0, 0, 0, 0] }));
}
