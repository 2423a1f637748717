use esp32_rustboard::ble::master::{self, receive_payload, BleKeyboardMaster, Transmission};
use esp32_rustboard::ble::slave::{self, BleKeyboardSlave};
use esp32_rustboard::ble::{BleStatus, Debounce, KeyboardKeyReport};
use esp32_rustboard::clock::{has_passed, later};
use esp32_rustboard::config::enums::Kc;
use esp32_rustboard::matrix::scan::{scan_grid_cycle, scan_grid_cycle_at, ScanAction, ScanState};
use esp32_rustboard::matrix::{KeyPos, PinMatrix, RegisteredMatrixKeys};
use esp32_rustboard::mouse::MouseKeyReport;
use esp32_rustboard::EspPowerLevel;

const NONE: KeyPos = KeyPos { row: 255, col: 255, layer: 255 };

fn keyboard(keys: [u8; 6]) -> KeyboardKeyReport {
    KeyboardKeyReport { modifiers: 0, reserved: 0, keys }
}

fn mouse(keys: &[Kc]) -> MouseKeyReport {
    let mut report = MouseKeyReport::default();
    for key in keys {
        report.set_command(key);
    }
    report
}

#[test]
fn an_unchanged_report_is_sent_once() {
    let mut master = BleKeyboardMaster::new();
    let first = master.maybe_send(keyboard([4, 0, 0, 0, 0, 0]), mouse(&[Kc::MoLC]));
    assert_eq!(first.keyboard, Some([0, 0, 4, 0, 0, 0, 0, 0]));
    assert_eq!(first.mouse, Some([1, 0, 0, 0, 0]));
    assert!(first.sent());
    let second = master.maybe_send(keyboard([4, 0, 0, 0, 0, 0]), mouse(&[Kc::MoLC]));
    assert_eq!(second.keyboard, None);
    assert_eq!(second.mouse, None);
    assert!(!second.sent());
}

#[test]
fn an_empty_report_is_not_sent_at_first() {
    let mut master = BleKeyboardMaster::new();
    let sent = master.maybe_send(KeyboardKeyReport::default(), MouseKeyReport::default());
    assert!(!sent.sent());
}

#[test]
fn each_report_is_sent_by_itself() {
    let mut master = BleKeyboardMaster::new();
    let sent = master.maybe_send(keyboard([4, 0, 0, 0, 0, 0]), MouseKeyReport::default());
    assert!(sent.keyboard.is_some());
    assert!(sent.mouse.is_none());
    let sent = master.maybe_send(keyboard([4, 0, 0, 0, 0, 0]), mouse(&[Kc::MoRC]));
    assert!(sent.keyboard.is_none());
    assert_eq!(sent.mouse, Some([2, 0, 0, 0, 0]));
    let sent = master.maybe_send(keyboard([0; 6]), mouse(&[Kc::MoRC]));
    assert_eq!(sent.keyboard, Some([0; 8]));
    assert!(sent.mouse.is_none());
}

#[test]
fn a_moving_cursor_is_sent_when_it_changes() {
    let mut master = BleKeyboardMaster::new();
    let sent = master.maybe_send(KeyboardKeyReport::default(), mouse(&[Kc::MoGR]));
    assert_eq!(sent.mouse, Some([0, 3, 0, 0, 0]));
    assert!(sent.keyboard.is_none());
    for _ in 0..3 {
        let sent = master.maybe_send(KeyboardKeyReport::default(), mouse(&[Kc::MoGR]));
        assert!(!sent.sent());
    }
    let sent = master.maybe_send(KeyboardKeyReport::default(), mouse(&[Kc::MoGR, Kc::MoGD]));
    assert_eq!(sent.mouse, Some([0, 3, 3, 0, 0]));
    let sent = master.maybe_send(KeyboardKeyReport::default(), MouseKeyReport::default());
    assert_eq!(sent.mouse, Some([0, 0, 0, 0, 0]));
    let sent = master.maybe_send(KeyboardKeyReport::default(), MouseKeyReport::default());
    assert!(sent.mouse.is_none());
}

#[test]
fn two_cycles_with_the_same_reports_send_each_once() {
    let mut master = BleKeyboardMaster::new();
    let keys = keyboard([4, 5, 0, 0, 0, 0]);
    let moving = mouse(&[Kc::MoGL, Kc::MoSU, Kc::MoLC]);
    let first = master::ble_tx_cycle(&mut master, true, keys, moving);
    assert_eq!(first.sent.keyboard, Some([0, 0, 4, 5, 0, 0, 0, 0]));
    assert_eq!(first.sent.mouse, Some([1, 253, 0, 255, 0]));
    let second = master::ble_tx_cycle(&mut master, true, keys, moving);
    assert_eq!(second.sent.keyboard, None);
    assert_eq!(second.sent.mouse, None);
    assert_eq!(second.status, BleStatus::Connected);
}

#[test]
fn cursors_compare_by_movement_and_scrolling() {
    assert!(mouse(&[Kc::MoGR]).same_cursor_as(&mouse(&[Kc::MoGR, Kc::MoLC, Kc::MoCF])));
    assert!(!mouse(&[Kc::MoGR]).same_cursor_as(&mouse(&[Kc::MoGL])));
    assert!(!mouse(&[Kc::MoGD]).same_cursor_as(&MouseKeyReport::default()));
    assert!(!mouse(&[Kc::MoSU]).same_cursor_as(&MouseKeyReport::default()));
    assert!(!mouse(&[Kc::MoSR]).same_cursor_as(&MouseKeyReport::default()));
}

#[test]
fn a_changed_speed_counts_as_a_changed_mouse_report() {
    let mut master = BleKeyboardMaster::new();
    let sent = master.maybe_send(KeyboardKeyReport::default(), mouse(&[Kc::MoCF]));
    assert_eq!(sent.mouse, Some([0; 5]));
    let sent = master.maybe_send(KeyboardKeyReport::default(), mouse(&[Kc::MoCF]));
    assert!(sent.mouse.is_none());
}

#[test]
fn change_checks_take_the_report_as_sent() {
    let mut master = BleKeyboardMaster::new();
    master.current_keyboard_report = keyboard([4, 0, 0, 0, 0, 0]);
    assert!(master.is_keyboard_report_changed());
    assert!(!master.is_keyboard_report_changed());
    assert_eq!(master.previous_keyboard_report.keys, [4, 0, 0, 0, 0, 0]);
    master.current_mouse_report = mouse(&[Kc::MoLC]);
    assert!(master.is_mouse_report_changed());
    assert!(!master.is_mouse_report_changed());
    assert_eq!(master.previous_mouse_report.construct(), [1, 0, 0, 0, 0]);
}

#[test]
fn the_primary_half_counts_the_other_half_as_a_connection() {
    assert!(!BleKeyboardMaster::connected(0));
    assert!(!BleKeyboardMaster::connected(1));
    assert!(BleKeyboardMaster::connected(2));
}

#[test]
fn the_primary_half_sends_only_when_connected() {
    let mut master = BleKeyboardMaster::new();
    let cycle = master::ble_tx_cycle(&mut master, false, keyboard([4, 0, 0, 0, 0, 0]), mouse(&[Kc::MoLC]));
    assert_eq!(cycle.status, BleStatus::NotConnected);
    assert_eq!(cycle.delay_ms, 100);
    assert!(!cycle.sent.sent());
    let cycle = master::ble_tx_cycle(&mut master, true, keyboard([4, 0, 0, 0, 0, 0]), mouse(&[Kc::MoLC]));
    assert_eq!(cycle.status, BleStatus::Connected);
    assert_eq!(cycle.delay_ms, 5);
    assert_eq!(cycle.sent.keyboard, Some([0, 0, 4, 0, 0, 0, 0, 0]));
    assert_eq!(cycle.sent.mouse, Some([1, 0, 0, 0, 0]));
    let cycle = master::ble_tx_cycle(&mut master, true, keyboard([4, 0, 0, 0, 0, 0]), mouse(&[Kc::MoLC]));
    assert!(!cycle.sent.sent());
    let nothing = Transmission { keyboard: None, mouse: None };
    assert!(!nothing.sent());
}

#[test]
fn a_payload_takes_the_place_of_the_first_bytes() {
    let mut report = [1, 2, 3, 4, 5, 6];
    receive_payload(&mut report, &[9, 8, 7, 6, 5, 4]);
    assert_eq!(report, [9, 8, 7, 6, 5, 4]);
    receive_payload(&mut report, &[0x16, 0]);
    assert_eq!(report, [0x16, 0, 7, 6, 5, 4]);
    receive_payload(&mut report, &[]);
    assert_eq!(report, [0x16, 0, 7, 6, 5, 4]);
    receive_payload(&mut report, &[1, 2, 3, 4, 5, 6, 7, 8]);
    assert_eq!(report, [1, 2, 3, 4, 5, 6]);
}

#[test]
fn the_secondary_half_sends_changed_bytes_once() {
    let mut slave = BleKeyboardSlave::new();
    assert_eq!(slave.maybe_send(&keyboard([0; 6])), None);
    assert_eq!(slave.maybe_send(&keyboard([0x16, 0, 0, 0, 0, 0])), Some([0x16, 0, 0, 0, 0, 0]));
    assert_eq!(slave.maybe_send(&keyboard([0x16, 0, 0, 0, 0, 0])), None);
    assert_eq!(slave.maybe_send(&keyboard([0, 0, 0, 0, 0, 0x16])), Some([0, 0, 0, 0, 0, 0x16]));
    slave.current_pressed_keys = [1, 0, 0, 0, 0, 0];
    assert!(slave.are_pressed_keys_changed());
    assert!(!slave.are_pressed_keys_changed());
    assert_eq!(slave.previous_pressed_keys, [1, 0, 0, 0, 0, 0]);
}

#[test]
fn the_secondary_half_sends_only_when_connected() {
    let mut slave = BleKeyboardSlave::new();
    let cycle = slave::ble_tx_cycle(&mut slave, false, &keyboard([0x16, 0, 0, 0, 0, 0]));
    assert_eq!(cycle.status, BleStatus::NotConnected);
    assert_eq!(cycle.delay_ms, 100);
    assert_eq!(cycle.payload, None);
    let cycle = slave::ble_tx_cycle(&mut slave, true, &keyboard([0x16, 0, 0, 0, 0, 0]));
    assert_eq!(cycle.status, BleStatus::Connected);
    assert_eq!(cycle.delay_ms, 1);
    assert_eq!(cycle.payload, Some([0x16, 0, 0, 0, 0, 0]));
    let cycle = slave::ble_tx_cycle(&mut slave, true, &keyboard([0x16, 0, 0, 0, 0, 0]));
    assert_eq!(cycle.payload, None);
}

#[test]
fn instants_and_intervals() {
    assert_eq!(later(10, 5), 15);
    assert_eq!(later(u64::MAX - 1, 1), u64::MAX);
    assert_eq!(later(u64::MAX - 1, 2), u64::MAX);
    assert_eq!(later(u64::MAX, u64::MAX), u64::MAX);
    assert!(has_passed(100, 20, 120));
    assert!(!has_passed(100, 20, 119));
    assert!(!has_passed(100, 20, 50));
    assert!(has_passed(100, 0, 100));
    assert!(!has_passed(1, u64::MAX, u64::MAX));
    assert!(has_passed(0, u64::MAX, u64::MAX));
}

#[test]
fn the_timer_fires_after_its_interval() {
    let mut timer = Debounce::new_at(100, 50);
    assert_eq!(timer.previous_instant, 100);
    assert_eq!(timer.debounce, 50);
    assert!(!timer.elapsed_at(149));
    assert_eq!(timer.previous_instant, 100);
    assert_eq!(timer.current_instant, 149);
    assert_eq!(timer.future_instant, 150);
    assert!(timer.elapsed_at(150));
    assert_eq!(timer.previous_instant, 150);
    assert!(!timer.elapsed_at(199));
    assert!(timer.elapsed_at(260));
    assert_eq!(timer.previous_instant, 260);
}

#[test]
fn a_timer_that_is_put_off_fires_later() {
    let mut timer = Debounce::new_at(0, 50);
    timer.reset_at(100, 30);
    assert_eq!(timer.previous_instant, 130);
    assert!(!timer.elapsed_at(179));
    assert!(timer.elapsed_at(180));
    timer.reset_at(u64::MAX - 5, 30);
    assert_eq!(timer.previous_instant, u64::MAX);
    assert!(!timer.elapsed_at(u64::MAX));
    assert_eq!(timer.future_instant, u64::MAX);
}

#[test]
fn the_timer_with_the_clock() {
    let mut timer = Debounce::new(0);
    assert!(timer.elapsed());
    let mut never = Debounce::new(u64::MAX);
    assert!(!never.elapsed() || never.previous_instant == 0);
    timer.reset(u64::MAX);
    assert_eq!(timer.previous_instant, u64::MAX);
    assert!(!timer.elapsed());
}

#[test]
fn the_scanner_buffers_six_keys() {
    let mut matrix = PinMatrix::new();
    assert_eq!(matrix.registered_local_keys_array, [NONE; 6]);
    for col in 0..8 {
        matrix.register(KeyPos::new(1, col, 0));
    }
    let expected = [
        KeyPos::new(1, 0, 0),
        KeyPos::new(1, 1, 0),
        KeyPos::new(1, 2, 0),
        KeyPos::new(1, 3, 0),
        KeyPos::new(1, 4, 0),
        KeyPos::new(1, 5, 0),
    ];
    assert_eq!(matrix.registered_local_keys_array, expected);
    matrix.registered_local_keys_array[2] = NONE;
    matrix.register(KeyPos::new(3, 3, 1));
    assert_eq!(matrix.registered_local_keys_array[2], KeyPos::new(3, 3, 1));
}

#[test]
fn a_sampled_row_gives_its_keys() {
    let mut matrix = PinMatrix::new();
    matrix.scan_row(2, &[false, true, false, false, true, false], 0, 1);
    assert_eq!(matrix.registered_local_keys_array[0], KeyPos::new(2, 1, 1));
    assert_eq!(matrix.registered_local_keys_array[1], KeyPos::new(2, 4, 1));
    assert_eq!(matrix.registered_local_keys_array[2], NONE);
    let mut matrix = PinMatrix::new();
    matrix.scan_row(3, &[true, false, false, false, false, true], 6, 0);
    assert_eq!(matrix.registered_local_keys_array[0], KeyPos::new(3, 6, 0));
    assert_eq!(matrix.registered_local_keys_array[1], KeyPos::new(3, 11, 0));
}

#[test]
fn a_sampled_matrix_gives_six_keys_at_most() {
    let mut matrix = PinMatrix::new();
    let mut levels = [[false; 6]; 4];
    levels[0][5] = true;
    levels[2][0] = true;
    levels[2][3] = true;
    matrix.standard_scan(&levels, 0, 0);
    assert_eq!(matrix.registered_local_keys_array[0], KeyPos::new(0, 5, 0));
    assert_eq!(matrix.registered_local_keys_array[1], KeyPos::new(2, 0, 0));
    assert_eq!(matrix.registered_local_keys_array[2], KeyPos::new(2, 3, 0));
    assert_eq!(matrix.registered_local_keys_array[3], NONE);
    let mut matrix = PinMatrix::new();
    matrix.standard_scan(&[[true; 6]; 4], 6, 1);
    for (col, slot) in matrix.registered_local_keys_array.iter().enumerate() {
        assert_eq!(*slot, KeyPos::new(0, col as u8 + 6, 1));
    }
}

#[test]
fn a_scan_ends_in_the_table() {
    let mut matrix = PinMatrix::new();
    let mut table = RegisteredMatrixKeys::new_at(0, 1000);
    let mut levels = [[false; 6]; 4];
    levels[1][1] = true;
    levels[3][2] = true;
    matrix.standard_scan(&levels, 0, 0);
    table.store_keys_local_at(&mut matrix.registered_local_keys_array, 10);
    assert_eq!(matrix.registered_local_keys_array, [NONE; 6]);
    assert_eq!(table.len(), 2);
    assert_eq!(table.keys[0].position, KeyPos::new(1, 1, 0));
    assert_eq!(table.keys[1].position, KeyPos::new(3, 2, 0));
}

#[test]
fn the_scanner_rests_until_connected() {
    let mut state = ScanState::new_at(0, 500);
    assert_eq!(state.ble_status_local, BleStatus::NotConnected);
    let action = scan_grid_cycle_at(&mut state, false, Some(BleStatus::Connected), 100);
    assert_eq!(action, ScanAction::Rest);
    let action = scan_grid_cycle_at(&mut state, false, None, 500);
    assert_eq!(action, ScanAction::Rest);
    assert_eq!(state.ble_status_debounce.previous_instant, 500);
    let action = scan_grid_cycle_at(&mut state, false, Some(BleStatus::Connected), 1000);
    assert_eq!(action, ScanAction::Scan);
    assert_eq!(state.ble_status_local, BleStatus::Connected);
    let action = scan_grid_cycle_at(&mut state, false, Some(BleStatus::NotConnected), 1100);
    assert_eq!(action, ScanAction::Scan);
    let action = scan_grid_cycle_at(&mut state, false, Some(BleStatus::NotConnected), 1500);
    assert_eq!(action, ScanAction::Rest);
}

#[test]
fn the_scanner_sleeps_when_no_key_was_detected_for_long() {
    let mut state = ScanState::new_at(0, 500);
    let mut table = RegisteredMatrixKeys::new_at(0, 10_000);
    let due = table.sleep_condition.elapsed_at(9_999);
    assert_eq!(scan_grid_cycle_at(&mut state, due, Some(BleStatus::Connected), 9_999), ScanAction::Scan);
    let due = table.sleep_condition.elapsed_at(10_000);
    assert_eq!(scan_grid_cycle_at(&mut state, due, Some(BleStatus::Connected), 10_000), ScanAction::Sleep);
    assert_eq!(state.ble_status_local, BleStatus::Connected);
}

#[test]
fn the_scanner_with_the_clock() {
    let mut state = ScanState::new(0);
    assert_eq!(scan_grid_cycle(&mut state, false, Some(BleStatus::Connected)), ScanAction::Scan);
    assert_eq!(scan_grid_cycle(&mut state, true, Some(BleStatus::Connected)), ScanAction::Sleep);
    let mut state = ScanState::new(u64::MAX);
    state.ble_status_debounce.reset(u64::MAX);
    assert_eq!(scan_grid_cycle(&mut state, false, Some(BleStatus::Connected)), ScanAction::Rest);
}

#[test]
fn power_levels_are_told_apart() {
    assert_eq!(EspPowerLevel::Negative0, EspPowerLevel::Negative0);
    assert_ne!(EspPowerLevel::Negative0, EspPowerLevel::Positive3);
}
