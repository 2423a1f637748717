//! The transmitter of the primary half: it sends a report only when the
//! report has changed.
use vstd::prelude::*;

use crate::ble::{BleStatus, KeyboardKeyReport, KeyboardView};
use crate::config::user_config::NOT_CONNECTED_DELAY_MS;
use crate::mouse::{CursorSpeed, MouseKeyReport, MouseState};

verus! {

/// How long the transmitter rests after a cycle while a host is connected,
/// in milliseconds.
pub const CONNECTED_DELAY_MS: u64 = 5;

/// True if a keyboard report is sent: it differs from the one that was
/// sent last.
pub open spec fn keyboard_is_sent(baseline: KeyboardView, report: KeyboardView) -> bool {
    report != baseline
}

/// True if a mouse report is sent: it differs from the one that was sent
/// last.
pub open spec fn mouse_is_sent(baseline: MouseState, report: MouseState) -> bool {
    report != baseline
}

/// Sending is gated by change: reports that differ from those sent last
/// are sent, and the same reports handed over a second time are not sent
/// again. So the same contents twice in a row give one send.
pub proof fn lemma_send_once(
    keyboard_baseline: KeyboardView,
    mouse_baseline: MouseState,
    keyboard: KeyboardView,
    mouse: MouseState,
)
    ensures
        keyboard_is_sent(keyboard_baseline, keyboard) <==> keyboard != keyboard_baseline,
        mouse_is_sent(mouse_baseline, mouse) <==> mouse != mouse_baseline,
        !keyboard_is_sent(keyboard, keyboard),
        !mouse_is_sent(mouse, mouse),
{
}

/// What a cycle of the transmitter hands to the transport: the bytes of
/// each report that is to be sent.
pub struct Transmission {
    pub keyboard: Option<[u8; 8]>,
    pub mouse: Option<[u8; 5]>,
}

impl Transmission {
    /// True if anything is sent.
    pub open spec fn spec_sent(&self) -> bool {
        self.keyboard is Some || self.mouse is Some
    }

    /// True if anything is sent.
    pub fn sent(&self) -> (sent: bool)
        ensures
            sent == self.spec_sent(),
    {
        self.keyboard.is_some() || self.mouse.is_some()
    }
}

/// The reports of the primary half: those of the current cycle, and those
/// that were sent last.
pub struct BleKeyboardMaster {
    pub current_keyboard_report: KeyboardKeyReport,
    pub previous_keyboard_report: KeyboardKeyReport,
    pub current_mouse_report: MouseKeyReport,
    pub previous_mouse_report: MouseKeyReport,
}

impl BleKeyboardMaster {
    /// A transmitter that has sent nothing yet: all its reports are empty.
    pub fn new() -> (master: BleKeyboardMaster)
        ensures
            master.current_keyboard_report@ == master.previous_keyboard_report@,
            master.current_mouse_report@ == master.previous_mouse_report@,
            master.previous_keyboard_report@ == (KeyboardView {
                modifiers: 0,
                reserved: 0,
                keys: Seq::new(6, |i: int| 0u8),
            }),
            master.previous_mouse_report@ == (MouseState {
                buttons: 0,
                x: 0,
                y: 0,
                v_wheel: 0,
                h_wheel: 0,
                speed: CursorSpeed::Normal,
            }),
    {
        BleKeyboardMaster {
            current_keyboard_report: KeyboardKeyReport::default(),
            previous_keyboard_report: KeyboardKeyReport::default(),
            current_mouse_report: MouseKeyReport::default(),
            previous_mouse_report: MouseKeyReport::default(),
        }
    }

    /// True if a host is connected: the transport counts more than one
    /// connection, the first being the other half.
    pub fn connected(connected_count: usize) -> (connected: bool)
        ensures
            connected == (connected_count > 1),
    {
        connected_count > 1
    }

    /// Says whether the keyboard report differs from the one that was sent
    /// last, and takes it as sent if it does.
    pub fn is_keyboard_report_changed(&mut self) -> (changed: bool)
        ensures
            changed == keyboard_is_sent(
                old(self).previous_keyboard_report@,
                old(self).current_keyboard_report@,
            ),
            final(self).previous_keyboard_report@ == old(self).current_keyboard_report@,
            final(self).current_keyboard_report == old(self).current_keyboard_report,
            final(self).current_mouse_report == old(self).current_mouse_report,
            final(self).previous_mouse_report == old(self).previous_mouse_report,
    {
        if !self.previous_keyboard_report.same_as(&self.current_keyboard_report) {
            self.previous_keyboard_report = self.current_keyboard_report;
            true
        } else {
            false
        }
    }

    /// Says whether the mouse report differs from the one that was sent
    /// last, and takes it as sent if it does.
    pub fn is_mouse_report_changed(&mut self) -> (changed: bool)
        ensures
            changed == (old(self).current_mouse_report@ != old(self).previous_mouse_report@),
            final(self).previous_mouse_report@ == old(self).current_mouse_report@,
            final(self).current_mouse_report == old(self).current_mouse_report,
            final(self).current_keyboard_report == old(self).current_keyboard_report,
            final(self).previous_keyboard_report == old(self).previous_keyboard_report,
    {
        if !self.previous_mouse_report.same_as(&self.current_mouse_report) {
            self.previous_mouse_report = self.current_mouse_report;
            true
        } else {
            false
        }
    }

    /// Takes the reports of a cycle and hands back the bytes of those that
    /// are to be sent: each report if it differs from the one that was
    /// sent last, which it then replaces. Of the mouse report the cursor
    /// is compared first, as that is what mostly changes.
    pub fn maybe_send(
        &mut self,
        keyboard_key_report: KeyboardKeyReport,
        mouse_key_report: MouseKeyReport,
    ) -> (sent: Transmission)
        ensures
            sent.keyboard is Some <==> keyboard_is_sent(
                old(self).previous_keyboard_report@,
                keyboard_key_report@,
            ),
            sent.keyboard matches Some(bytes) ==> bytes@ == keyboard_key_report@.bytes(),
            sent.mouse is Some <==> mouse_is_sent(
                old(self).previous_mouse_report@,
                mouse_key_report@,
            ),
            sent.mouse matches Some(bytes) ==> bytes@ == mouse_key_report@.bytes(),
            final(self).current_keyboard_report == keyboard_key_report,
            final(self).current_mouse_report == mouse_key_report,
            final(self).previous_keyboard_report@ == keyboard_key_report@,
            final(self).previous_mouse_report@ == mouse_key_report@,
    {
        self.current_keyboard_report = keyboard_key_report;
        self.current_mouse_report = mouse_key_report;
        let keyboard = if self.is_keyboard_report_changed() {
            Some(self.current_keyboard_report.construct())
        } else {
            None
        };
        let cursor_changed = !self.current_mouse_report.same_cursor_as(&self.previous_mouse_report);
        let report_changed = self.is_mouse_report_changed();
        let mouse = if cursor_changed || report_changed {
            Some(self.current_mouse_report.construct())
        } else {
            None
        };
        Transmission { keyboard, mouse }
    }
}

/// What the transmitter of the primary half does in one cycle.
pub struct MasterCycle {
    /// The connection status to publish.
    pub status: BleStatus,
    /// What to send.
    pub sent: Transmission,
    /// How long to rest afterwards, in milliseconds.
    pub delay_ms: u64,
}

/// One cycle of the transmitter of the primary half, after the resolver
/// has run: with a host connected, the reports that have changed are sent
/// and the rest is short; without, nothing is sent, the reports that were
/// sent last stay, and the rest is long.
pub fn ble_tx_cycle(
    ble_keyboard: &mut BleKeyboardMaster,
    connected: bool,
    keyboard_key_report: KeyboardKeyReport,
    mouse_key_report: MouseKeyReport,
) -> (cycle: MasterCycle)
    ensures
        connected ==> {
            &&& cycle.status == BleStatus::Connected
            &&& cycle.delay_ms == CONNECTED_DELAY_MS
            &&& (cycle.sent.keyboard is Some <==> keyboard_is_sent(
                old(ble_keyboard).previous_keyboard_report@,
                keyboard_key_report@,
            ))
            &&& (cycle.sent.keyboard matches Some(bytes) ==> bytes@ == keyboard_key_report@.bytes())
            &&& (cycle.sent.mouse is Some <==> mouse_is_sent(
                old(ble_keyboard).previous_mouse_report@,
                mouse_key_report@,
            ))
            &&& (cycle.sent.mouse matches Some(bytes) ==> bytes@ == mouse_key_report@.bytes())
            &&& final(ble_keyboard).current_keyboard_report == keyboard_key_report
            &&& final(ble_keyboard).current_mouse_report == mouse_key_report
            &&& final(ble_keyboard).previous_keyboard_report@ == keyboard_key_report@
            &&& final(ble_keyboard).previous_mouse_report@ == mouse_key_report@
        },
        !connected ==> {
            &&& cycle.status == BleStatus::NotConnected
            &&& cycle.delay_ms == NOT_CONNECTED_DELAY_MS
            &&& cycle.sent.keyboard is None
            &&& cycle.sent.mouse is None
            &&& *final(ble_keyboard) == *old(ble_keyboard)
        },
{
    if connected {
        let sent = ble_keyboard.maybe_send(keyboard_key_report, mouse_key_report);
        MasterCycle { status: BleStatus::Connected, sent, delay_ms: CONNECTED_DELAY_MS }
    } else {
        MasterCycle {
            status: BleStatus::NotConnected,
            sent: Transmission { keyboard: None, mouse: None },
            delay_ms: NOT_CONNECTED_DELAY_MS,
        }
    }
}

/// The six bytes of the other half after a payload has arrived: its bytes
/// take the places of the first bytes, as far as they go; bytes beyond the
/// sixth are dropped.
pub open spec fn spec_received(report: Seq<u8>, data: Seq<u8>) -> Seq<u8> {
    Seq::new(
        report.len(),
        |i: int|
            if i < data.len() {
                data[i]
            } else {
                report[i]
            },
    )
}

/// Takes a payload of the other half into the six bytes that the resolver
/// reads.
pub fn receive_payload(slave_key_report: &mut [u8; 6], data: &[u8])
    ensures
        final(slave_key_report)@ == spec_received(old(slave_key_report)@, data@),
{
    let mut index: usize = 0;
    while index < 6 && index < data.len()
        invariant
            index <= 6,
            index <= data@.len(),
            forall|j: int| 0 <= j < index ==> slave_key_report@[j] == data@[j],
            forall|j: int| index <= j < 6 ==> slave_key_report@[j] == old(slave_key_report)@[j],
        decreases 6 - index,
    {
        slave_key_report[index] = data[index];
        index += 1;
    }
    assert(slave_key_report@ =~= spec_received(old(slave_key_report)@, data@));
}

} // verus!
