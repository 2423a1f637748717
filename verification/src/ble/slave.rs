//! The transmitter of the secondary half: it sends its six bytes to the
//! primary half only when they have changed.
use vstd::prelude::*;

use crate::ble::{BleStatus, KeyboardKeyReport};
use crate::config::user_config::NOT_CONNECTED_DELAY_MS;

verus! {

/// How long the transmitter rests after a cycle while the primary half is
/// connected, in milliseconds.
pub const CONNECTED_DELAY_MS: u64 = 1;

/// The payload of the secondary half: the six bytes of the current cycle,
/// and those that were sent last.
pub struct BleKeyboardSlave {
    pub current_pressed_keys: [u8; 6],
    pub previous_pressed_keys: [u8; 6],
}

impl BleKeyboardSlave {
    /// A transmitter that has sent nothing yet: all its bytes are zero.
    pub fn new() -> (slave: BleKeyboardSlave)
        ensures
            slave.current_pressed_keys@ == Seq::new(6, |i: int| 0u8),
            slave.previous_pressed_keys@ == Seq::new(6, |i: int| 0u8),
    {
        let slave = BleKeyboardSlave { current_pressed_keys: [0; 6], previous_pressed_keys: [0; 6] };
        assert(slave.current_pressed_keys@ =~= Seq::new(6, |i: int| 0u8));
        assert(slave.previous_pressed_keys@ =~= Seq::new(6, |i: int| 0u8));
        slave
    }

    /// Says whether the six bytes differ from those that were sent last,
    /// and takes them as sent if they do.
    pub fn are_pressed_keys_changed(&mut self) -> (changed: bool)
        ensures
            changed == (old(self).current_pressed_keys@ != old(self).previous_pressed_keys@),
            final(self).previous_pressed_keys@ == old(self).current_pressed_keys@,
            final(self).current_pressed_keys == old(self).current_pressed_keys,
    {
        let same = self.previous_pressed_keys[0] == self.current_pressed_keys[0]
            && self.previous_pressed_keys[1] == self.current_pressed_keys[1]
            && self.previous_pressed_keys[2] == self.current_pressed_keys[2]
            && self.previous_pressed_keys[3] == self.current_pressed_keys[3]
            && self.previous_pressed_keys[4] == self.current_pressed_keys[4]
            && self.previous_pressed_keys[5] == self.current_pressed_keys[5];
        assert(same ==> self.previous_pressed_keys@ =~= self.current_pressed_keys@);
        if !same {
            self.previous_pressed_keys = self.current_pressed_keys;
            true
        } else {
            false
        }
    }

    /// Takes the key slots of a cycle and hands them back if they are to be
    /// sent: if they differ from those that were sent last.
    pub fn maybe_send(&mut self, keyboard_key_report: &KeyboardKeyReport) -> (payload: Option<[u8; 6]>)
        ensures
            payload is Some <==> keyboard_key_report.keys@ != old(self).previous_pressed_keys@,
            payload matches Some(bytes) ==> bytes@ == keyboard_key_report.keys@,
            final(self).current_pressed_keys == keyboard_key_report.keys,
            final(self).previous_pressed_keys@ == keyboard_key_report.keys@,
    {
        self.current_pressed_keys = keyboard_key_report.keys;
        if self.are_pressed_keys_changed() {
            Some(self.current_pressed_keys)
        } else {
            None
        }
    }
}

/// What the transmitter of the secondary half does in one cycle.
pub struct SlaveCycle {
    /// The connection status to publish.
    pub status: BleStatus,
    /// The six bytes to write to the primary half, if any.
    pub payload: Option<[u8; 6]>,
    /// How long to rest afterwards, in milliseconds.
    pub delay_ms: u64,
}

/// One cycle of the transmitter of the secondary half, after the resolver
/// has run: with the primary half connected, the six bytes are sent if
/// they have changed, and the rest is short; without, nothing is sent, the
/// bytes that were sent last stay, and the rest is long.
pub fn ble_tx_cycle(
    ble_keyboard_slave: &mut BleKeyboardSlave,
    connected: bool,
    keyboard_key_report: &KeyboardKeyReport,
) -> (cycle: SlaveCycle)
    ensures
        connected ==> {
            &&& cycle.status == BleStatus::Connected
            &&& cycle.delay_ms == CONNECTED_DELAY_MS
            &&& (cycle.payload is Some <==> keyboard_key_report.keys@ != old(
                ble_keyboard_slave,
            ).previous_pressed_keys@)
            &&& (cycle.payload matches Some(bytes) ==> bytes@ == keyboard_key_report.keys@)
            &&& final(ble_keyboard_slave).current_pressed_keys == keyboard_key_report.keys
            &&& final(ble_keyboard_slave).previous_pressed_keys@ == keyboard_key_report.keys@
        },
        !connected ==> {
            &&& cycle.status == BleStatus::NotConnected
            &&& cycle.delay_ms == NOT_CONNECTED_DELAY_MS
            &&& cycle.payload is None
            &&& *final(ble_keyboard_slave) == *old(ble_keyboard_slave)
        },
{
    if connected {
        let payload = ble_keyboard_slave.maybe_send(keyboard_key_report);
        SlaveCycle { status: BleStatus::Connected, payload, delay_ms: CONNECTED_DELAY_MS }
    } else {
        SlaveCycle { status: BleStatus::NotConnected, payload: None, delay_ms: NOT_CONNECTED_DELAY_MS }
    }
}

} // verus!
