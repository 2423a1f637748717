//! The key-event pipeline of a wireless keyboard, split or in one piece:
//! the table of registered keys, the scanner's buffer, the sweeper that
//! releases keys, the resolver that turns keys into reports, the bytes that
//! the halves exchange, and the transmitter that sends a report when it has
//! changed.
use vstd::prelude::*;

pub mod ble;
pub mod clock;
pub mod config;
pub mod debounce;
pub mod fixed_vec;
pub mod key_provision;
pub mod matrix;
pub mod mouse;
pub mod search;

verus! {

/// The transmit power of the radio, in steps of 3 dBm from -24 dBm to
/// +21 dBm.
#[derive(Clone, Copy, Debug, PartialEq, Eq, Structural)]
pub enum EspPowerLevel {
    Negative24,
    Negative21,
    Negative18,
    Negative15,
    Negative12,
    Negative9,
    Negative6,
    Negative3,
    Negative0,
    Positive3,
    Positive6,
    Positive9,
    Positive12,
    Positive15,
    Positive18,
    Positive21,
}

} // verus!
