//! Settings of the serial device.

use vstd::prelude::*;

verus! {

/// Number of data bits in a character.
#[derive(Clone, Copy, Debug, PartialEq, Eq, Structural)]
pub enum CharSize {
    Bits5,
    Bits6,
    Bits7,
    Bits8,
}

/// Parity checking mode.
#[derive(Clone, Copy, Debug, PartialEq, Eq, Structural)]
pub enum Parity {
    ParityNone,
    ParityOdd,
    ParityEven,
}

/// Number of stop bits.
#[derive(Clone, Copy, Debug, PartialEq, Eq, Structural)]
pub enum StopBits {
    Stop1,
    Stop2,
}

/// Flow control mode.
#[derive(Clone, Copy, Debug, PartialEq, Eq, Structural)]
pub enum FlowControl {
    FlowNone,
    FlowSoftware,
    FlowHardware,
}

/// The settings that a device is given once, before its first transfer.
#[derive(Clone, Copy, Debug, PartialEq, Eq, Structural)]
pub struct DeviceConfig {
    /// Line speed in bits per second.
    pub baud_rate: u32,
    pub char_size: CharSize,
    pub parity: Parity,
    pub stop_bits: StopBits,
    pub flow_control: FlowControl,
    /// Longest time a read may wait for data, in milliseconds.
    pub read_timeout_ms: u64,
}

impl DeviceConfig {
    /// The settings of the reference link: 115200 baud, 8 data bits, no
    /// parity, 1 stop bit, no flow control, reads time out after 1000 ms.
    pub open spec fn spec_reference() -> DeviceConfig {
        DeviceConfig {
            baud_rate: 115200,
            char_size: CharSize::Bits8,
            parity: Parity::ParityNone,
            stop_bits: StopBits::Stop1,
            flow_control: FlowControl::FlowNone,
            read_timeout_ms: 1000,
        }
    }

    /// The settings of the reference link.
    #[verifier::when_used_as_spec(spec_reference)]
    pub fn reference() -> (config: DeviceConfig)
        ensures
            config == DeviceConfig::spec_reference(),
    {
        DeviceConfig {
            baud_rate: 115200,
            char_size: CharSize::Bits8,
            parity: Parity::ParityNone,
            stop_bits: StopBits::Stop1,
            flow_control: FlowControl::FlowNone,
            read_timeout_ms: 1000,
        }
    }
}

} // verus!
