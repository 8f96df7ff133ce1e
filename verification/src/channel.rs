//! The serial device as the bridge sees it.
//!
//! A device is opened, then given its settings, and only then moves bytes:
//! each step consumes the value of the step before, so a channel that can
//! transfer has been configured, once. The driver performs the operations on
//! the real device and reports each outcome; the channel decides what the
//! outcome amounts to.

use vstd::prelude::*;
use vstd::string::*;
use crate::config::DeviceConfig;
use crate::error::{HardwareError, TransientIOError};
use crate::outcome::Outcome;

verus! {

/// What a read amounts to, given the outcome that the device reported and
/// the capacity of the buffer that was offered: the bytes that arrived, at
/// most `capacity` of them; none when the timeout ran out, which is no
/// error; an error when the read failed.
pub open spec fn read_result(outcome: Outcome, capacity: usize) -> Result<usize, TransientIOError> {
    match outcome {
        Outcome::Done(n) => Ok(if n <= capacity { n } else { capacity }),
        Outcome::TimedOut => Ok(0usize),
        Outcome::Failed => Err(TransientIOError::ReadFailed),
    }
}

/// What a write amounts to, given the outcome that the device reported: the
/// bytes that left, or an error when the write failed or timed out.
pub open spec fn write_result(outcome: Outcome) -> Result<usize, TransientIOError> {
    match outcome {
        Outcome::Done(n) => Ok(n),
        Outcome::TimedOut => Err(TransientIOError::WriteFailed),
        Outcome::Failed => Err(TransientIOError::WriteFailed),
    }
}

/// The number of bytes that a transfer moved; a failed transfer moved none.
pub open spec fn transferred(result: Result<usize, TransientIOError>) -> usize {
    match result {
        Ok(n) => n,
        Err(_) => 0usize,
    }
}

/// Settles a read on the device.
pub fn settle_read(outcome: Outcome, capacity: usize) -> (result: Result<usize, TransientIOError>)
    ensures
        result == read_result(outcome, capacity),
{
    match outcome {
        Outcome::Done(n) => Ok(if n <= capacity { n } else { capacity }),
        Outcome::TimedOut => Ok(0),
        Outcome::Failed => Err(TransientIOError::ReadFailed),
    }
}

/// Settles a write on the device.
pub fn settle_write(outcome: Outcome) -> (result: Result<usize, TransientIOError>)
    ensures
        result == write_result(outcome),
{
    match outcome {
        Outcome::Done(n) => Ok(n),
        Outcome::TimedOut => Err(TransientIOError::WriteFailed),
        Outcome::Failed => Err(TransientIOError::WriteFailed),
    }
}

/// Counts the bytes of a settled transfer.
pub fn count_transferred(result: Result<usize, TransientIOError>) -> (count: usize)
    ensures
        count == transferred(result),
{
    match result {
        Ok(n) => n,
        Err(_) => 0,
    }
}

/// A device that was acquired and has no settings yet. It cannot transfer.
pub struct OpenedDevice {
    device_id: String,
}

impl OpenedDevice {
    /// The path-like name of the device.
    pub closed spec fn spec_device_id(&self) -> Seq<char> {
        self.device_id@
    }

    /// The path-like name of the device.
    pub fn device_id(&self) -> (id: &str)
        ensures
            id@ == self.spec_device_id(),
    {
        self.device_id.as_str()
    }

    /// Settles the attempt to give the device its settings. On `Done` the
    /// device becomes a channel that holds `config` and has sent nothing;
    /// any other outcome is fatal.
    pub fn configure(self, config: DeviceConfig, outcome: Outcome) -> (result: Result<
        DeviceChannel,
        HardwareError,
    >)
        ensures
            outcome is Done ==> result is Ok && result->Ok_0@ == (ChannelView {
                device_id: self.spec_device_id(),
                config: config,
                outgoing: Seq::<u8>::empty(),
            }),
            !(outcome is Done) ==> result == Err::<DeviceChannel, HardwareError>(
                HardwareError::ConfigureFailed,
            ),
    {
        match outcome {
            Outcome::Done(_) => Ok(
                DeviceChannel { device_id: self.device_id, config, outgoing: Vec::new() },
            ),
            _ => Err(HardwareError::ConfigureFailed),
        }
    }
}

/// What a channel holds.
#[verifier::ext_equal]
pub struct ChannelView {
    /// The path-like name of the device.
    pub device_id: Seq<char>,
    /// The settings that the device was given.
    pub config: DeviceConfig,
    /// The bytes written to the channel that the driver has not collected
    /// yet, oldest first.
    pub outgoing: Seq<u8>,
}

/// A device that was opened and configured.
pub struct DeviceChannel {
    device_id: String,
    config: DeviceConfig,
    outgoing: Vec<u8>,
}

impl View for DeviceChannel {
    type V = ChannelView;

    closed spec fn view(&self) -> ChannelView {
        ChannelView { device_id: self.device_id@, config: self.config, outgoing: self.outgoing@ }
    }
}

impl DeviceChannel {
    /// Settles the attempt to acquire the device named `device_id`. Any
    /// outcome but `Done` is fatal.
    pub fn open(device_id: &str, outcome: Outcome) -> (result: Result<OpenedDevice, HardwareError>)
        ensures
            outcome is Done ==> result is Ok && result->Ok_0.spec_device_id() == device_id@,
            !(outcome is Done) ==> result == Err::<OpenedDevice, HardwareError>(
                HardwareError::OpenFailed,
            ),
    {
        match outcome {
            Outcome::Done(_) => Ok(OpenedDevice { device_id: String::from_str(device_id) }),
            _ => Err(HardwareError::OpenFailed),
        }
    }

    /// The path-like name of the device.
    pub fn device_id(&self) -> (id: &str)
        ensures
            id@ == self@.device_id,
    {
        self.device_id.as_str()
    }

    /// The settings that the device was given.
    pub fn config(&self) -> (config: DeviceConfig)
        ensures
            config == self@.config,
    {
        self.config
    }

    /// Appends one byte to the outgoing stream.
    pub fn write(&mut self, byte: u8)
        ensures
            final(self)@ == (ChannelView {
                outgoing: old(self)@.outgoing.push(byte),
                ..old(self)@
            }),
    {
        self.outgoing.push(byte);
    }

    /// Hands the outgoing bytes to the driver, oldest first, and leaves the
    /// stream empty. The bytes are gone from the channel whether or not the
    /// device takes them: nothing is sent twice.
    pub fn take_outgoing(&mut self) -> (bytes: Vec<u8>)
        ensures
            bytes@ == old(self)@.outgoing,
            final(self)@ == (ChannelView { outgoing: Seq::<u8>::empty(), ..old(self)@ }),
    {
        let mut bytes: Vec<u8> = Vec::new();
        std::mem::swap(&mut self.outgoing, &mut bytes);
        bytes
    }

    /// Settles a read into a buffer of `capacity` bytes.
    pub fn read(&self, capacity: usize, outcome: Outcome) -> (result: Result<
        usize,
        TransientIOError,
    >)
        ensures
            result == read_result(outcome, capacity),
    {
        settle_read(outcome, capacity)
    }
}

} // verus!
