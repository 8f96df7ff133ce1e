//! Failures of the bridge, by how far they reach.

use vstd::prelude::*;

verus! {

/// The device could not be acquired or set up. Fatal: the bridge halts
/// before the first poll cycle.
#[derive(Clone, Copy, Debug, PartialEq, Eq, Structural)]
pub enum HardwareError {
    /// The device could not be opened.
    OpenFailed,
    /// The device refused its settings or was locked.
    ConfigureFailed,
}

/// One read or one write on the device failed. Reported, then counted as a
/// transfer of zero bytes; the poll loop goes on.
#[derive(Clone, Copy, Debug, PartialEq, Eq, Structural)]
pub enum TransientIOError {
    /// A read failed for a reason other than the read timeout.
    ReadFailed,
    /// A write failed or timed out.
    WriteFailed,
}

/// The engine refused a request made during startup. Reported; the poll loop
/// starts all the same.
#[derive(Clone, Copy, Debug, PartialEq, Eq, Structural)]
pub enum EngineError {
    /// The transport reset was refused.
    ResetFailed,
    /// The first outbound frame was refused.
    EnqueueFailed,
}

} // verus!
