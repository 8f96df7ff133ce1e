//! The report that a driver makes of one request it has carried out.

use vstd::prelude::*;

verus! {

/// What a driver reports back after it has carried out one request.
#[derive(Clone, Copy, Debug, PartialEq, Eq, Structural)]
pub enum Outcome {
    /// The request was carried out. For a transfer on the device the number
    /// is the count of bytes moved; for any other request it has no meaning.
    Done(usize),
    /// The device's timeout ran out before anything happened.
    TimedOut,
    /// The request failed.
    Failed,
}

} // verus!
