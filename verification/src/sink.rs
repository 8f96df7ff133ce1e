//! The receiving end for frames that the engine has validated.
//!
//! The sink turns the payload of one inbound frame into one diagnostic
//! record. It reads the payload and keeps nothing of it.

use vstd::prelude::*;
use vstd::slice::slice_subrange;
use vstd::string::*;
use crate::hex::{hex_list, push_hex_list};
use crate::recorder::record_tail;

verus! {

/// The text that opens the record of an inbound frame.
pub open spec fn receipt_head() -> Seq<char> {
    "receive data: [ "@
}

/// The record of an inbound frame that carries `payload`.
pub open spec fn receipt(payload: Seq<u8>) -> Seq<char> {
    receipt_head() + hex_list(payload) + record_tail()
}

/// Receives validated frames on behalf of the application.
pub struct FrameReceiveSink {
    name: String,
}

impl FrameReceiveSink {
    /// The name under which the sink reports.
    pub closed spec fn spec_name(&self) -> Seq<char> {
        self.name@
    }

    /// A sink that reports under `name`.
    pub fn new(name: String) -> (sink: FrameReceiveSink)
        ensures
            sink.spec_name() == name@,
    {
        FrameReceiveSink { name }
    }

    /// The name under which the sink reports.
    pub fn name(&self) -> (name: &str)
        ensures
            name@ == self.spec_name(),
    {
        self.name.as_str()
    }

    /// The record for the first `length` bytes of `buffer`.
    pub fn render_payload(&self, buffer: &[u8], length: u8) -> (record: String)
        requires
            length <= buffer@.len(),
        ensures
            record@ == receipt(buffer@.take(length as int)),
    {
        let mut record = String::from_str("receive data: [ ");
        let payload = slice_subrange(buffer, 0, length as usize);
        assert(buffer@.subrange(0, length as int) =~= buffer@.take(length as int));
        push_hex_list(&mut record, payload);
        record.append("]");
        record
    }

    /// Takes delivery of one validated frame: `length` bytes of `payload`,
    /// with the frame's identifier and the channel it arrived on. Returns the
    /// record to log. The record shows the payload alone.
    pub fn receive(&self, frame_id: u8, payload: &[u8], length: u8, channel_id: u8) -> (record:
        String)
        requires
            length <= payload@.len(),
        ensures
            record@ == receipt(payload@.take(length as int)),
    {
        self.render_payload(payload, length)
    }
}

} // verus!
