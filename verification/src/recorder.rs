//! Diagnostic capture of the bytes sent within one transmit bracket.
//!
//! A bracket runs from a transmit-start marker to the matching transmit-end
//! marker. The recorder holds the bytes sent since the last marker and turns
//! them into one record when the bracket ends.

use vstd::prelude::*;
use vstd::string::*;
use crate::hex::{hex_list, lemma_hex_list_injective, lemma_hex_list_len, push_hex_list};

verus! {

/// The text that opens the record of an outbound frame.
pub open spec fn record_head() -> Seq<char> {
    "send frame: [ "@
}

/// The text that closes a record.
pub open spec fn record_tail() -> Seq<char> {
    "]"@
}

/// The record of an outbound frame made of `bytes`.
pub open spec fn frame_record(bytes: Seq<u8>) -> Seq<char> {
    record_head() + hex_list(bytes) + record_tail()
}

/// What the recorder holds after the bytes of `sent` were sent one by one,
/// in order, on top of what it held before.
pub open spec fn after_bytes(pending: Seq<u8>, sent: Seq<u8>) -> Seq<u8>
    decreases sent.len(),
{
    if sent.len() == 0 {
        pending
    } else {
        after_bytes(pending, sent.drop_last()).push(sent.last())
    }
}

/// Sending bytes one by one appends them, in order.
pub proof fn lemma_after_bytes(pending: Seq<u8>, sent: Seq<u8>)
    ensures
        after_bytes(pending, sent) == pending + sent,
    decreases sent.len(),
{
    if sent.len() == 0 {
        assert(pending + sent =~= pending);
    } else {
        lemma_after_bytes(pending, sent.drop_last());
        assert((pending + sent.drop_last()).push(sent.last()) =~= pending + sent);
    }
}

/// The record of a bracket is the ordered hex rendering of exactly the bytes
/// sent between its two markers, whatever was held before the start marker.
pub proof fn lemma_bracket_record(sent: Seq<u8>)
    ensures
        frame_record(after_bytes(Seq::<u8>::empty(), sent)) == record_head() + hex_list(sent)
            + record_tail(),
{
    lemma_after_bytes(Seq::<u8>::empty(), sent);
    assert(Seq::<u8>::empty() + sent =~= sent);
}

/// Two brackets have the same record only if the same bytes were sent in
/// them, in the same order.
pub proof fn lemma_frame_record_injective(a: Seq<u8>, b: Seq<u8>)
    requires
        frame_record(a) == frame_record(b),
    ensures
        a == b,
{
    let head = record_head();
    let tail = record_tail();
    lemma_hex_list_len(a);
    lemma_hex_list_len(b);
    let ra = frame_record(a);
    let rb = frame_record(b);
    assert(ra.len() == head.len() + hex_list(a).len() + tail.len());
    assert(rb.len() == head.len() + hex_list(b).len() + tail.len());
    let from: int = head.len() as int;
    let to: int = from + hex_list(a).len();
    assert(ra.subrange(from, to) =~= hex_list(a));
    assert(rb.subrange(from, to) =~= hex_list(b));
    lemma_hex_list_injective(a, b);
}

/// Accumulates the bytes sent since the last bracket marker.
pub struct TransmitRecorder {
    pending: Vec<u8>,
}

impl View for TransmitRecorder {
    type V = Seq<u8>;

    /// The bytes sent since the last marker, oldest first.
    closed spec fn view(&self) -> Seq<u8> {
        self.pending@
    }
}

impl TransmitRecorder {
    /// A recorder that holds nothing.
    pub fn new() -> (recorder: TransmitRecorder)
        ensures
            recorder@ == Seq::<u8>::empty(),
    {
        TransmitRecorder { pending: Vec::new() }
    }

    /// The bytes sent since the last marker.
    pub fn pending(&self) -> (bytes: &[u8])
        ensures
            bytes@ == self@,
    {
        self.pending.as_slice()
    }

    /// Start marker: drops what was held and opens a new bracket.
    pub fn on_frame_start(&mut self)
        ensures
            final(self)@ == Seq::<u8>::empty(),
    {
        self.pending.clear();
    }

    /// Notes one byte as sent.
    pub fn on_byte_sent(&mut self, byte: u8)
        ensures
            final(self)@ == old(self)@.push(byte),
    {
        self.pending.push(byte);
    }

    /// End marker: returns the record of the bracket and holds nothing
    /// afterwards.
    pub fn on_frame_end(&mut self) -> (record: String)
        ensures
            record@ == frame_record(old(self)@),
            final(self)@ == Seq::<u8>::empty(),
    {
        let mut record = String::from_str("send frame: [ ");
        push_hex_list(&mut record, self.pending.as_slice());
        record.append("]");
        self.pending.clear();
        record
    }
}

} // verus!
