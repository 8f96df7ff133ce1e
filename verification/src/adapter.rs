//! The five operations that a frame engine needs from a byte transport.
//!
//! The engine brackets each outbound frame with a start and an end
//! notification, asks for the free transmit space, sends bytes one at a
//! time, and is fed the bytes that were read from the device. The adapter
//! passes sent bytes on to the channel, captures them for the record of the
//! bracket, and never reports a failure to the engine.

use vstd::prelude::*;
use vstd::slice::slice_subrange;
use vstd::string::*;
use crate::channel::{read_result, ChannelView, DeviceChannel};
use crate::error::TransientIOError;
use crate::outcome::Outcome;
use crate::hex::hex_list;
use crate::recorder::{frame_record, record_head, record_tail, TransmitRecorder};

verus! {

/// The transmit space of the reference link, in bytes.
pub const REFERENCE_TRANSMIT_SPACE: u16 = 128;

/// What an adapter holds.
#[verifier::ext_equal]
pub struct AdapterView {
    /// The name under which the adapter reports.
    pub name: Seq<char>,
    /// The transmit space that the adapter announces.
    pub capacity: u16,
    /// The bytes sent since the last bracket marker, oldest first.
    pub pending: Seq<u8>,
    /// The device behind the adapter.
    pub channel: ChannelView,
}

/// One call on an adapter.
pub enum AdapterCall {
    TransmitStart,
    TransmitEnd,
    TransmitSpace,
    TransmitByte { channel_id: u8, byte: u8 },
    DeliverInbound { length: usize },
    TakeOutgoing,
}

impl AdapterView {
    /// The adapter after a transmit-start notification.
    pub open spec fn transmit_started(self) -> AdapterView {
        AdapterView { pending: Seq::empty(), ..self }
    }

    /// The adapter after a transmit-end notification.
    pub open spec fn transmit_ended(self) -> AdapterView {
        AdapterView { pending: Seq::empty(), ..self }
    }

    /// The adapter after `byte` was sent.
    pub open spec fn byte_transmitted(self, byte: u8) -> AdapterView {
        AdapterView {
            pending: self.pending.push(byte),
            channel: ChannelView { outgoing: self.channel.outgoing.push(byte), ..self.channel },
            ..self
        }
    }

    /// The adapter after the driver collected the outgoing bytes.
    pub open spec fn outgoing_taken(self) -> AdapterView {
        AdapterView {
            channel: ChannelView { outgoing: Seq::empty(), ..self.channel },
            ..self
        }
    }

    /// The adapter after one call.
    pub open spec fn after(self, call: AdapterCall) -> AdapterView {
        match call {
            AdapterCall::TransmitStart => self.transmit_started(),
            AdapterCall::TransmitEnd => self.transmit_ended(),
            AdapterCall::TransmitSpace => self,
            AdapterCall::TransmitByte { channel_id, byte } => self.byte_transmitted(byte),
            AdapterCall::DeliverInbound { length } => self,
            AdapterCall::TakeOutgoing => self.outgoing_taken(),
        }
    }

    /// The adapter after a history of calls, first call first.
    pub open spec fn after_all(self, calls: Seq<AdapterCall>) -> AdapterView
        decreases calls.len(),
    {
        if calls.len() == 0 {
            self
        } else {
            self.after_all(calls.drop_last()).after(calls.last())
        }
    }
}

/// The bytes that a history of calls sent, in order.
pub open spec fn bytes_sent(calls: Seq<AdapterCall>) -> Seq<u8>
    decreases calls.len(),
{
    if calls.len() == 0 {
        Seq::empty()
    } else {
        match calls.last() {
            AdapterCall::TransmitByte { channel_id, byte } => bytes_sent(calls.drop_last()).push(
                byte,
            ),
            _ => bytes_sent(calls.drop_last()),
        }
    }
}

/// Whether a history of calls lies inside one bracket: it holds no start and
/// no end notification.
pub open spec fn within_bracket(calls: Seq<AdapterCall>) -> bool {
    forall|i: int|
        0 <= i < calls.len() ==> !(#[trigger] calls[i] is TransmitStart) && !(calls[i]
            is TransmitEnd)
}

/// The announced transmit space is the same after any history of calls.
pub proof fn lemma_transmit_space_constant(adapter: AdapterView, calls: Seq<AdapterCall>)
    ensures
        adapter.after_all(calls).capacity == adapter.capacity,
    decreases calls.len(),
{
    if calls.len() > 0 {
        lemma_transmit_space_constant(adapter, calls.drop_last());
    }
}

/// Within a bracket the adapter holds exactly the bytes sent since the start
/// notification, in order, whatever other calls came in between.
pub proof fn lemma_bracket_holds_bytes_sent(adapter: AdapterView, calls: Seq<AdapterCall>)
    requires
        within_bracket(calls),
    ensures
        adapter.transmit_started().after_all(calls).pending == bytes_sent(calls),
    decreases calls.len(),
{
    if calls.len() > 0 {
        let front = calls.drop_last();
        assert forall|i: int| 0 <= i < front.len() implies !(#[trigger] front[i] is TransmitStart)
            && !(front[i] is TransmitEnd) by {
            assert(front[i] == calls[i]);
        }
        lemma_bracket_holds_bytes_sent(adapter, front);
        assert(!(calls[calls.len() - 1] is TransmitStart));
        assert(!(calls[calls.len() - 1] is TransmitEnd));
    }
}

/// The record of a bracket is the rendering of exactly the bytes sent
/// between its start and its end notification, in order, and the adapter
/// holds no byte once the bracket has ended.
pub proof fn lemma_bracket_record(adapter: AdapterView, calls: Seq<AdapterCall>)
    requires
        within_bracket(calls),
    ensures
        frame_record(adapter.transmit_started().after_all(calls).pending) == record_head()
            + hex_list(bytes_sent(calls)) + record_tail(),
        adapter.transmit_started().after_all(calls).transmit_ended().pending == Seq::<u8>::empty(),
{
    lemma_bracket_holds_bytes_sent(adapter, calls);
}

/// Between two collections by the driver, the outgoing stream grows by
/// exactly the bytes sent, in order.
pub proof fn lemma_bytes_sent_reach_channel(adapter: AdapterView, calls: Seq<AdapterCall>)
    requires
        forall|i: int| 0 <= i < calls.len() ==> !(#[trigger] calls[i] is TakeOutgoing),
    ensures
        adapter.after_all(calls).channel.outgoing == adapter.channel.outgoing + bytes_sent(calls),
    decreases calls.len(),
{
    if calls.len() == 0 {
        assert(adapter.channel.outgoing + bytes_sent(calls) =~= adapter.channel.outgoing);
    } else {
        let front = calls.drop_last();
        assert forall|i: int| 0 <= i < front.len() implies !(#[trigger] front[i]
            is TakeOutgoing) by {
            assert(front[i] == calls[i]);
        }
        lemma_bytes_sent_reach_channel(adapter, front);
        assert(!(calls[calls.len() - 1] is TakeOutgoing));
        match calls.last() {
            AdapterCall::TransmitByte { channel_id, byte } => {
                assert((adapter.channel.outgoing + bytes_sent(front)).push(byte)
                    =~= adapter.channel.outgoing + bytes_sent(front).push(byte));
            },
            _ => {},
        }
    }
}

/// Binds a configured device to the engine's transmit and receive calls.
pub struct TransportAdapter {
    name: String,
    capacity: u16,
    recorder: TransmitRecorder,
    channel: DeviceChannel,
}

impl View for TransportAdapter {
    type V = AdapterView;

    closed spec fn view(&self) -> AdapterView {
        AdapterView {
            name: self.name@,
            capacity: self.capacity,
            pending: self.recorder@,
            channel: self.channel@,
        }
    }
}

impl TransportAdapter {
    /// An adapter over `channel` that reports under `name` and announces
    /// `capacity` bytes of transmit space.
    pub fn new(channel: DeviceChannel, name: String, capacity: u16) -> (adapter: TransportAdapter)
        ensures
            adapter@ == (AdapterView {
                name: name@,
                capacity: capacity,
                pending: Seq::<u8>::empty(),
                channel: channel@,
            }),
    {
        TransportAdapter { name, capacity, recorder: TransmitRecorder::new(), channel }
    }

    /// The name under which the adapter reports.
    pub fn name(&self) -> (name: &str)
        ensures
            name@ == self@.name,
    {
        self.name.as_str()
    }

    /// The device behind the adapter.
    pub fn channel(&self) -> (channel: &DeviceChannel)
        ensures
            channel@ == self@.channel,
    {
        &self.channel
    }

    /// The bytes sent since the last bracket marker.
    pub fn pending(&self) -> (bytes: &[u8])
        ensures
            bytes@ == self@.pending,
    {
        self.recorder.pending()
    }

    /// The engine is about to send a frame.
    pub fn notify_transmit_start(&mut self)
        ensures
            final(self)@ == old(self)@.transmit_started(),
    {
        self.recorder.on_frame_start();
    }

    /// The engine has sent a frame. Returns the record of the bracket, to be
    /// logged once the adapter is free again.
    pub fn notify_transmit_end(&mut self) -> (record: String)
        ensures
            record@ == frame_record(old(self)@.pending),
            final(self)@ == old(self)@.transmit_ended(),
    {
        self.recorder.on_frame_end()
    }

    /// The number of bytes that the engine may send now: the announced
    /// transmit space, whatever was sent before.
    pub fn available_transmit_space(&self) -> (space: u16)
        ensures
            space == self@.capacity,
    {
        self.capacity
    }

    /// Sends one byte on behalf of the engine: the byte joins the outgoing
    /// stream of the channel and the capture of the bracket. The engine is
    /// told nothing of what becomes of the byte on the device.
    pub fn transmit_byte(&mut self, channel_id: u8, byte: u8)
        ensures
            final(self)@ == old(self)@.byte_transmitted(byte),
    {
        self.recorder.on_byte_sent(byte);
        self.channel.write(byte);
    }

    /// Hands the outgoing bytes to the driver, oldest first.
    pub fn take_outgoing(&mut self) -> (bytes: Vec<u8>)
        ensures
            bytes@ == old(self)@.channel.outgoing,
            final(self)@ == old(self)@.outgoing_taken(),
    {
        self.channel.take_outgoing()
    }

    /// Settles a read from the device into a buffer of `capacity` bytes.
    pub fn read(&self, capacity: usize, outcome: Outcome) -> (result: Result<
        usize,
        TransientIOError,
    >)
        ensures
            result == read_result(outcome, capacity),
    {
        self.channel.read(capacity, outcome)
    }

    /// Passes freshly read bytes on to the engine: returns the first
    /// `length` bytes of `buffer` for the engine to ingest, or nothing when
    /// `length` is zero, in which case the engine is not called at all.
    pub fn deliver_inbound_bytes<'a>(&self, buffer: &'a [u8], length: usize) -> (input: Option<
        &'a [u8],
    >)
        requires
            length <= buffer@.len(),
        ensures
            length == 0 ==> input is None,
            length > 0 ==> input is Some && input->Some_0@ == buffer@.take(length as int),
    {
        if length == 0 {
            None
        } else {
            let input = slice_subrange(buffer, 0, length);
            assert(buffer@.subrange(0, length as int) =~= buffer@.take(length as int));
            Some(input)
        }
    }
}

} // verus!
