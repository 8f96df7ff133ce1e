//! Frames that the application hands to the engine for sending.

use vstd::prelude::*;

verus! {

/// The longest payload that the engine accepts in one frame, in bytes.
pub const MAX_PAYLOAD: usize = 255;

/// What an outbound frame holds.
#[verifier::ext_equal]
pub struct FrameView {
    /// The application's type tag for the frame.
    pub frame_type: u8,
    /// The bytes to carry.
    pub payload: Seq<u8>,
}

/// One frame to enqueue: a type tag and a payload of at most
/// [`MAX_PAYLOAD`] bytes.
pub struct OutboundFrame {
    frame_type: u8,
    payload: Vec<u8>,
}

impl View for OutboundFrame {
    type V = FrameView;

    closed spec fn view(&self) -> FrameView {
        FrameView { frame_type: self.frame_type, payload: self.payload@ }
    }
}

impl OutboundFrame {
    #[verifier::type_invariant]
    spec fn fits(&self) -> bool {
        self.payload@.len() <= MAX_PAYLOAD
    }

    /// A frame of type `frame_type` that carries `payload`, unless the
    /// payload is longer than [`MAX_PAYLOAD`] bytes.
    pub fn new(frame_type: u8, payload: Vec<u8>) -> (frame: Option<OutboundFrame>)
        ensures
            payload@.len() <= MAX_PAYLOAD ==> frame is Some && frame->Some_0@ == (FrameView {
                frame_type: frame_type,
                payload: payload@,
            }),
            payload@.len() > MAX_PAYLOAD ==> frame is None,
    {
        if payload.len() <= MAX_PAYLOAD {
            Some(OutboundFrame { frame_type, payload })
        } else {
            None
        }
    }

    /// The application's type tag for the frame.
    pub fn frame_type(&self) -> (frame_type: u8)
        ensures
            frame_type == self@.frame_type,
    {
        self.frame_type
    }

    /// The bytes to carry.
    pub fn payload(&self) -> (payload: &[u8])
        ensures
            payload@ == self@.payload,
    {
        self.payload.as_slice()
    }

    /// The number of bytes to carry.
    pub fn length(&self) -> (length: u8)
        ensures
            length == self@.payload.len(),
    {
        proof {
            use_type_invariant(self);
        }
        self.payload.len() as u8
    }
}

} // verus!
