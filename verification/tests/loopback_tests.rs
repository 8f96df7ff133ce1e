use serial_bridge::adapter::{TransportAdapter, REFERENCE_TRANSMIT_SPACE};
use serial_bridge::channel::{DeviceChannel, OpenedDevice};
use serial_bridge::outcome::Outcome;
use serial_bridge::frame::OutboundFrame;
use serial_bridge::poll::{Action, PollLoop, PollPlan};
use serial_bridge::sink::FrameReceiveSink;

/// A stand-in for the frame engine: it frames a payload as a start byte, the
/// frame type, the payload length and the payload, and hands a frame to the
/// sink once all of its bytes have come in.
struct StandInEngine {
    queued: Vec<(u8, Vec<u8>)>,
    inbound: Vec<u8>,
    polls: usize,
    sent: Vec<String>,
    delivered: Vec<(u8, Vec<u8>, String)>,
}

const START_BYTE: u8 = 0xaa;

impl StandInEngine {
    fn new() -> StandInEngine {
        StandInEngine {
            queued: Vec::new(),
            inbound: Vec::new(),
            polls: 0,
            sent: Vec::new(),
            delivered: Vec::new(),
        }
    }

    fn enqueue_frame(&mut self, frame_type: u8, payload: &[u8], length: u8) {
        self.queued.push((frame_type, payload[..length as usize].to_vec()));
    }

    fn poll(&mut self, adapter: &mut TransportAdapter, sink: &FrameReceiveSink, input: &[u8]) {
        self.polls += 1;
        self.inbound.extend_from_slice(input);
        while self.inbound.len() >= 3 && self.inbound.len() >= 3 + self.inbound[2] as usize {
            assert_eq!(self.inbound[0], START_BYTE);
            let frame_type = self.inbound[1];
            let length = self.inbound[2];
            let payload: Vec<u8> = self.inbound[3..3 + length as usize].to_vec();
            let record = sink.receive(frame_type, &payload, length, 0);
            self.delivered.push((frame_type, payload, record));
            self.inbound.drain(..3 + length as usize);
        }
        while !self.queued.is_empty()
            && adapter.available_transmit_space() as usize >= 3 + self.queued[0].1.len()
        {
            let (frame_type, payload) = self.queued.remove(0);
            adapter.notify_transmit_start();
            adapter.transmit_byte(0, START_BYTE);
            adapter.transmit_byte(0, frame_type);
            adapter.transmit_byte(0, payload.len() as u8);
            for byte in payload {
                adapter.transmit_byte(0, byte);
            }
            self.sent.push(adapter.notify_transmit_end());
        }
    }
}

/// A bridge whose device hands back every byte written to it.
struct LoopbackBridge {
    poll_loop: PollLoop,
    opened: Option<OpenedDevice>,
    channel: Option<DeviceChannel>,
    adapter: Option<TransportAdapter>,
    sink: FrameReceiveSink,
    engine: StandInEngine,
    wire: Vec<u8>,
    scratch: Vec<u8>,
    requests: Vec<Action>,
}

impl LoopbackBridge {
    fn new(first_frame: Option<OutboundFrame>) -> LoopbackBridge {
        LoopbackBridge {
            poll_loop: PollLoop::new(PollPlan::reference(), first_frame),
            opened: None,
            channel: None,
            adapter: None,
            sink: FrameReceiveSink::new(String::from("app")),
            engine: StandInEngine::new(),
            wire: Vec::new(),
            scratch: Vec::new(),
            requests: Vec::new(),
        }
    }

    fn flush(&mut self) {
        let adapter = self.adapter.as_mut().expect("the engine is bound");
        self.wire.extend(adapter.take_outgoing());
    }

    /// Carries out requests until `cycles` whole cycles have run.
    fn run_cycles(&mut self, cycles: usize) {
        let mut slept = 0;
        while slept < cycles {
            let action = self.poll_loop.pending();
            self.requests.push(action);
            let outcome = match action {
                Action::OpenDevice => {
                    self.opened = DeviceChannel::open("loopback", Outcome::Done(0)).ok();
                    Outcome::Done(0)
                }
                Action::ConfigureDevice(config) => {
                    let opened = self.opened.take().expect("the device is open");
                    self.channel = opened.configure(config, Outcome::Done(0)).ok();
                    Outcome::Done(0)
                }
                Action::BindEngine => {
                    let channel = self.channel.take().expect("the device is configured");
                    self.adapter = Some(TransportAdapter::new(
                        channel,
                        String::from("uart"),
                        REFERENCE_TRANSMIT_SPACE,
                    ));
                    Outcome::Done(0)
                }
                Action::ResetTransport { .. } => Outcome::Done(0),
                Action::QueueFrame => {
                    let frame = self.poll_loop.first_frame().expect("a first frame");
                    self.engine.enqueue_frame(frame.frame_type(), frame.payload(), frame.length());
                    Outcome::Done(0)
                }
                Action::Drive => {
                    let adapter = self.adapter.as_mut().expect("the engine is bound");
                    self.engine.poll(adapter, &self.sink, &[]);
                    self.flush();
                    Outcome::Done(0)
                }
                Action::ReadDevice { capacity } => {
                    let count = self.wire.len().min(capacity);
                    self.scratch = self.wire.drain(..count).collect();
                    if count == 0 {
                        Outcome::TimedOut
                    } else {
                        Outcome::Done(count)
                    }
                }
                Action::Ingest { length } => {
                    let adapter = self.adapter.as_mut().expect("the engine is bound");
                    let scratch = self.scratch.clone();
                    if let Some(input) = adapter.deliver_inbound_bytes(&scratch, length) {
                        self.engine.poll(adapter, &self.sink, input);
                    }
                    self.flush();
                    Outcome::Done(0)
                }
                Action::Sleep { millis } => {
                    assert_eq!(millis, 10);
                    slept += 1;
                    Outcome::Done(0)
                }
                Action::Halt(error) => panic!("startup failed: {:?}", error),
            };
            let _ = self.poll_loop.step(outcome);
        }
    }
}

#[test]
fn loopback_delivers_the_enqueued_frame_exactly_once() {
    let mut bridge = LoopbackBridge::new(OutboundFrame::new(0, vec![1, 2, 3]));
    bridge.run_cycles(5);
    assert_eq!(bridge.engine.delivered.len(), 1);
    let (frame_type, payload, record) = bridge.engine.delivered[0].clone();
    assert_eq!(frame_type, 0);
    assert_eq!(payload, vec![1, 2, 3]);
    assert_eq!(record, "receive data: [ 0x01 0x02 0x03 ]");
}

#[test]
fn loopback_records_the_frame_that_was_sent() {
    let mut bridge = LoopbackBridge::new(OutboundFrame::new(0, vec![1, 2, 3]));
    bridge.run_cycles(5);
    assert_eq!(bridge.engine.sent, vec!["send frame: [ 0xaa 0x00 0x03 0x01 0x02 0x03 ]"]);
    assert!(bridge.adapter.as_ref().unwrap().pending().is_empty());
    assert!(bridge.wire.is_empty());
}

#[test]
fn loopback_frame_arrives_in_the_first_cycle() {
    let mut bridge = LoopbackBridge::new(OutboundFrame::new(0, vec![1, 2, 3]));
    bridge.run_cycles(1);
    assert_eq!(bridge.engine.delivered.len(), 1);
    assert_eq!(
        bridge.requests,
        vec![
            Action::OpenDevice,
            Action::ConfigureDevice(PollPlan::reference().config),
            Action::BindEngine,
            Action::ResetTransport { send_reset_frame: true },
            Action::QueueFrame,
            Action::Drive,
            Action::ReadDevice { capacity: 255 },
            Action::Ingest { length: 6 },
            Action::Sleep { millis: 10 },
        ]
    );
}

#[test]
fn loopback_without_a_frame_polls_but_delivers_nothing() {
    let mut bridge = LoopbackBridge::new(None);
    bridge.run_cycles(7);
    assert!(bridge.engine.delivered.is_empty());
    assert!(bridge.engine.sent.is_empty());
    assert_eq!(bridge.engine.polls, 7);
    let drives = bridge.requests.iter().filter(|action| **action == Action::Drive).count();
    assert_eq!(drives, 7);
    assert!(bridge.requests.iter().all(|action| !matches!(action, Action::Ingest { .. })));
}
