//! The poll loop: startup of the bridge, then the two-phase cycle.
//!
//! The loop is a state machine. In each phase exactly one request is
//! pending; the driver carries it out and reports the outcome, and the loop
//! moves to the next phase. Startup runs in a fixed order: open the device,
//! configure it, bind the engine to adapter and sink, ask the engine to
//! reset its transport, enqueue the first frame if there is one. Then the
//! cycle repeats without end: drive the engine with no input, read the
//! device, feed the engine if bytes arrived, sleep.
//!
//! A device that cannot be opened or configured halts the loop for good.
//! Every later failure is reported and absorbed.

use vstd::prelude::*;
use crate::channel::{read_result, settle_read, transferred};
use crate::config::DeviceConfig;
use crate::error::{EngineError, HardwareError, TransientIOError};
use crate::frame::{FrameView, OutboundFrame};
use crate::outcome::Outcome;

verus! {

/// The size of the scratch buffer for reads on the reference link, in bytes.
pub const REFERENCE_SCRATCH_CAPACITY: usize = 255;

/// The pause between two cycles on the reference link, in milliseconds.
pub const REFERENCE_SLEEP_MS: u64 = 10;

/// The fixed choices of a poll loop.
#[derive(Clone, Copy, Debug, PartialEq, Eq, Structural)]
pub struct PollPlan {
    /// The settings to give the device.
    pub config: DeviceConfig,
    /// The size of the scratch buffer that each read fills, in bytes.
    pub scratch_capacity: usize,
    /// The pause between two cycles, in milliseconds.
    pub sleep_ms: u64,
    /// Whether the engine tells its peer of the transport reset.
    pub send_reset_frame: bool,
}

impl PollPlan {
    /// The plan of the reference link.
    pub open spec fn spec_reference() -> PollPlan {
        PollPlan {
            config: DeviceConfig::spec_reference(),
            scratch_capacity: REFERENCE_SCRATCH_CAPACITY,
            sleep_ms: REFERENCE_SLEEP_MS,
            send_reset_frame: true,
        }
    }

    /// The plan of the reference link: the reference settings, a scratch
    /// buffer of 255 bytes, 10 ms between cycles, a reset that is announced.
    #[verifier::when_used_as_spec(spec_reference)]
    pub fn reference() -> (plan: PollPlan)
        ensures
            plan == PollPlan::spec_reference(),
    {
        PollPlan {
            config: DeviceConfig::reference(),
            scratch_capacity: REFERENCE_SCRATCH_CAPACITY,
            sleep_ms: REFERENCE_SLEEP_MS,
            send_reset_frame: true,
        }
    }
}

/// Where the loop stands. Each phase waits for the outcome of one request.
#[derive(Clone, Copy, Debug, PartialEq, Eq, Structural)]
pub enum Phase {
    /// The device is being opened.
    Opening,
    /// The device is being given its settings.
    Configuring,
    /// The engine is being bound to adapter and sink.
    Binding,
    /// The engine is resetting its transport.
    Resetting,
    /// The first frame is being enqueued.
    Queueing,
    /// The engine is polled with no input.
    Driving,
    /// The device is read.
    Reading,
    /// The engine is fed the `length` bytes that were read.
    Ingesting { length: usize },
    /// The loop pauses.
    Sleeping,
    /// Startup failed; nothing more will be done.
    Halted(HardwareError),
}

/// The request that the driver is to carry out.
#[derive(Clone, Copy, Debug, PartialEq, Eq, Structural)]
pub enum Action {
    /// Open the device.
    OpenDevice,
    /// Give the device these settings, its read timeout included.
    ConfigureDevice(DeviceConfig),
    /// Construct the engine, bound to adapter and sink.
    BindEngine,
    /// Ask the engine to reset its transport.
    ResetTransport { send_reset_frame: bool },
    /// Hand the first frame to the engine.
    QueueFrame,
    /// Poll the engine with input of length zero.
    Drive,
    /// Read from the device into a scratch buffer of `capacity` bytes.
    ReadDevice { capacity: usize },
    /// Pass the first `length` bytes of the scratch buffer to the engine.
    Ingest { length: usize },
    /// Pause for `millis` milliseconds.
    Sleep { millis: u64 },
    /// Give up: startup failed.
    Halt(HardwareError),
}

/// A failure that the loop absorbed. The driver logs it.
#[derive(Clone, Copy, Debug, PartialEq, Eq, Structural)]
pub enum Notice {
    /// The engine refused a startup request.
    Engine(EngineError),
    /// A transfer on the device failed and counts as zero bytes.
    Transfer(TransientIOError),
}

impl Phase {
    /// Whether the phase belongs to the cycle that follows startup.
    pub open spec fn in_cycle(self) -> bool {
        self is Driving || self is Reading || self is Ingesting || self is Sleeping
    }

    /// Whether the phase lies behind the setup of the device: the engine is
    /// being bound or exists, and bytes may move.
    pub open spec fn past_setup(self) -> bool {
        self is Binding || self is Resetting || self is Queueing || self.in_cycle()
    }
}

/// What a poll loop holds.
pub struct LoopView {
    pub plan: PollPlan,
    /// The frame to enqueue once at startup, if any.
    pub first_frame: Option<FrameView>,
    pub phase: Phase,
}

impl LoopView {
    /// The phase that follows when the pending request ended in `outcome`.
    pub open spec fn next_phase(self, outcome: Outcome) -> Phase {
        match self.phase {
            Phase::Opening => if outcome is Done {
                Phase::Configuring
            } else {
                Phase::Halted(HardwareError::OpenFailed)
            },
            Phase::Configuring => if outcome is Done {
                Phase::Binding
            } else {
                Phase::Halted(HardwareError::ConfigureFailed)
            },
            Phase::Binding => Phase::Resetting,
            Phase::Resetting => if self.first_frame is Some {
                Phase::Queueing
            } else {
                Phase::Driving
            },
            Phase::Queueing => Phase::Driving,
            Phase::Driving => Phase::Reading,
            Phase::Reading => {
                let length = transferred(read_result(outcome, self.plan.scratch_capacity));
                if length > 0 {
                    Phase::Ingesting { length }
                } else {
                    Phase::Sleeping
                }
            },
            Phase::Ingesting { length } => Phase::Sleeping,
            Phase::Sleeping => Phase::Driving,
            Phase::Halted(error) => Phase::Halted(error),
        }
    }

    /// The loop after the pending request ended in `outcome`.
    pub open spec fn step(self, outcome: Outcome) -> LoopView {
        LoopView { phase: self.next_phase(outcome), ..self }
    }

    /// The failure to report when the pending request ended in `outcome`.
    pub open spec fn notice(self, outcome: Outcome) -> Option<Notice> {
        match self.phase {
            Phase::Resetting => if outcome is Done {
                None
            } else {
                Some(Notice::Engine(EngineError::ResetFailed))
            },
            Phase::Queueing => if outcome is Done {
                None
            } else {
                Some(Notice::Engine(EngineError::EnqueueFailed))
            },
            Phase::Reading => match read_result(outcome, self.plan.scratch_capacity) {
                Ok(_) => None,
                Err(error) => Some(Notice::Transfer(error)),
            },
            _ => None,
        }
    }

    /// The request that is pending.
    pub open spec fn action(self) -> Action {
        match self.phase {
            Phase::Opening => Action::OpenDevice,
            Phase::Configuring => Action::ConfigureDevice(self.plan.config),
            Phase::Binding => Action::BindEngine,
            Phase::Resetting => Action::ResetTransport {
                send_reset_frame: self.plan.send_reset_frame,
            },
            Phase::Queueing => Action::QueueFrame,
            Phase::Driving => Action::Drive,
            Phase::Reading => Action::ReadDevice { capacity: self.plan.scratch_capacity },
            Phase::Ingesting { length } => Action::Ingest { length },
            Phase::Sleeping => Action::Sleep { millis: self.plan.sleep_ms },
            Phase::Halted(error) => Action::Halt(error),
        }
    }

    /// The loop after a run of outcomes, first outcome first.
    pub open spec fn run(self, outcomes: Seq<Outcome>) -> LoopView
        decreases outcomes.len(),
    {
        if outcomes.len() == 0 {
            self
        } else {
            self.run(outcomes.drop_last()).step(outcomes.last())
        }
    }

    /// The loop after the first `count` outcomes of a run.
    pub open spec fn at(self, outcomes: Seq<Outcome>, count: int) -> LoopView {
        self.run(outcomes.take(count))
    }
}

/// The phase at each point of a cycle in which no byte arrives: the engine
/// is driven, the device is read, the loop sleeps.
pub open spec fn idle_phase(count: int) -> Phase {
    if count % 3 == 0 {
        Phase::Driving
    } else if count % 3 == 1 {
        Phase::Reading
    } else {
        Phase::Sleeping
    }
}

/// Whether `outcomes` are those of `cycles` whole cycles in each of which
/// the read moved no byte into a scratch buffer of `capacity` bytes.
pub open spec fn idle_cycles(outcomes: Seq<Outcome>, cycles: nat, capacity: usize) -> bool {
    &&& outcomes.len() == 3 * cycles
    &&& forall|i: int|
        0 <= i < outcomes.len() && i % 3 == 1 ==> transferred(
            read_result(#[trigger] outcomes[i], capacity),
        ) == 0
}

/// A run unfolds one outcome at a time.
pub proof fn lemma_run_unfolds(start: LoopView, outcomes: Seq<Outcome>, count: int)
    requires
        0 <= count < outcomes.len(),
    ensures
        start.at(outcomes, 0) == start,
        start.at(outcomes, count + 1) == start.at(outcomes, count).step(outcomes[count]),
{
    assert(outcomes.take(count + 1).drop_last() =~= outcomes.take(count));
    assert(outcomes.take(count + 1).last() == outcomes[count]);
}

/// Plan and first frame are the same at every point of a run.
pub proof fn lemma_run_keeps_plan(start: LoopView, outcomes: Seq<Outcome>)
    ensures
        start.run(outcomes).plan == start.plan,
        start.run(outcomes).first_frame == start.first_frame,
    decreases outcomes.len(),
{
    if outcomes.len() > 0 {
        lemma_run_keeps_plan(start, outcomes.drop_last());
    }
}

/// A halted loop stays halted, with the same error, whatever is reported.
pub proof fn lemma_halted_is_final(start: LoopView, outcomes: Seq<Outcome>)
    requires
        start.phase is Halted,
    ensures
        start.run(outcomes).phase == start.phase,
    decreases outcomes.len(),
{
    if outcomes.len() > 0 {
        lemma_halted_is_final(start, outcomes.drop_last());
    }
}

/// Startup against a device that cannot be opened ends before the cycle
/// begins: from the first outcome on the loop is halted, so it never
/// drives the engine, reads the device or feeds the engine.
pub proof fn lemma_unopenable_device_never_polls(
    start: LoopView,
    outcomes: Seq<Outcome>,
    count: int,
)
    requires
        start.phase == Phase::Opening,
        1 <= count <= outcomes.len(),
        !(outcomes[0] is Done),
    ensures
        start.at(outcomes, count).phase == Phase::Halted(HardwareError::OpenFailed),
        start.at(outcomes, count).action() == Action::Halt(HardwareError::OpenFailed),
        !start.at(outcomes, count).phase.past_setup(),
    decreases count,
{
    lemma_run_unfolds(start, outcomes, count - 1);
    if count > 1 {
        lemma_unopenable_device_never_polls(start, outcomes, count - 1);
    }
}

/// The same holds of a device that opens and then refuses its settings.
pub proof fn lemma_unconfigurable_device_never_polls(
    start: LoopView,
    outcomes: Seq<Outcome>,
    count: int,
)
    requires
        start.phase == Phase::Opening,
        2 <= count <= outcomes.len(),
        outcomes[0] is Done,
        !(outcomes[1] is Done),
    ensures
        start.at(outcomes, count).phase == Phase::Halted(HardwareError::ConfigureFailed),
        start.at(outcomes, count).action() == Action::Halt(HardwareError::ConfigureFailed),
        !start.at(outcomes, count).phase.past_setup(),
    decreases count,
{
    lemma_run_unfolds(start, outcomes, count - 1);
    if count > 2 {
        lemma_unconfigurable_device_never_polls(start, outcomes, count - 1);
    } else {
        lemma_run_unfolds(start, outcomes, 0);
    }
}

/// Startup order: the loop opens the device first and configures it second,
/// and does neither again. Wherever a run from the start has left the setup
/// of the device behind, both requests were made once and both succeeded.
pub proof fn lemma_startup_order(start: LoopView, outcomes: Seq<Outcome>, count: int)
    requires
        start.phase == Phase::Opening,
        0 <= count <= outcomes.len(),
    ensures
        start.at(outcomes, count).phase is Opening <==> count == 0,
        start.at(outcomes, count).phase is Configuring <==> count == 1 && outcomes[0] is Done,
        start.at(outcomes, count).phase.past_setup() ==> count >= 2 && outcomes[0] is Done
            && outcomes[1] is Done,
    decreases count,
{
    if count == 0 {
        assert(outcomes.take(0) =~= Seq::<Outcome>::empty());
    } else {
        lemma_startup_order(start, outcomes, count - 1);
        lemma_run_unfolds(start, outcomes, count - 1);
    }
}

/// The phase at each point of a startup in which the device opens and takes
/// its settings; `queues` says whether there is a first frame to enqueue.
/// From `startup_length(queues)` on the loop is in its cycle.
pub open spec fn startup_phase(count: int, queues: bool) -> Phase {
    if count <= 0 {
        Phase::Opening
    } else if count == 1 {
        Phase::Configuring
    } else if count == 2 {
        Phase::Binding
    } else if count == 3 {
        Phase::Resetting
    } else if count == 4 && queues {
        Phase::Queueing
    } else {
        Phase::Driving
    }
}

/// The number of requests that a startup without hardware failure makes.
pub open spec fn startup_length(queues: bool) -> int {
    if queues {
        5
    } else {
        4
    }
}

/// A startup in which the device opens and takes its settings makes each of
/// its requests once, in the fixed order, whatever the engine answers to
/// reset and enqueue: open, configure, bind, reset, then enqueue if there is
/// a first frame. Right after that the first cycle begins, and from then on
/// the loop is in its cycle.
pub proof fn lemma_startup_trace(start: LoopView, outcomes: Seq<Outcome>, count: int)
    requires
        start.phase == Phase::Opening,
        outcomes.len() >= 2,
        outcomes[0] is Done,
        outcomes[1] is Done,
        0 <= count <= outcomes.len(),
    ensures
        count <= startup_length(start.first_frame is Some) ==> start.at(outcomes, count).phase
            == startup_phase(count, start.first_frame is Some),
        count >= startup_length(start.first_frame is Some) ==> start.at(
            outcomes,
            count,
        ).phase.in_cycle(),
    decreases count,
{
    lemma_run_keeps_plan(start, outcomes.take(count));
    if count == 0 {
        assert(outcomes.take(0) =~= Seq::<Outcome>::empty());
    } else {
        lemma_startup_trace(start, outcomes, count - 1);
        lemma_run_unfolds(start, outcomes, count - 1);
        lemma_run_keeps_plan(start, outcomes.take(count - 1));
    }
}

/// The cycle has no end: once the loop is in its cycle it stays there,
/// whatever is reported. In particular it never halts.
pub proof fn lemma_cycle_never_ends(start: LoopView, outcomes: Seq<Outcome>)
    requires
        start.phase.in_cycle(),
    ensures
        start.run(outcomes).phase.in_cycle(),
        !(start.run(outcomes).phase is Halted),
    decreases outcomes.len(),
{
    if outcomes.len() > 0 {
        lemma_cycle_never_ends(start, outcomes.drop_last());
    }
}

/// Only the setup of the device can halt the loop: once the device is
/// configured, no failure stops the loop.
pub proof fn lemma_no_halt_past_setup(start: LoopView, outcomes: Seq<Outcome>)
    requires
        start.phase.past_setup(),
    ensures
        start.run(outcomes).phase.past_setup(),
        !(start.run(outcomes).phase is Halted),
    decreases outcomes.len(),
{
    if outcomes.len() > 0 {
        lemma_no_halt_past_setup(start, outcomes.drop_last());
    }
}

/// Through any number of cycles in which the read moves no byte, the engine
/// is still driven once in each cycle and is never fed: the loop passes
/// through driving, reading and sleeping, in this order, and through no
/// other phase.
pub proof fn lemma_idle_cycles(start: LoopView, outcomes: Seq<Outcome>, cycles: nat, count: int)
    requires
        start.phase == Phase::Driving,
        idle_cycles(outcomes, cycles, start.plan.scratch_capacity),
        0 <= count <= outcomes.len(),
    ensures
        start.at(outcomes, count).phase == idle_phase(count),
        start.at(outcomes, count).action() == (if count % 3 == 0 {
            Action::Drive
        } else if count % 3 == 1 {
            Action::ReadDevice { capacity: start.plan.scratch_capacity }
        } else {
            Action::Sleep { millis: start.plan.sleep_ms }
        }),
        !(start.at(outcomes, count).action() is Ingest),
    decreases count,
{
    lemma_run_keeps_plan(start, outcomes.take(count));
    if count == 0 {
        assert(outcomes.take(0) =~= Seq::<Outcome>::empty());
    } else {
        lemma_idle_cycles(start, outcomes, cycles, count - 1);
        lemma_run_unfolds(start, outcomes, count - 1);
        lemma_run_keeps_plan(start, outcomes.take(count - 1));
    }
}

/// The poll loop of one bridge.
pub struct PollLoop {
    plan: PollPlan,
    first_frame: Option<OutboundFrame>,
    phase: Phase,
}

impl View for PollLoop {
    type V = LoopView;

    closed spec fn view(&self) -> LoopView {
        LoopView {
            plan: self.plan,
            first_frame: match self.first_frame {
                Some(frame) => Some(frame@),
                None => None,
            },
            phase: self.phase,
        }
    }
}

impl PollLoop {
    /// A loop at the start: the device is to be opened. `first_frame` is
    /// enqueued once the engine has been reset, if there is one.
    pub fn new(plan: PollPlan, first_frame: Option<OutboundFrame>) -> (poll_loop: PollLoop)
        ensures
            poll_loop@ == (LoopView {
                plan: plan,
                first_frame: match first_frame {
                    Some(frame) => Some(frame@),
                    None => None,
                },
                phase: Phase::Opening,
            }),
    {
        PollLoop { plan, first_frame, phase: Phase::Opening }
    }

    /// The plan that the loop follows.
    pub fn plan(&self) -> (plan: PollPlan)
        ensures
            plan == self@.plan,
    {
        self.plan
    }

    /// Where the loop stands.
    pub fn phase(&self) -> (phase: Phase)
        ensures
            phase == self@.phase,
    {
        self.phase
    }

    /// The frame that is enqueued at startup, if any.
    pub fn first_frame(&self) -> (frame: Option<&OutboundFrame>)
        ensures
            frame is Some <==> self@.first_frame is Some,
            frame is Some ==> frame->Some_0@ == self@.first_frame->Some_0,
    {
        self.first_frame.as_ref()
    }

    /// The request that the driver is to carry out now.
    pub fn pending(&self) -> (action: Action)
        ensures
            action == self@.action(),
    {
        match self.phase {
            Phase::Opening => Action::OpenDevice,
            Phase::Configuring => Action::ConfigureDevice(self.plan.config),
            Phase::Binding => Action::BindEngine,
            Phase::Resetting => Action::ResetTransport {
                send_reset_frame: self.plan.send_reset_frame,
            },
            Phase::Queueing => Action::QueueFrame,
            Phase::Driving => Action::Drive,
            Phase::Reading => Action::ReadDevice { capacity: self.plan.scratch_capacity },
            Phase::Ingesting { length } => Action::Ingest { length },
            Phase::Sleeping => Action::Sleep { millis: self.plan.sleep_ms },
            Phase::Halted(error) => Action::Halt(error),
        }
    }

    /// Takes the outcome of the pending request and moves on. Returns the
    /// failure to log, if the loop absorbed one.
    pub fn step(&mut self, outcome: Outcome) -> (notice: Option<Notice>)
        ensures
            final(self)@ == old(self)@.step(outcome),
            notice == old(self)@.notice(outcome),
    {
        let done = match outcome {
            Outcome::Done(_) => true,
            _ => false,
        };
        match self.phase {
            Phase::Opening => {
                self.phase = if done {
                    Phase::Configuring
                } else {
                    Phase::Halted(HardwareError::OpenFailed)
                };
                None
            },
            Phase::Configuring => {
                self.phase = if done {
                    Phase::Binding
                } else {
                    Phase::Halted(HardwareError::ConfigureFailed)
                };
                None
            },
            Phase::Binding => {
                self.phase = Phase::Resetting;
                None
            },
            Phase::Resetting => {
                self.phase = if self.first_frame.is_some() {
                    Phase::Queueing
                } else {
                    Phase::Driving
                };
                if done {
                    None
                } else {
                    Some(Notice::Engine(EngineError::ResetFailed))
                }
            },
            Phase::Queueing => {
                self.phase = Phase::Driving;
                if done {
                    None
                } else {
                    Some(Notice::Engine(EngineError::EnqueueFailed))
                }
            },
            Phase::Driving => {
                self.phase = Phase::Reading;
                None
            },
            Phase::Reading => {
                match settle_read(outcome, self.plan.scratch_capacity) {
                    Ok(length) => {
                        self.phase = if length > 0 {
                            Phase::Ingesting { length }
                        } else {
                            Phase::Sleeping
                        };
                        None
                    },
                    Err(error) => {
                        self.phase = Phase::Sleeping;
                        Some(Notice::Transfer(error))
                    },
                }
            },
            Phase::Ingesting { length } => {
                self.phase = Phase::Sleeping;
                None
            },
            Phase::Sleeping => {
                self.phase = Phase::Driving;
                None
            },
            Phase::Halted(error) => None,
        }
    }
}

} // verus!
