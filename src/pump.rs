//! The duplex pump: the decisions of the loop that moves bytes from the serial
//! device to the console and from the outbound queue to the serial device.
//!
//! The pump does no I/O. The caller waits for whatever the current state asks
//! for (serial-readable or a queue item while running, serial-writable while a
//! byte is being written), performs the read, the dequeue or the write attempt,
//! and hands its outcome to `step` as an event. `step` returns what to do next.
use vstd::prelude::*;

verus! {

/// The capacity of the scratch buffer that inbound reads fill.
pub const INBOUND_CAPACITY: usize = 32;

/// Where the pump stands.
#[derive(Clone, Copy, Debug, PartialEq, Eq, Structural)]
pub enum PumpState {
    /// Waiting for serial-readable or for the outbound queue.
    Running,
    /// A byte was taken from the queue and is being written; it is retried
    /// until a write succeeds.
    Writing(u8),
    /// The queue was closed; the session is ending.
    Terminating,
    /// The loop is over.
    Stopped,
}

/// What the caller observed.
#[derive(Debug)]
pub enum PumpEvent {
    /// A read from the serial device returned these bytes.
    Received(Vec<u8>),
    /// A read from the serial device would have blocked, or gave nothing.
    ReadWouldBlock,
    /// The outbound queue handed over this byte.
    Dequeued(u8),
    /// The outbound queue is closed: the producer is gone.
    QueueClosed,
    /// The pending byte was written to the serial device.
    Written,
    /// A write attempt would have blocked, or failed.
    WriteWouldBlock,
}

/// What the caller is to do.
#[derive(Debug, PartialEq, Eq)]
pub enum PumpAction {
    /// Print these bytes to the console, in order, and flush.
    Render(Vec<u8>),
    /// Nothing: go back to waiting.
    Wait,
    /// Wait for serial-writable, then try to write this one byte.
    Write(u8),
    /// Leave the loop.
    Stop,
}

pub enum EventModel {
    Received(Seq<u8>),
    ReadWouldBlock,
    Dequeued(u8),
    QueueClosed,
    Written,
    WriteWouldBlock,
}

pub enum ActionModel {
    Render(Seq<u8>),
    Wait,
    Write(u8),
    Stop,
}

impl View for PumpEvent {
    type V = EventModel;

    open spec fn view(&self) -> EventModel {
        match self {
            PumpEvent::Received(v) => EventModel::Received(v@),
            PumpEvent::ReadWouldBlock => EventModel::ReadWouldBlock,
            PumpEvent::Dequeued(b) => EventModel::Dequeued(*b),
            PumpEvent::QueueClosed => EventModel::QueueClosed,
            PumpEvent::Written => EventModel::Written,
            PumpEvent::WriteWouldBlock => EventModel::WriteWouldBlock,
        }
    }
}

impl View for PumpAction {
    type V = ActionModel;

    open spec fn view(&self) -> ActionModel {
        match self {
            PumpAction::Render(v) => ActionModel::Render(v@),
            PumpAction::Wait => ActionModel::Wait,
            PumpAction::Write(b) => ActionModel::Write(*b),
            PumpAction::Stop => ActionModel::Stop,
        }
    }
}

/// The pump as a mathematical value: its state, every byte taken from the
/// queue, every byte written to the device and every byte rendered to the
/// console, each in order.
pub struct PumpModel {
    pub state: PumpState,
    pub dequeued: Seq<u8>,
    pub written: Seq<u8>,
    pub rendered: Seq<u8>,
}

/// The byte taken from the queue and not yet written, if any.
pub open spec fn pending(state: PumpState) -> Seq<u8> {
    match state {
        PumpState::Writing(b) => seq![b],
        _ => Seq::empty(),
    }
}

/// Every byte taken from the queue was written, in the order taken, except at
/// most the one being written now.
pub open spec fn pump_wf(m: PumpModel) -> bool {
    m.dequeued == m.written + pending(m.state)
}

/// The pump before its first event.
pub open spec fn initial_model() -> PumpModel {
    PumpModel {
        state: PumpState::Running,
        dequeued: Seq::empty(),
        written: Seq::empty(),
        rendered: Seq::empty(),
    }
}

/// Whether the pump can take `e` in state `s`. The queue is only read while
/// running: a byte being written must not be overtaken, and a closed queue
/// hands nothing more.
pub open spec fn accepts(s: PumpState, e: EventModel) -> bool {
    match e {
        EventModel::Dequeued(_) | EventModel::QueueClosed => s is Running,
        _ => true,
    }
}

/// One step of the pump: the state after event `e`, and the action to take.
pub open spec fn next(m: PumpModel, e: EventModel) -> (PumpModel, ActionModel) {
    match m.state {
        PumpState::Terminating | PumpState::Stopped => (
            PumpModel { state: PumpState::Stopped, ..m },
            ActionModel::Stop,
        ),
        PumpState::Running => match e {
            EventModel::Received(v) => (
                PumpModel { rendered: m.rendered + v, ..m },
                ActionModel::Render(v),
            ),
            EventModel::Dequeued(b) => (
                PumpModel { state: PumpState::Writing(b), dequeued: m.dequeued.push(b), ..m },
                ActionModel::Write(b),
            ),
            EventModel::QueueClosed => (
                PumpModel { state: PumpState::Terminating, ..m },
                ActionModel::Stop,
            ),
            _ => (m, ActionModel::Wait),
        },
        PumpState::Writing(b) => match e {
            EventModel::Received(v) => (
                PumpModel { rendered: m.rendered + v, ..m },
                ActionModel::Render(v),
            ),
            EventModel::Written => (
                PumpModel { state: PumpState::Running, written: m.written.push(b), ..m },
                ActionModel::Wait,
            ),
            EventModel::WriteWouldBlock => (m, ActionModel::Write(b)),
            _ => (m, ActionModel::Wait),
        },
    }
}

/// The pump after the events `es`, one after another, from `m`.
pub open spec fn run(m: PumpModel, es: Seq<EventModel>) -> PumpModel
    decreases es.len(),
{
    if es.len() == 0 {
        m
    } else {
        next(run(m, es.drop_last()), es.last()).0
    }
}

/// Whether the pump takes each of the events `es` in the state it is in then.
pub open spec fn accepted_run(m: PumpModel, es: Seq<EventModel>) -> bool
    decreases es.len(),
{
    if es.len() == 0 {
        true
    } else {
        accepted_run(m, es.drop_last()) && accepts(run(m, es.drop_last()).state, es.last())
    }
}

/// The bytes that the queue handed over in `es`, in order.
pub open spec fn queue_bytes(es: Seq<EventModel>) -> Seq<u8>
    decreases es.len(),
{
    if es.len() == 0 {
        Seq::empty()
    } else {
        match es.last() {
            EventModel::Dequeued(b) => queue_bytes(es.drop_last()).push(b),
            _ => queue_bytes(es.drop_last()),
        }
    }
}

/// The bytes that reads from the device returned in `es`, in order.
pub open spec fn device_bytes(es: Seq<EventModel>) -> Seq<u8>
    decreases es.len(),
{
    if es.len() == 0 {
        Seq::empty()
    } else {
        match es.last() {
            EventModel::Received(v) => device_bytes(es.drop_last()) + v,
            _ => device_bytes(es.drop_last()),
        }
    }
}

/// Order in both directions: over any run of events that the pump takes, the
/// bytes written to the device are the bytes taken from the queue, in the same
/// order, each once, but for at most the one being written now; and until the
/// pump stops, the bytes rendered to the console are the bytes read from the
/// device, in order.
pub proof fn lemma_fifo(es: Seq<EventModel>)
    requires
        accepted_run(initial_model(), es),
    ensures
        pump_wf(run(initial_model(), es)),
        run(initial_model(), es).dequeued == queue_bytes(es),
        run(initial_model(), es).written + pending(run(initial_model(), es).state)
            == queue_bytes(es),
        run(initial_model(), es).written.is_prefix_of(queue_bytes(es)),
        !(run(initial_model(), es).state is Stopped) ==> run(initial_model(), es).rendered
            == device_bytes(es),
    decreases es.len(),
{
    let m0 = initial_model();
    if es.len() == 0 {
        assert(m0.dequeued =~= m0.written + pending(m0.state));
    } else {
        let pre = es.drop_last();
        lemma_fifo(pre);
        let m = run(m0, pre);
        let e = es.last();
        let m2 = next(m, e).0;
        assert(m2 == run(m0, es));
        match m.state {
            PumpState::Running => {
                match e {
                    EventModel::Dequeued(b) => {
                        assert(m2.dequeued =~= m2.written + pending(m2.state));
                    },
                    EventModel::Received(v) => {},
                    _ => {},
                }
            },
            PumpState::Writing(b) => {
                match e {
                    EventModel::Written => {
                        assert(m2.dequeued =~= m2.written + pending(m2.state));
                    },
                    _ => {},
                }
            },
            _ => {
                assert(m2.dequeued =~= m2.written + pending(m2.state));
            },
        }
        let q = queue_bytes(es);
        assert(m2.written + pending(m2.state) == q);
        assert forall|i: int| 0 <= i < m2.written.len() implies m2.written[i] == q[i] by {
            assert((m2.written + pending(m2.state))[i] == m2.written[i]);
        }
    }
}

/// Termination: once a running pump sees the queue closed it asks the caller
/// to stop, and it is stopped after at most one more event of any kind, such
/// as inbound data still pending.
pub proof fn lemma_termination(m: PumpModel, es: Seq<EventModel>)
    requires
        m.state is Running,
        es.len() > 0,
    ensures
        next(m, EventModel::QueueClosed).1 is Stop,
        next(m, EventModel::QueueClosed).0.state is Terminating,
        run(next(m, EventModel::QueueClosed).0, es).state is Stopped,
        run(next(m, EventModel::QueueClosed).0, es).written == m.written,
{
    let t = next(m, EventModel::QueueClosed).0;
    lemma_stopped_writes_nothing(t, es);
}

/// A terminating or stopped pump writes no more bytes.
pub proof fn lemma_stopped_writes_nothing(m: PumpModel, es: Seq<EventModel>)
    requires
        m.state is Terminating || m.state is Stopped,
    ensures
        run(m, es).written == m.written,
        es.len() > 0 ==> run(m, es).state is Stopped,
    decreases es.len(),
{
    if es.len() > 0 {
        lemma_stopped_writes_nothing(m, es.drop_last());
    }
}

/// A read that would block changes nothing: the pump goes straight back to
/// waiting, with the same state and the same byte, if any, to write.
pub proof fn lemma_would_block_read(m: PumpModel)
    requires
        m.state is Running || m.state is Writing,
    ensures
        next(m, EventModel::ReadWouldBlock) == (m, ActionModel::Wait),
{
}

/// A failed write attempt keeps the byte: the pump asks for the same byte to
/// be written again, and writes nothing meanwhile.
pub proof fn lemma_write_retry(m: PumpModel, b: u8)
    requires
        m.state == PumpState::Writing(b),
    ensures
        next(m, EventModel::WriteWouldBlock) == (m, ActionModel::Write(b)),
{
}

/// The event for the outcome of one read into the scratch buffer `buf`:
/// `Some(n)` when the read filled the first `n` bytes, `None` when it would
/// have blocked or failed.
pub fn read_event(buf: &[u8], outcome: Option<usize>) -> (r: PumpEvent)
    requires
        outcome matches Some(n) ==> n <= buf@.len(),
    ensures
        outcome is None ==> r@ == EventModel::ReadWouldBlock,
        outcome matches Some(n) ==> r@ == EventModel::Received(buf@.subrange(0, n as int)),
{
    match outcome {
        None => PumpEvent::ReadWouldBlock,
        Some(n) => {
            let mut out: Vec<u8> = Vec::new();
            let mut i: usize = 0;
            while i < n
                invariant
                    n <= buf@.len(),
                    i <= n,
                    out@ == buf@.subrange(0, i as int),
                decreases n - i,
            {
                out.push(buf[i]);
                i = i + 1;
                assert(out@ =~= buf@.subrange(0, i as int));
            }
            PumpEvent::Received(out)
        },
    }
}

/// The duplex pump.
pub struct Pump {
    state: PumpState,
    dequeued: Ghost<Seq<u8>>,
    written: Ghost<Seq<u8>>,
    rendered: Ghost<Seq<u8>>,
}

impl View for Pump {
    type V = PumpModel;

    closed spec fn view(&self) -> PumpModel {
        PumpModel {
            state: self.state,
            dequeued: self.dequeued@,
            written: self.written@,
            rendered: self.rendered@,
        }
    }
}

impl Pump {
    /// A running pump that has moved no byte yet.
    pub fn new() -> (r: Pump)
        ensures
            r@ == initial_model(),
            pump_wf(r@),
    {
        let r = Pump {
            state: PumpState::Running,
            dequeued: Ghost(Seq::empty()),
            written: Ghost(Seq::empty()),
            rendered: Ghost(Seq::empty()),
        };
        assert(r@.dequeued =~= r@.written + pending(r@.state));
        r
    }

    pub fn state(&self) -> (r: PumpState)
        ensures
            r == self@.state,
    {
        self.state
    }

    /// Whether the pump can take `event` now.
    pub fn accepts(&self, event: &PumpEvent) -> (r: bool)
        ensures
            r == accepts(self@.state, event@),
    {
        match event {
            PumpEvent::Dequeued(_) | PumpEvent::QueueClosed => self.state == PumpState::Running,
            _ => true,
        }
    }

    /// Takes one event and says what to do next.
    pub fn step(&mut self, event: PumpEvent) -> (r: PumpAction)
        requires
            pump_wf(old(self)@),
            accepts(old(self)@.state, event@),
        ensures
            (final(self)@, r@) == next(old(self)@, event@),
            pump_wf(final(self)@),
    {
        match self.state {
            PumpState::Terminating | PumpState::Stopped => {
                proof {
                    assert(self.dequeued@ =~= self.written@ + Seq::<u8>::empty());
                }
                self.state = PumpState::Stopped;
                PumpAction::Stop
            },
            PumpState::Running => match event {
                PumpEvent::Received(v) => {
                    self.rendered = Ghost(self.rendered@ + v@);
                    PumpAction::Render(v)
                },
                PumpEvent::Dequeued(b) => {
                    proof {
                        assert(self.dequeued@.push(b) =~= self.written@ + seq![b]);
                    }
                    self.state = PumpState::Writing(b);
                    self.dequeued = Ghost(self.dequeued@.push(b));
                    PumpAction::Write(b)
                },
                PumpEvent::QueueClosed => {
                    self.state = PumpState::Terminating;
                    PumpAction::Stop
                },
                _ => PumpAction::Wait,
            },
            PumpState::Writing(b) => match event {
                PumpEvent::Received(v) => {
                    self.rendered = Ghost(self.rendered@ + v@);
                    PumpAction::Render(v)
                },
                PumpEvent::Written => {
                    proof {
                        assert(self.dequeued@ =~= self.written@.push(b) + Seq::<u8>::empty());
                    }
                    self.state = PumpState::Running;
                    self.written = Ghost(self.written@.push(b));
                    PumpAction::Wait
                },
                PumpEvent::WriteWouldBlock => PumpAction::Write(b),
                _ => PumpAction::Wait,
            },
        }
    }

    /// Ends a terminating pump: it is then stopped. Any other pump is left as
    /// it is. Returns whether the pump is stopped.
    pub fn finish(&mut self) -> (r: bool)
        requires
            pump_wf(old(self)@),
        ensures
            pump_wf(final(self)@),
            old(self)@.state is Terminating || old(self)@.state is Stopped ==> final(self)@
                == (PumpModel { state: PumpState::Stopped, ..old(self)@ }),
            old(self)@.state is Running || old(self)@.state is Writing ==> final(self)@
                == old(self)@,
            r == (final(self)@.state is Stopped),
    {
        match self.state {
            PumpState::Terminating | PumpState::Stopped => {
                proof {
                    assert(self.dequeued@ =~= self.written@ + Seq::<u8>::empty());
                }
                self.state = PumpState::Stopped;
                true
            },
            _ => false,
        }
    }
}

} // verus!
