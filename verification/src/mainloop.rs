//! The decisions of the loop that carries queued records to the daemon: when
//! to connect, when to wait, what to write next, and when to give a
//! connection up. The caller does what an action asks for and reports what
//! came of it.

use vstd::prelude::*;
use vstd::slice::slice_subrange;

verus! {

/// Number of records that the queue of outgoing records holds at most. A
/// producer that finds the queue full waits until a record has left it.
pub const QUEUE_CAPACITY: usize = 100;

/// Milliseconds to wait after a failed attempt to connect.
pub const CONNECT_RETRY_MS: u64 = 200;

/// Milliseconds to wait after a failed write before connecting anew.
pub const WRITE_RETRY_MS: u64 = 100;

/// Milliseconds between two looks at the endpoint on which the daemon
/// reaches this process.
pub const INCOMING_POLL_MS: u64 = 100;

/// Where the loop stands with the daemon.
#[derive(Debug, Clone, Copy, PartialEq, Eq, Structural)]
pub enum ConnectionState {
    Disconnected,
    Connecting,
    Connected,
}

/// What the loop is waiting for.
#[derive(Debug, Clone, Copy, PartialEq, Eq, Structural)]
pub enum Phase {
    /// The loop has not begun.
    Idle,
    /// An attempt to connect is under way.
    Connecting,
    /// A wait before the next attempt to connect is under way.
    BackingOff,
    /// The connection stands, and the next record is awaited.
    Receiving,
    /// The connection stands, and a record is being written.
    Writing,
}

impl Phase {
    /// How the phase looks from outside: before the loop begins it is
    /// disconnected, with a connection it is connected, and in between it is
    /// connecting.
    pub open spec fn connection(self) -> ConnectionState {
        match self {
            Phase::Idle => ConnectionState::Disconnected,
            Phase::Connecting => ConnectionState::Connecting,
            Phase::BackingOff => ConnectionState::Connecting,
            Phase::Receiving => ConnectionState::Connected,
            Phase::Writing => ConnectionState::Connected,
        }
    }
}

/// What the caller reports to the loop.
pub enum DispatchEvent {
    /// The loop is to begin.
    Started,
    /// The endpoint of the daemon was opened for writing.
    ConnectSucceeded,
    /// The endpoint of the daemon could not be opened.
    ConnectFailed,
    /// The wait that was asked for is over.
    BackoffElapsed,
    /// The queue handed out a record, framed and ready to be written.
    RecordReceived(Vec<u8>),
    /// The endpoint took this many of the bytes offered.
    Written(usize),
    /// The write was interrupted before the endpoint took a byte.
    WriteInterrupted,
    /// The write failed.
    WriteFailed,
}

/// What an event holds.
pub enum EventView {
    Started,
    ConnectSucceeded,
    ConnectFailed,
    BackoffElapsed,
    RecordReceived(Seq<u8>),
    Written(nat),
    WriteInterrupted,
    WriteFailed,
}

impl View for DispatchEvent {
    type V = EventView;

    open spec fn view(&self) -> EventView {
        match self {
            DispatchEvent::Started => EventView::Started,
            DispatchEvent::ConnectSucceeded => EventView::ConnectSucceeded,
            DispatchEvent::ConnectFailed => EventView::ConnectFailed,
            DispatchEvent::BackoffElapsed => EventView::BackoffElapsed,
            DispatchEvent::RecordReceived(bytes) => EventView::RecordReceived(bytes@),
            DispatchEvent::Written(n) => EventView::Written(*n as nat),
            DispatchEvent::WriteInterrupted => EventView::WriteInterrupted,
            DispatchEvent::WriteFailed => EventView::WriteFailed,
        }
    }
}

/// What the loop asks of the caller.
#[derive(Debug, Clone, Copy, PartialEq, Eq, Structural)]
pub enum DispatchAction {
    /// Open the endpoint of the daemon for writing, without creating it.
    Connect,
    /// Wait this many milliseconds.
    Wait(u64),
    /// Take the next record from the queue.
    Receive,
    /// Write the bytes that are pending.
    Write,
}

/// What the loop holds: its phase, and the bytes of the record in hand that
/// have not been written yet.
pub struct DispatchView {
    pub phase: Phase,
    pub pending: Seq<u8>,
}

impl DispatchView {
    /// The loop's answer to an event: where it stands afterwards, and what
    /// it asks of the caller. A write that was interrupted is made again.
    /// In a phase that waits for something else, an event counts as a
    /// failure of what the phase waits for.
    pub open spec fn next(self, event: EventView) -> (DispatchView, DispatchAction) {
        match self.phase {
            Phase::Idle => (
                DispatchView { phase: Phase::Connecting, pending: Seq::empty() },
                DispatchAction::Connect,
            ),
            Phase::Connecting => match event {
                EventView::ConnectSucceeded => (
                    DispatchView { phase: Phase::Receiving, pending: Seq::empty() },
                    DispatchAction::Receive,
                ),
                _ => (
                    DispatchView { phase: Phase::BackingOff, pending: Seq::empty() },
                    DispatchAction::Wait(CONNECT_RETRY_MS),
                ),
            },
            Phase::BackingOff => (
                DispatchView { phase: Phase::Connecting, pending: Seq::empty() },
                DispatchAction::Connect,
            ),
            Phase::Receiving => match event {
                EventView::RecordReceived(bytes) => if bytes.len() == 0 {
                    (
                        DispatchView { phase: Phase::Receiving, pending: Seq::empty() },
                        DispatchAction::Receive,
                    )
                } else {
                    (DispatchView { phase: Phase::Writing, pending: bytes }, DispatchAction::Write)
                },
                _ => (
                    DispatchView { phase: Phase::BackingOff, pending: Seq::empty() },
                    DispatchAction::Wait(WRITE_RETRY_MS),
                ),
            },
            Phase::Writing => match event {
                EventView::Written(n) => if n == 0 {
                    (
                        DispatchView { phase: Phase::BackingOff, pending: Seq::empty() },
                        DispatchAction::Wait(WRITE_RETRY_MS),
                    )
                } else if n >= self.pending.len() {
                    (
                        DispatchView { phase: Phase::Receiving, pending: Seq::empty() },
                        DispatchAction::Receive,
                    )
                } else {
                    (
                        DispatchView {
                            phase: Phase::Writing,
                            pending: self.pending.skip(n as int),
                        },
                        DispatchAction::Write,
                    )
                },
                EventView::WriteInterrupted => (self, DispatchAction::Write),
                _ => (
                    DispatchView { phase: Phase::BackingOff, pending: Seq::empty() },
                    DispatchAction::Wait(WRITE_RETRY_MS),
                ),
            },
        }
    }

    /// Bytes are pending exactly while a record is being written.
    pub open spec fn valid(self) -> bool {
        self.phase == Phase::Writing <==> self.pending.len() > 0
    }
}

/// The loop's memory between two events.
pub struct Dispatcher {
    phase: Phase,
    record: Vec<u8>,
    written: usize,
}

impl View for Dispatcher {
    type V = DispatchView;

    closed spec fn view(&self) -> DispatchView {
        DispatchView { phase: self.phase, pending: self.record@.skip(self.written as int) }
    }
}

impl Dispatcher {
    /// The loop's memory is well formed when bytes are pending exactly
    /// while a record is being written.
    pub closed spec fn wf(&self) -> bool {
        &&& self.written <= self.record@.len()
        &&& self@.valid()
    }

    /// A loop that has not begun.
    pub fn new() -> (dispatcher: Self)
        ensures
            dispatcher.wf(),
            dispatcher@ == (DispatchView { phase: Phase::Idle, pending: Seq::empty() }),
    {
        let dispatcher = Dispatcher { phase: Phase::Idle, record: Vec::new(), written: 0 };
        assert(dispatcher@.pending =~= Seq::<u8>::empty());
        dispatcher
    }

    pub fn phase(&self) -> (phase: Phase)
        ensures
            phase == self@.phase,
    {
        self.phase
    }

    /// Where the loop stands with the daemon.
    pub fn connection_state(&self) -> (state: ConnectionState)
        ensures
            state == self@.phase.connection(),
    {
        match self.phase {
            Phase::Idle => ConnectionState::Disconnected,
            Phase::Connecting => ConnectionState::Connecting,
            Phase::BackingOff => ConnectionState::Connecting,
            Phase::Receiving => ConnectionState::Connected,
            Phase::Writing => ConnectionState::Connected,
        }
    }

    /// The bytes that a `Write` is to offer to the endpoint.
    pub fn pending(&self) -> (bytes: &[u8])
        requires
            self.wf(),
        ensures
            bytes@ == self@.pending,
    {
        let bytes = slice_subrange(self.record.as_slice(), self.written, self.record.len());
        bytes
    }

    fn rest(&mut self, phase: Phase)
        requires
            phase != Phase::Writing,
        ensures
            final(self).wf(),
            final(self)@ == (DispatchView { phase, pending: Seq::empty() }),
    {
        self.phase = phase;
        self.record = Vec::new();
        self.written = 0;
        assert(self@.pending =~= Seq::<u8>::empty());
    }

    /// Takes an event in and says what is to be done next. No event is
    /// fatal: whatever fails, the loop goes on to connect anew.
    pub fn step(&mut self, event: DispatchEvent) -> (action: DispatchAction)
        requires
            old(self).wf(),
        ensures
            final(self).wf(),
            (final(self)@, action) == old(self)@.next(event@),
    {
        match self.phase {
            Phase::Idle => {
                self.rest(Phase::Connecting);
                DispatchAction::Connect
            },
            Phase::Connecting => match event {
                DispatchEvent::ConnectSucceeded => {
                    self.rest(Phase::Receiving);
                    DispatchAction::Receive
                },
                _ => {
                    self.rest(Phase::BackingOff);
                    DispatchAction::Wait(CONNECT_RETRY_MS)
                },
            },
            Phase::BackingOff => {
                self.rest(Phase::Connecting);
                DispatchAction::Connect
            },
            Phase::Receiving => match event {
                DispatchEvent::RecordReceived(bytes) => {
                    if bytes.len() == 0 {
                        self.rest(Phase::Receiving);
                        DispatchAction::Receive
                    } else {
                        self.phase = Phase::Writing;
                        self.record = bytes;
                        self.written = 0;
                        assert(self@.pending =~= bytes@);
                        DispatchAction::Write
                    }
                },
                _ => {
                    self.rest(Phase::BackingOff);
                    DispatchAction::Wait(WRITE_RETRY_MS)
                },
            },
            Phase::Writing => match event {
                DispatchEvent::Written(n) => {
                    if n == 0 {
                        self.rest(Phase::BackingOff);
                        DispatchAction::Wait(WRITE_RETRY_MS)
                    } else if n >= self.record.len() - self.written {
                        self.rest(Phase::Receiving);
                        DispatchAction::Receive
                    } else {
                        let ghost before = self@.pending;
                        self.written = self.written + n;
                        assert(self@.pending =~= before.skip(n as int));
                        DispatchAction::Write
                    }
                },
                DispatchEvent::WriteInterrupted => DispatchAction::Write,
                _ => {
                    self.rest(Phase::BackingOff);
                    DispatchAction::Wait(WRITE_RETRY_MS)
                },
            },
        }
    }
}

/// While no connection stands, nothing but a successful attempt to connect
/// makes one, and a failed attempt leads to a wait and then to the next
/// attempt.
pub proof fn lemma_connect_retries(state: DispatchView, event: EventView)
    requires
        state.valid(),
        state.phase.connection() == ConnectionState::Connecting,
    ensures
        state.next(event).0.valid(),
        state.next(event).0.phase.connection() == ConnectionState::Connected <==> state.phase
            == Phase::Connecting && event == EventView::ConnectSucceeded,
        state.phase == Phase::Connecting && event != EventView::ConnectSucceeded ==> {
            &&& state.next(event).1 == DispatchAction::Wait(CONNECT_RETRY_MS)
            &&& state.next(event).0.next(EventView::BackoffElapsed).1 == DispatchAction::Connect
            &&& state.next(event).0.next(EventView::BackoffElapsed).0.next(
                EventView::ConnectSucceeded,
            ).0.phase == Phase::Receiving
        },
{
}

/// A failed write, or a write that takes no byte, gives the connection up:
/// the loop waits, connects anew, and then asks for the next record. The
/// record that was in hand is dropped, not written again.
pub proof fn lemma_write_failure_reconnects(state: DispatchView, event: EventView)
    requires
        state.valid(),
        state.phase == Phase::Writing,
        event == EventView::WriteFailed || event == EventView::Written(0),
    ensures
        ({
            let (failed, wait) = state.next(event);
            let (retrying, connect) = failed.next(EventView::BackoffElapsed);
            let (resumed, receive) = retrying.next(EventView::ConnectSucceeded);
            &&& failed.phase.connection() == ConnectionState::Connecting
            &&& failed.pending.len() == 0
            &&& wait == DispatchAction::Wait(WRITE_RETRY_MS)
            &&& connect == DispatchAction::Connect
            &&& resumed.phase == Phase::Receiving
            &&& resumed.pending.len() == 0
            &&& receive == DispatchAction::Receive
        }),
{
}

/// An interrupted write is made again with the same bytes, and the
/// connection stands.
pub proof fn lemma_interrupted_write_repeats(state: DispatchView)
    requires
        state.valid(),
        state.phase == Phase::Writing,
    ensures
        state.next(EventView::WriteInterrupted) == (state, DispatchAction::Write),
{
}

/// Writing goes on until every byte of the record has been taken: a write
/// that takes some but not all bytes leaves exactly the rest pending.
pub proof fn lemma_partial_write(state: DispatchView, n: nat)
    requires
        state.valid(),
        state.phase == Phase::Writing,
        0 < n,
    ensures
        n < state.pending.len() ==> state.next(EventView::Written(n)) == (
            DispatchView { phase: Phase::Writing, pending: state.pending.skip(n as int) },
            DispatchAction::Write,
        ),
        n >= state.pending.len() ==> state.next(EventView::Written(n)) == (
            DispatchView { phase: Phase::Receiving, pending: Seq::empty() },
            DispatchAction::Receive,
        ),
        state.next(EventView::Written(n)).0.valid(),
{
}

} // verus!
