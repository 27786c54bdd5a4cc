//! Relaying one stream into another through a bounded buffer, as a machine
//! that is fed the results of reads and writes and answers what to do next.

use vstd::prelude::*;

verus! {

/// Why a relay gave up.
#[derive(Debug, PartialEq, Eq)]
pub enum RelayError {
    /// Reading the source failed.
    Read(String),
    /// Writing to the sink failed.
    Write(String),
    /// The sink took no byte of a non-empty chunk.
    WriteZero,
    /// Flushing the sink failed.
    Flush(String),
}

/// Where a relay stands.
#[derive(Debug, Clone, Copy, PartialEq, Eq, Structural)]
pub enum RelayPhase {
    /// The buffer is empty; waiting for a read.
    Reading,
    /// The buffer holds bytes; waiting for a write.
    Writing,
    /// The source has ended; waiting for the flush.
    Flushing,
    /// Everything read was written and flushed.
    Finished,
    /// A read, a write or the flush failed.
    Failed,
}

/// What happened on the two streams since the last action was handed out.
#[derive(Debug, PartialEq, Eq)]
pub enum RelayEvent {
    /// The source gave these bytes; none means that it has ended.
    Read(Vec<u8>),
    ReadFailed(String),
    /// The sink took this many bytes from the front of the buffer.
    Wrote(usize),
    WriteFailed(String),
    Flushed,
    FlushFailed(String),
}

/// What to do next with the two streams.
#[derive(Debug, PartialEq, Eq)]
pub enum RelayAction {
    /// Read at most this many bytes from the source.
    Read(usize),
    /// Write the buffered bytes to the sink.
    Write,
    /// Flush the sink.
    Flush,
    /// The relay has ended: with the number of bytes relayed, or the error.
    Finish(Result<u64, RelayError>),
    /// The event does not belong to the current phase; it was dropped.
    Ignore,
}

/// The default size of the buffer, in bytes.
pub const DEFAULT_CAPACITY: usize = 8192;

/// A relay in progress.
pub struct Relay {
    phase: RelayPhase,
    capacity: usize,
    chunk: Vec<u8>,
    pos: usize,
    amount: u64,
}

/// A relay as contracts see it.
pub struct RelayView {
    pub phase: RelayPhase,
    /// The most bytes that the buffer ever holds.
    pub capacity: nat,
    /// The bytes read and not yet written.
    pub pending: Seq<u8>,
    /// The number of bytes written, as far as a `u64` counts.
    pub amount: u64,
}

/// `amount` and `n` more, as far as a `u64` counts.
pub open spec fn counted(amount: u64, n: nat) -> u64 {
    if amount + n > u64::MAX {
        u64::MAX
    } else {
        (amount + n) as u64
    }
}

impl RelayView {
    /// The state after `event`, and the action that goes with it.
    pub open spec fn next(self, event: RelayEvent) -> (RelayView, RelayAction) {
        match (self.phase, event) {
            (RelayPhase::Reading, RelayEvent::Read(bytes)) => if bytes@.len() == 0 {
                (RelayView { phase: RelayPhase::Flushing, ..self }, RelayAction::Flush)
            } else if bytes@.len() > self.capacity {
                (self, RelayAction::Ignore)
            } else {
                (
                    RelayView { phase: RelayPhase::Writing, pending: bytes@, ..self },
                    RelayAction::Write,
                )
            },
            (RelayPhase::Reading, RelayEvent::ReadFailed(why)) => (
                RelayView { phase: RelayPhase::Failed, ..self },
                RelayAction::Finish(Err(RelayError::Read(why))),
            ),
            (RelayPhase::Writing, RelayEvent::Wrote(n)) => if n == 0 {
                (
                    RelayView { phase: RelayPhase::Failed, ..self },
                    RelayAction::Finish(Err(RelayError::WriteZero)),
                )
            } else if n > self.pending.len() {
                (self, RelayAction::Ignore)
            } else if n == self.pending.len() {
                (
                    RelayView {
                        phase: RelayPhase::Reading,
                        pending: Seq::empty(),
                        amount: counted(self.amount, n as nat),
                        ..self
                    },
                    RelayAction::Read(self.capacity as usize),
                )
            } else {
                (
                    RelayView {
                        pending: self.pending.subrange(n as int, self.pending.len() as int),
                        amount: counted(self.amount, n as nat),
                        ..self
                    },
                    RelayAction::Write,
                )
            },
            (RelayPhase::Writing, RelayEvent::WriteFailed(why)) => (
                RelayView { phase: RelayPhase::Failed, ..self },
                RelayAction::Finish(Err(RelayError::Write(why))),
            ),
            (RelayPhase::Flushing, RelayEvent::Flushed) => (
                RelayView { phase: RelayPhase::Finished, ..self },
                RelayAction::Finish(Ok(self.amount)),
            ),
            (RelayPhase::Flushing, RelayEvent::FlushFailed(why)) => (
                RelayView { phase: RelayPhase::Failed, ..self },
                RelayAction::Finish(Err(RelayError::Flush(why))),
            ),
            _ => (self, RelayAction::Ignore),
        }
    }

    /// A relay that has moved nothing yet.
    pub open spec fn fresh(capacity: nat) -> RelayView {
        RelayView { phase: RelayPhase::Reading, capacity, pending: Seq::empty(), amount: 0 }
    }
}

impl View for Relay {
    type V = RelayView;

    closed spec fn view(&self) -> RelayView {
        RelayView {
            phase: self.phase,
            capacity: self.capacity as nat,
            pending: self.chunk@.subrange(self.pos as int, self.chunk@.len() as int),
            amount: self.amount,
        }
    }
}

impl Relay {
    #[verifier::type_invariant]
    spec fn well_formed(&self) -> bool {
        &&& self.pos <= self.chunk@.len()
        &&& self.chunk@.len() <= self.capacity
        &&& self.phase != RelayPhase::Writing && self.phase != RelayPhase::Failed ==> self.pos
            == self.chunk@.len()
    }

    /// A relay with a buffer of the default size.
    pub fn new() -> (relay: Self)
        ensures
            relay@ == RelayView::fresh(DEFAULT_CAPACITY as nat),
    {
        Relay::with_capacity(DEFAULT_CAPACITY)
    }

    /// A relay whose buffer holds at most `capacity` bytes.
    pub fn with_capacity(capacity: usize) -> (relay: Self)
        ensures
            relay@ == RelayView::fresh(capacity as nat),
    {
        let relay = Relay {
            phase: RelayPhase::Reading,
            capacity,
            chunk: Vec::new(),
            pos: 0,
            amount: 0,
        };
        proof {
            assert(relay@.pending =~= Seq::<u8>::empty());
        }
        relay
    }

    /// The action a fresh relay starts with: a read of at most the buffer's
    /// size.
    pub fn first_action(&self) -> (action: RelayAction)
        ensures
            action == RelayAction::Read(self@.capacity as usize),
    {
        RelayAction::Read(self.capacity)
    }

    /// The current phase.
    pub fn phase(&self) -> (p: RelayPhase)
        ensures
            p == self@.phase,
    {
        self.phase
    }

    /// The bytes read and not yet written: what a write is to send.
    pub fn pending(&self) -> (bytes: &[u8])
        ensures
            bytes@ == self@.pending,
            self@.tidy(),
    {
        proof {
            use_type_invariant(self);
        }
        vstd::slice::slice_subrange(self.chunk.as_slice(), self.pos, self.chunk.len())
    }

    /// The number of bytes written so far, as far as a `u64` counts.
    pub fn amount(&self) -> (n: u64)
        ensures
            n == self@.amount,
    {
        self.amount
    }

    /// Takes one event and answers with the next action.
    pub fn step(&mut self, event: RelayEvent) -> (action: RelayAction)
        ensures
            (final(self)@, action) == old(self)@.next(event),
    {
        proof {
            use_type_invariant(&*self);
        }
        match (self.phase, event) {
            (RelayPhase::Reading, RelayEvent::Read(bytes)) => {
                if bytes.len() == 0 {
                    self.phase = RelayPhase::Flushing;
                    RelayAction::Flush
                } else if bytes.len() > self.capacity {
                    RelayAction::Ignore
                } else {
                    self.phase = RelayPhase::Writing;
                    self.pos = 0;
                    self.chunk = bytes;
                    proof {
                        assert(self@.pending =~= bytes@);
                    }
                    RelayAction::Write
                }
            },
            (RelayPhase::Reading, RelayEvent::ReadFailed(why)) => {
                self.phase = RelayPhase::Failed;
                RelayAction::Finish(Err(RelayError::Read(why)))
            },
            (RelayPhase::Writing, RelayEvent::Wrote(n)) => {
                let left: usize = self.chunk.len() - self.pos;
                if n == 0 {
                    self.phase = RelayPhase::Failed;
                    RelayAction::Finish(Err(RelayError::WriteZero))
                } else if n > left {
                    RelayAction::Ignore
                } else {
                    let wide: u64 = n as u64;
                    self.amount = if self.amount > u64::MAX - wide {
                        u64::MAX
                    } else {
                        self.amount + wide
                    };
                    self.pos = self.pos + n;
                    if n == left {
                        self.phase = RelayPhase::Reading;
                        proof {
                            assert(self@.pending =~= Seq::<u8>::empty());
                        }
                        RelayAction::Read(self.capacity)
                    } else {
                        proof {
                            assert(self@.pending =~= old(self)@.pending.subrange(
                                n as int,
                                old(self)@.pending.len() as int,
                            ));
                        }
                        RelayAction::Write
                    }
                }
            },
            (RelayPhase::Writing, RelayEvent::WriteFailed(why)) => {
                self.phase = RelayPhase::Failed;
                RelayAction::Finish(Err(RelayError::Write(why)))
            },
            (RelayPhase::Flushing, RelayEvent::Flushed) => {
                self.phase = RelayPhase::Finished;
                RelayAction::Finish(Ok(self.amount))
            },
            (RelayPhase::Flushing, RelayEvent::FlushFailed(why)) => {
                self.phase = RelayPhase::Failed;
                RelayAction::Finish(Err(RelayError::Flush(why)))
            },
            _ => RelayAction::Ignore,
        }
    }
}

impl RelayView {
    /// Whether the buffer is within its size, and empty whenever the relay
    /// is not waiting for a write.
    pub open spec fn tidy(self) -> bool {
        &&& self.pending.len() <= self.capacity
        &&& self.phase != RelayPhase::Writing && self.phase != RelayPhase::Failed
            ==> self.pending.len() == 0
    }

    /// The state after all of `events`.
    pub open spec fn run(self, events: Seq<RelayEvent>) -> RelayView
        decreases events.len(),
    {
        if events.len() == 0 {
            self
        } else {
            self.next(events[0]).0.run(events.drop_first())
        }
    }

    /// The bytes taken in from the source along `events`, in order.
    pub open spec fn taken(self, events: Seq<RelayEvent>) -> Seq<u8>
        decreases events.len(),
    {
        if events.len() == 0 {
            Seq::empty()
        } else {
            let (after, action) = self.next(events[0]);
            let rest = after.taken(events.drop_first());
            match (events[0], action) {
                (RelayEvent::Read(bytes), RelayAction::Write) => bytes@ + rest,
                _ => rest,
            }
        }
    }

    /// The bytes that the sink took along `events`, in order.
    pub open spec fn written(self, events: Seq<RelayEvent>) -> Seq<u8>
        decreases events.len(),
    {
        if events.len() == 0 {
            Seq::empty()
        } else {
            let (after, action) = self.next(events[0]);
            let rest = after.written(events.drop_first());
            match (events[0], action) {
                (RelayEvent::Wrote(n), RelayAction::Write) => self.pending.subrange(0, n as int)
                    + rest,
                (RelayEvent::Wrote(n), RelayAction::Read(_)) => self.pending.subrange(0, n as int)
                    + rest,
                _ => rest,
            }
        }
    }
}

/// The buffer stays bounded: whatever happens, it never holds more than its
/// size, and it is empty whenever the relay is not in the middle of a write.
pub proof fn buffer_stays_bounded(start: RelayView, events: Seq<RelayEvent>)
    requires
        start.tidy(),
    ensures
        start.run(events).tidy(),
        start.run(events).capacity == start.capacity,
    decreases events.len(),
{
    if events.len() > 0 {
        buffer_stays_bounded(start.next(events[0]).0, events.drop_first());
    }
}

/// Nothing is lost, added or reordered: at every moment the bytes written
/// followed by the bytes still buffered are the bytes that were buffered at
/// the start followed by the bytes read since.
pub proof fn bytes_pass_through_unchanged(start: RelayView, events: Seq<RelayEvent>)
    requires
        start.tidy(),
    ensures
        start.written(events) + start.run(events).pending == start.pending + start.taken(events),
    decreases events.len(),
{
    if events.len() == 0 {
        assert(start.written(events) + start.pending =~= start.pending + start.taken(events));
    } else {
        let (after, action) = start.next(events[0]);
        let rest = events.drop_first();
        bytes_pass_through_unchanged(after, rest);
        let end = after.run(rest).pending;
        match (events[0], action) {
            (RelayEvent::Read(bytes), RelayAction::Write) => {
                assert(start.pending =~= Seq::<u8>::empty());
                assert(after.written(rest) + end =~= start.pending + (bytes@ + after.taken(rest)));
            },
            (RelayEvent::Wrote(n), RelayAction::Write) => {
                let head = start.pending.subrange(0, n as int);
                assert(head + after.pending =~= start.pending);
                assert((head + after.written(rest)) + end =~= head + (after.written(rest) + end));
                assert(head + (after.pending + after.taken(rest)) =~= start.pending + after.taken(
                    rest,
                ));
            },
            (RelayEvent::Wrote(n), RelayAction::Read(_)) => {
                let head = start.pending.subrange(0, n as int);
                assert(head =~= start.pending);
                assert((head + after.written(rest)) + end =~= head + (after.written(rest) + end));
                assert(head + (after.pending + after.taken(rest)) =~= start.pending + after.taken(
                    rest,
                ));
            },
            _ => {
                assert(after.pending == start.pending);
            },
        }
    }
}

/// A relay that ends well has written exactly what it read: from a fresh
/// relay, once the flush has succeeded the bytes written are the bytes read,
/// in order, and the amount reported is their number as far as a `u64`
/// counts.
pub proof fn finished_relay_has_echoed_everything(capacity: nat, events: Seq<RelayEvent>)
    requires
        RelayView::fresh(capacity).run(events).phase == RelayPhase::Finished,
    ensures
        RelayView::fresh(capacity).written(events) == RelayView::fresh(capacity).taken(events),
        RelayView::fresh(capacity).run(events).amount == counted(
            0,
            RelayView::fresh(capacity).written(events).len(),
        ),
{
    let start = RelayView::fresh(capacity);
    buffer_stays_bounded(start, events);
    bytes_pass_through_unchanged(start, events);
    amount_counts_written(start, events);
    assert(start.written(events) + Seq::<u8>::empty() =~= start.written(events));
    assert(Seq::<u8>::empty() + start.taken(events) =~= start.taken(events));
    assert(start.run(events).pending =~= Seq::<u8>::empty());
}

/// The amount counts the bytes written, as far as a `u64` counts.
pub proof fn amount_counts_written(start: RelayView, events: Seq<RelayEvent>)
    ensures
        start.run(events).amount == counted(start.amount, start.written(events).len()),
    decreases events.len(),
{
    if events.len() > 0 {
        amount_counts_written(start.next(events[0]).0, events.drop_first());
    }
}

/// An event on one of two connections that are relayed side by side.
pub enum Either {
    Left(RelayEvent),
    Right(RelayEvent),
}

/// The events of the left connection among `events`, in order.
pub open spec fn lefts(events: Seq<Either>) -> Seq<RelayEvent>
    decreases events.len(),
{
    if events.len() == 0 {
        Seq::empty()
    } else {
        let rest = lefts(events.drop_first());
        match events[0] {
            Either::Left(event) => seq![event] + rest,
            Either::Right(_) => rest,
        }
    }
}

/// The events of the right connection among `events`, in order.
pub open spec fn rights(events: Seq<Either>) -> Seq<RelayEvent>
    decreases events.len(),
{
    if events.len() == 0 {
        Seq::empty()
    } else {
        let rest = rights(events.drop_first());
        match events[0] {
            Either::Left(_) => rest,
            Either::Right(event) => seq![event] + rest,
        }
    }
}

/// The states of two relays after all of `events`, each event going to the
/// relay of its connection.
pub open spec fn side_by_side(left: RelayView, right: RelayView, events: Seq<Either>) -> (
    RelayView,
    RelayView,
)
    decreases events.len(),
{
    if events.len() == 0 {
        (left, right)
    } else {
        match events[0] {
            Either::Left(event) => side_by_side(left.next(event).0, right, events.drop_first()),
            Either::Right(event) => side_by_side(left, right.next(event).0, events.drop_first()),
        }
    }
}

/// Connections do not see each other: however the events of two relays are
/// interleaved, each relay ends up where its own events alone take it, so
/// what it has written are its own bytes.
pub proof fn connections_do_not_mix(left: RelayView, right: RelayView, events: Seq<Either>)
    ensures
        side_by_side(left, right, events) == (left.run(lefts(events)), right.run(rights(events))),
    decreases events.len(),
{
    if events.len() > 0 {
        let rest = events.drop_first();
        match events[0] {
            Either::Left(event) => {
                connections_do_not_mix(left.next(event).0, right, rest);
                assert((seq![event] + lefts(rest)).drop_first() =~= lefts(rest));
            },
            Either::Right(event) => {
                connections_do_not_mix(left, right.next(event).0, rest);
                assert((seq![event] + rights(rest)).drop_first() =~= rights(rest));
            },
        }
    }
}

} // verus!
