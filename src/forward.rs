//! One direction of a session as a state machine. The caller reads from the
//! source, hands the outcome in, and performs the action that comes back; the
//! machine decides, and keeps ghost track of every byte read and delivered.
use vstd::prelude::*;
use crate::chunk::{
    classify, hex_dump, label_of, render_ascii, render_hex, shown_byte, valid_utf8,
    Classification,
};

verus! {

/// Chunk size of the listen-mode relay.
pub const LISTEN_CHUNK_SIZE: usize = 8192;

/// Chunk size of the bridge-mode relay.
pub const BRIDGE_CHUNK_SIZE: usize = 1024;

/// Which way the bytes flow.
#[derive(Debug, Clone, Copy, PartialEq, Eq, Structural)]
pub enum Direction {
    InboundToOutbound,
    OutboundToInbound,
}

/// The step at which a direction failed.
#[derive(Debug, Clone, Copy, PartialEq, Eq, Structural)]
pub enum Failure {
    Read,
    Write,
}

/// Where a direction stands.
#[derive(Debug, Clone, Copy, PartialEq, Eq, Structural)]
pub enum Phase {
    /// Waiting for the outcome of a read.
    Reading,
    /// Waiting for the outcome of a write of the chunk last read.
    Writing,
    /// The source reached end-of-stream.
    Finished,
    Failed(Failure),
}

/// What one read of the source gave.
pub enum ReadOutcome {
    /// The bytes read; none at all means end-of-stream.
    Data(Vec<u8>),
    Error,
}

/// The model of a read outcome.
pub enum ReadEvent {
    Data(Seq<u8>),
    Error,
}

impl ReadOutcome {
    pub open spec fn view(&self) -> ReadEvent {
        match self {
            ReadOutcome::Data(d) => ReadEvent::Data(d@),
            ReadOutcome::Error => ReadEvent::Error,
        }
    }
}

/// What the relay logs of a chunk before it writes it on.
pub struct ChunkReport {
    pub byte_count: usize,
    pub hex: Vec<u8>,
    pub rendering: Vec<u8>,
    pub classification: Classification,
}

/// What the caller is to do next.
pub enum Action {
    /// Read up to `max` bytes from the source.
    Read { max: usize },
    /// Log the report, then write all of `chunk` to the destination and flush.
    Write { chunk: Vec<u8>, report: ChunkReport },
    /// The direction is over, with this result.
    Finish(Result<(), Failure>),
    /// The event did not fit the phase: nothing to do.
    Idle,
}

/// The model of a forwarder.
pub struct ForwarderView {
    pub direction: Direction,
    pub chunk_size: nat,
    pub phase: Phase,
    /// Every byte read from the source, in order.
    pub received: Seq<u8>,
    /// Every byte whose write to the destination completed, in order.
    pub delivered: Seq<u8>,
    /// The chunk whose write is awaited.
    pub pending: Seq<u8>,
}

impl ForwarderView {
    /// What was read is what was delivered, followed by the chunk whose write is
    /// awaited or was cut short; nothing is pending while a read is awaited or
    /// after end-of-stream.
    pub open spec fn consistent(self) -> bool {
        &&& self.chunk_size > 0
        &&& self.received == self.delivered + self.pending
        &&& (self.phase == Phase::Writing ==> self.pending.len() > 0)
        &&& ((self.phase == Phase::Reading || self.phase == Phase::Finished || self.phase
            == Phase::Failed(Failure::Read)) ==> self.pending.len() == 0)
    }
}

pub open spec fn initial_view(direction: Direction, chunk_size: nat) -> ForwarderView {
    ForwarderView {
        direction,
        chunk_size,
        phase: Phase::Reading,
        received: Seq::empty(),
        delivered: Seq::empty(),
        pending: Seq::empty(),
    }
}

/// The model after a read outcome.
pub open spec fn after_read(v: ForwarderView, ev: ReadEvent) -> ForwarderView {
    if v.phase != Phase::Reading {
        v
    } else {
        match ev {
            ReadEvent::Data(d) => if d.len() == 0 {
                ForwarderView { phase: Phase::Finished, ..v }
            } else {
                ForwarderView { phase: Phase::Writing, received: v.received + d, pending: d, ..v }
            },
            ReadEvent::Error => ForwarderView { phase: Phase::Failed(Failure::Read), ..v },
        }
    }
}

/// The model after a write outcome.
pub open spec fn after_write(v: ForwarderView, ok: bool) -> ForwarderView {
    if v.phase != Phase::Writing {
        v
    } else if ok {
        ForwarderView {
            phase: Phase::Reading,
            delivered: v.delivered + v.pending,
            pending: Seq::empty(),
            ..v
        }
    } else {
        ForwarderView { phase: Phase::Failed(Failure::Write), ..v }
    }
}

/// Whether `a` is the action that goes with the model `v` reached by a step:
/// the next read, the write of the pending chunk with its report, or the end.
pub open spec fn action_matches(a: Action, v: ForwarderView) -> bool {
    match v.phase {
        Phase::Reading => a == Action::Read { max: v.chunk_size as usize },
        Phase::Writing => match a {
            Action::Write { chunk, report } => chunk@ == v.pending
                && report.byte_count == v.pending.len()
                && report.hex@ == hex_dump(v.pending)
                && report.rendering@ == v.pending.map_values(|b: u8| shown_byte(b))
                && report.classification@ == label_of(v.pending, valid_utf8(v.pending)),
            _ => false,
        },
        Phase::Finished => a == Action::Finish(Ok(())),
        Phase::Failed(f) => a == Action::Finish(Err(f)),
    }
}

/// The model after each chunk in turn is read and then written successfully.
pub open spec fn relay_chunks(v: ForwarderView, chunks: Seq<Seq<u8>>) -> ForwarderView
    decreases chunks.len(),
{
    if chunks.len() == 0 {
        v
    } else {
        relay_chunks(
            after_write(after_read(v, ReadEvent::Data(chunks[0])), true),
            chunks.drop_first(),
        )
    }
}

proof fn lemma_relay_chunks(v: ForwarderView, chunks: Seq<Seq<u8>>)
    requires
        v.phase == Phase::Reading,
        v.delivered == v.received,
        forall|i: int| 0 <= i < chunks.len() ==> chunks[i].len() > 0,
    ensures
        relay_chunks(v, chunks).phase == Phase::Reading,
        relay_chunks(v, chunks).delivered == v.delivered + chunks.flatten(),
        relay_chunks(v, chunks).received == relay_chunks(v, chunks).delivered,
    decreases chunks.len(),
{
    if chunks.len() > 0 {
        let w = after_write(after_read(v, ReadEvent::Data(chunks[0])), true);
        let rest = chunks.drop_first();
        assert forall|i: int| 0 <= i < rest.len() implies rest[i].len() > 0 by {
            assert(rest[i] == chunks[i + 1]);
        }
        lemma_relay_chunks(w, rest);
        assert(chunks.flatten() == chunks[0] + rest.flatten());
        assert(v.delivered + chunks.flatten() =~= w.delivered + rest.flatten());
    }
}

/// Whatever non-empty chunks a direction reads from its source, once each has
/// been written and the source then reports end-of-stream, the direction has
/// finished successfully and has delivered exactly the bytes it read: the
/// chunks joined in order, nothing lost, reordered or repeated.
pub proof fn lemma_byte_fidelity(direction: Direction, chunk_size: nat, chunks: Seq<Seq<u8>>)
    requires
        forall|i: int| 0 <= i < chunks.len() ==> chunks[i].len() > 0,
    ensures
        ({
            let end = after_read(
                relay_chunks(initial_view(direction, chunk_size), chunks),
                ReadEvent::Data(Seq::empty()),
            );
            &&& end.phase == Phase::Finished
            &&& end.delivered == chunks.flatten()
            &&& end.received == chunks.flatten()
        }),
{
    let v = initial_view(direction, chunk_size);
    lemma_relay_chunks(v, chunks);
    assert(v.delivered + chunks.flatten() =~= chunks.flatten());
}

/// A direction whose source reports end-of-stream finishes successfully with
/// what it had delivered, and from then on no read or write outcome changes it.
pub proof fn lemma_end_of_stream_is_final(v: ForwarderView, later: ReadEvent, ok: bool)
    requires
        v.phase == Phase::Reading,
    ensures
        ({
            let f = after_read(v, ReadEvent::Data(Seq::empty()));
            &&& f.phase == Phase::Finished
            &&& f.delivered == v.delivered
            &&& f.received == v.received
            &&& after_read(f, later) == f
            &&& after_write(f, ok) == f
        }),
{
}

pub struct Forwarder {
    direction: Direction,
    chunk_size: usize,
    phase: Phase,
    received: Ghost<Seq<u8>>,
    delivered: Ghost<Seq<u8>>,
    pending: Ghost<Seq<u8>>,
}

impl Forwarder {
    #[verifier::type_invariant]
    closed spec fn inv(&self) -> bool {
        self@.consistent()
    }

    pub closed spec fn view(&self) -> ForwarderView {
        ForwarderView {
            direction: self.direction,
            chunk_size: self.chunk_size as nat,
            phase: self.phase,
            received: self.received@,
            delivered: self.delivered@,
            pending: self.pending@,
        }
    }

    /// A direction that has not read yet.
    pub fn new(direction: Direction, chunk_size: usize) -> (r: Forwarder)
        requires
            chunk_size > 0,
        ensures
            r@ == initial_view(direction, chunk_size as nat),
            r@.consistent(),
    {
        proof {
            assert(Seq::<u8>::empty() + Seq::<u8>::empty() =~= Seq::<u8>::empty());
        }
        Forwarder {
            direction,
            chunk_size,
            phase: Phase::Reading,
            received: Ghost(Seq::empty()),
            delivered: Ghost(Seq::empty()),
            pending: Ghost(Seq::empty()),
        }
    }

    pub fn direction(&self) -> (r: Direction)
        ensures
            r == self@.direction,
            self@.consistent(),
    {
        proof {
            use_type_invariant(self);
        }
        self.direction
    }

    pub fn phase(&self) -> (r: Phase)
        ensures
            r == self@.phase,
    {
        self.phase
    }

    /// The first action: read a chunk.
    pub fn first_action(&self) -> (r: Action)
        requires
            self@.phase == Phase::Reading,
        ensures
            r == (Action::Read { max: self@.chunk_size as usize }),
    {
        Action::Read { max: self.chunk_size }
    }

    /// Takes the outcome of a read. A chunk is handed on for writing with its
    /// report; end-of-stream finishes the direction successfully and a read
    /// error fails it. Outside the reading phase nothing changes.
    pub fn on_read(&mut self, outcome: ReadOutcome) -> (r: Action)
        ensures
            final(self)@ == after_read(old(self)@, outcome@),
            old(self)@.phase == Phase::Reading ==> action_matches(r, final(self)@),
            old(self)@.phase != Phase::Reading ==> r == Action::Idle,
            final(self)@.consistent(),
    {
        proof {
            use_type_invariant(&*self);
        }
        if self.phase != Phase::Reading {
            return Action::Idle;
        }
        match outcome {
            ReadOutcome::Data(chunk) => {
                if chunk.len() == 0 {
                    self.phase = Phase::Finished;
                    Action::Finish(Ok(()))
                } else {
                    let ghost received = self.received@ + chunk@;
                    proof {
                        assert(self.pending@ =~= Seq::<u8>::empty());
                        assert(received =~= self.delivered@ + chunk@);
                    }
                    *self = Forwarder {
                        direction: self.direction,
                        chunk_size: self.chunk_size,
                        phase: Phase::Writing,
                        received: Ghost(received),
                        delivered: Ghost(self.delivered@),
                        pending: Ghost(chunk@),
                    };
                    let report = ChunkReport {
                        byte_count: chunk.len(),
                        hex: render_hex(chunk.as_slice()),
                        rendering: render_ascii(chunk.as_slice()),
                        classification: classify(chunk.as_slice()),
                    };
                    Action::Write { chunk, report }
                }
            },
            ReadOutcome::Error => {
                self.phase = Phase::Failed(Failure::Read);
                Action::Finish(Err(Failure::Read))
            },
        }
    }

    /// Takes the outcome of writing and flushing the pending chunk. Success
    /// delivers it and asks for the next read; any failure, a short write
    /// included, fails the direction. Outside the writing phase nothing changes.
    pub fn on_write(&mut self, ok: bool) -> (r: Action)
        ensures
            final(self)@ == after_write(old(self)@, ok),
            old(self)@.phase == Phase::Writing ==> action_matches(r, final(self)@),
            old(self)@.phase != Phase::Writing ==> r == Action::Idle,
            final(self)@.consistent(),
    {
        proof {
            use_type_invariant(&*self);
        }
        if self.phase != Phase::Writing {
            return Action::Idle;
        }
        if ok {
            proof {
                assert(self.received@ =~= (self.delivered@ + self.pending@) + Seq::<u8>::empty());
            }
            *self = Forwarder {
                direction: self.direction,
                chunk_size: self.chunk_size,
                phase: Phase::Reading,
                received: Ghost(self.received@),
                delivered: Ghost(self.delivered@ + self.pending@),
                pending: Ghost(Seq::empty()),
            };
            Action::Read { max: self.chunk_size }
        } else {
            self.phase = Phase::Failed(Failure::Write);
            Action::Finish(Err(Failure::Write))
        }
    }
}

} // verus!
