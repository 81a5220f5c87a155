//! A session pairs two directions over one inbound and one outbound connection.
//! Each direction runs on its own; the session succeeds only if both do.
use vstd::prelude::*;
use crate::forward::{
    after_read, after_write, initial_view, Direction, Failure, Forwarder, ForwarderView, Phase,
    ReadEvent,
};

verus! {

/// A failed direction, and the step at which it failed.
#[derive(Debug, Clone, Copy, PartialEq, Eq, Structural)]
pub struct DirectionFailure {
    pub direction: Direction,
    pub failure: Failure,
}

/// The two directions of a fresh session: inbound to outbound, then outbound
/// to inbound.
pub fn session_forwarders(chunk_size: usize) -> (r: (Forwarder, Forwarder))
    requires
        chunk_size > 0,
    ensures
        r.0@ == initial_view(Direction::InboundToOutbound, chunk_size as nat),
        r.1@ == initial_view(Direction::OutboundToInbound, chunk_size as nat),
{
    (
        Forwarder::new(Direction::InboundToOutbound, chunk_size),
        Forwarder::new(Direction::OutboundToInbound, chunk_size),
    )
}

/// The result of a session from the results of its two directions: the
/// failure of the inbound-to-outbound direction if it failed, else that of
/// the other direction, else success.
pub open spec fn combined(first: Result<(), Failure>, second: Result<(), Failure>) -> Result<
    (),
    DirectionFailure,
> {
    match first {
        Err(f) => Err(DirectionFailure { direction: Direction::InboundToOutbound, failure: f }),
        Ok(()) => match second {
            Err(f) => Err(DirectionFailure { direction: Direction::OutboundToInbound, failure: f }),
            Ok(()) => Ok(()),
        },
    }
}

/// The result of a terminal phase.
pub open spec fn phase_result(p: Phase) -> Result<(), Failure> {
    match p {
        Phase::Failed(f) => Err(f),
        _ => Ok(()),
    }
}

/// Joins the results of the two directions once both have ended.
pub fn session_outcome(first: Result<(), Failure>, second: Result<(), Failure>) -> (r: Result<
    (),
    DirectionFailure,
>)
    ensures
        r == combined(first, second),
        r is Ok <==> (first is Ok && second is Ok),
{
    match first {
        Err(f) => Err(DirectionFailure { direction: Direction::InboundToOutbound, failure: f }),
        Ok(()) => match second {
            Err(f) => Err(DirectionFailure { direction: Direction::OutboundToInbound, failure: f }),
            Ok(()) => Ok(()),
        },
    }
}

/// A read error on one direction fails that direction alone: the other
/// direction, unchanged by it, still delivers the chunk it has in flight and
/// can then finish on end-of-stream, and the session reports the failure of
/// the first.
pub proof fn lemma_independent_failure(failing: ForwarderView, other: ForwarderView)
    requires
        failing.phase == Phase::Reading,
        failing.direction == Direction::InboundToOutbound,
        other.phase == Phase::Writing,
    ensures
        after_read(failing, ReadEvent::Error).phase == Phase::Failed(Failure::Read),
        ({
            let delivered = after_write(other, true);
            let ended = after_read(delivered, ReadEvent::Data(Seq::empty()));
            &&& delivered.delivered == other.delivered + other.pending
            &&& ended.phase == Phase::Finished
            &&& ended.delivered == other.delivered + other.pending
        }),
        combined(
            phase_result(after_read(failing, ReadEvent::Error).phase),
            phase_result(Phase::Finished),
        ) == Err::<(), DirectionFailure>(
            DirectionFailure { direction: Direction::InboundToOutbound, failure: Failure::Read },
        ),
{
}

} // verus!
