//! Bridge mode: the relay dials both endpoints itself, relays one session at a
//! time, and after a failed dial backs off for a fixed time and dials both
//! again from scratch. It never stops on its own.
use vstd::prelude::*;
use crate::endpoint::{check_distinct, ConfigError, Endpoint};
use crate::forward::BRIDGE_CHUNK_SIZE;

verus! {

/// Seconds to wait after a failed dial before dialing again.
pub const BACKOFF_SECS: u64 = 5;

#[derive(Debug, Clone, Copy, PartialEq, Eq, Structural)]
pub enum BridgeState {
    /// Not started yet.
    Idle,
    /// Waiting for the outcome of dialing both endpoints.
    Dialing,
    /// Waiting for the backoff after a failed dial to elapse.
    Backoff,
    /// Both ends are connected and a session runs.
    Relaying,
}

#[derive(Debug, Clone, Copy, PartialEq, Eq, Structural)]
pub enum BridgeEvent {
    /// The outcome of dialing the first and the second endpoint.
    Dialed { first_ok: bool, second_ok: bool },
    BackoffElapsed,
    /// The session ended, whether it succeeded or failed.
    SessionEnded,
}

#[derive(Debug, Clone, Copy, PartialEq, Eq, Structural)]
pub enum BridgeAction {
    /// Dial both endpoints.
    DialBoth,
    /// Close whatever side did connect, then sleep this many seconds.
    Backoff { secs: u64 },
    /// Relay a session over both connections, in chunks of this size, and
    /// report when it ends.
    Relay { chunk_size: usize },
    /// The event did not fit the state: nothing to do.
    Idle,
}

pub open spec fn bridge_next(s: BridgeState, ev: BridgeEvent) -> BridgeState {
    match (s, ev) {
        (BridgeState::Dialing, BridgeEvent::Dialed { first_ok, second_ok }) => if first_ok
            && second_ok {
            BridgeState::Relaying
        } else {
            BridgeState::Backoff
        },
        (BridgeState::Backoff, BridgeEvent::BackoffElapsed) => BridgeState::Dialing,
        (BridgeState::Relaying, BridgeEvent::SessionEnded) => BridgeState::Dialing,
        _ => s,
    }
}

/// The action that goes with entering state `n` from state `s`.
pub open spec fn bridge_action(s: BridgeState, n: BridgeState) -> BridgeAction {
    if s == n {
        BridgeAction::Idle
    } else {
        match n {
            BridgeState::Dialing => BridgeAction::DialBoth,
            BridgeState::Backoff => BridgeAction::Backoff { secs: BACKOFF_SECS },
            BridgeState::Relaying => BridgeAction::Relay { chunk_size: BRIDGE_CHUNK_SIZE },
            BridgeState::Idle => BridgeAction::Idle,
        }
    }
}

/// The state after each event in turn.
pub open spec fn bridge_run(s: BridgeState, evs: Seq<BridgeEvent>) -> BridgeState
    decreases evs.len(),
{
    if evs.len() == 0 {
        s
    } else {
        bridge_run(bridge_next(s, evs[0]), evs.drop_first())
    }
}

/// Rounds of failed dials, each followed by its backoff.
pub open spec fn failed_rounds(fails: Seq<(bool, bool)>) -> Seq<BridgeEvent>
    decreases fails.len(),
{
    if fails.len() == 0 {
        Seq::empty()
    } else {
        seq![
            BridgeEvent::Dialed { first_ok: fails[0].0, second_ok: fails[0].1 },
            BridgeEvent::BackoffElapsed,
        ] + failed_rounds(fails.drop_first())
    }
}

pub struct BridgeLoop {
    first: Endpoint,
    second: Endpoint,
    state: BridgeState,
}

impl BridgeLoop {
    pub closed spec fn first_spec(&self) -> Endpoint {
        self.first
    }

    pub closed spec fn second_spec(&self) -> Endpoint {
        self.second
    }

    pub closed spec fn state_spec(&self) -> BridgeState {
        self.state
    }

    /// A loop between two endpoints, refused when they are the same address.
    pub fn new(first: Endpoint, second: Endpoint) -> (r: Result<BridgeLoop, ConfigError>)
        ensures
            r is Err <==> first == second,
            r is Err ==> r->Err_0 == ConfigError::SameEndpoint,
            r is Ok ==> r->Ok_0.first_spec() == first && r->Ok_0.second_spec() == second
                && r->Ok_0.state_spec() == BridgeState::Idle,
    {
        match check_distinct(first, second) {
            Ok(()) => Ok(BridgeLoop { first, second, state: BridgeState::Idle }),
            Err(e) => Err(e),
        }
    }

    pub fn first(&self) -> (r: Endpoint)
        ensures
            r == self.first_spec(),
    {
        self.first
    }

    pub fn second(&self) -> (r: Endpoint)
        ensures
            r == self.second_spec(),
    {
        self.second
    }

    pub fn state(&self) -> (r: BridgeState)
        ensures
            r == self.state_spec(),
    {
        self.state
    }

    /// Leaves the idle state to dial both endpoints.
    pub fn start(&mut self) -> (r: BridgeAction)
        ensures
            final(self).first_spec() == old(self).first_spec(),
            final(self).second_spec() == old(self).second_spec(),
            old(self).state_spec() == BridgeState::Idle ==> final(self).state_spec()
                == BridgeState::Dialing && r == BridgeAction::DialBoth,
            old(self).state_spec() != BridgeState::Idle ==> final(self).state_spec() == old(
                self,
            ).state_spec() && r == BridgeAction::Idle,
    {
        if self.state == BridgeState::Idle {
            self.state = BridgeState::Dialing;
            BridgeAction::DialBoth
        } else {
            BridgeAction::Idle
        }
    }

    /// Takes one event and returns what to do next: relay when both dials
    /// succeed, back off when either fails, dial again when the backoff
    /// elapses or the session ends.
    pub fn on_event(&mut self, ev: BridgeEvent) -> (r: BridgeAction)
        ensures
            final(self).first_spec() == old(self).first_spec(),
            final(self).second_spec() == old(self).second_spec(),
            final(self).state_spec() == bridge_next(old(self).state_spec(), ev),
            r == bridge_action(old(self).state_spec(), final(self).state_spec()),
    {
        let next = match (self.state, ev) {
            (BridgeState::Dialing, BridgeEvent::Dialed { first_ok, second_ok }) => {
                if first_ok && second_ok {
                    BridgeState::Relaying
                } else {
                    BridgeState::Backoff
                }
            },
            (BridgeState::Backoff, BridgeEvent::BackoffElapsed) => BridgeState::Dialing,
            (BridgeState::Relaying, BridgeEvent::SessionEnded) => BridgeState::Dialing,
            _ => self.state,
        };
        let action = if next == self.state {
            BridgeAction::Idle
        } else {
            match next {
                BridgeState::Dialing => BridgeAction::DialBoth,
                BridgeState::Backoff => BridgeAction::Backoff { secs: BACKOFF_SECS },
                BridgeState::Relaying => BridgeAction::Relay { chunk_size: BRIDGE_CHUNK_SIZE },
                BridgeState::Idle => BridgeAction::Idle,
            }
        };
        self.state = next;
        action
    }
}

proof fn lemma_failed_rounds_return(fails: Seq<(bool, bool)>, tail: Seq<BridgeEvent>)
    requires
        forall|i: int| 0 <= i < fails.len() ==> !(fails[i].0 && fails[i].1),
    ensures
        bridge_run(BridgeState::Dialing, failed_rounds(fails) + tail) == bridge_run(
            BridgeState::Dialing,
            tail,
        ),
    decreases fails.len(),
{
    if fails.len() > 0 {
        let rest = fails.drop_first();
        assert forall|i: int| 0 <= i < rest.len() implies !(rest[i].0 && rest[i].1) by {
            assert(rest[i] == fails[i + 1]);
        }
        lemma_failed_rounds_return(rest, tail);
        let evs = failed_rounds(fails) + tail;
        let dialed = BridgeEvent::Dialed { first_ok: fails[0].0, second_ok: fails[0].1 };
        assert(evs[0] == dialed);
        assert(bridge_next(BridgeState::Dialing, dialed) == BridgeState::Backoff);
        assert(evs.drop_first()[0] == BridgeEvent::BackoffElapsed);
        assert(evs.drop_first().drop_first() =~= failed_rounds(rest) + tail);
        assert(bridge_run(BridgeState::Dialing, evs) == bridge_run(
            BridgeState::Backoff,
            evs.drop_first(),
        ));
        assert(bridge_run(BridgeState::Backoff, evs.drop_first()) == bridge_run(
            BridgeState::Dialing,
            evs.drop_first().drop_first(),
        ));
    } else {
        assert(failed_rounds(fails) + tail =~= tail);
    }
}

/// However many dial rounds fail, each followed by its backoff, once both
/// endpoints answer a dial the loop is relaying a session; and after every
/// failed round it is dialing again, never stopped.
pub proof fn lemma_retry_converges(fails: Seq<(bool, bool)>)
    requires
        forall|i: int| 0 <= i < fails.len() ==> !(fails[i].0 && fails[i].1),
    ensures
        bridge_run(BridgeState::Dialing, failed_rounds(fails)) == BridgeState::Dialing,
        bridge_run(
            BridgeState::Dialing,
            failed_rounds(fails) + seq![BridgeEvent::Dialed { first_ok: true, second_ok: true }],
        ) == BridgeState::Relaying,
{
    lemma_failed_rounds_return(fails, Seq::empty());
    assert(failed_rounds(fails) + Seq::<BridgeEvent>::empty() =~= failed_rounds(fails));
    let last = seq![BridgeEvent::Dialed { first_ok: true, second_ok: true }];
    lemma_failed_rounds_return(fails, last);
    assert(last.drop_first() =~= Seq::<BridgeEvent>::empty());
    assert(bridge_run(BridgeState::Dialing, last) == bridge_run(
        BridgeState::Relaying,
        last.drop_first(),
    ));
}

} // verus!
