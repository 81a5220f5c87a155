//! Listen mode: accept inbound connections and pair each with a fresh
//! connection to the target. The proxy holds no state that a session can
//! change, so sessions cannot disturb one another.
use vstd::prelude::*;
use crate::endpoint::{check_distinct, ConfigError, Endpoint};
use crate::forward::{initial_view, Direction, Forwarder, LISTEN_CHUNK_SIZE};
use crate::session::session_forwarders;

verus! {

/// Seconds that a connection to the target may take to open.
pub const CONNECT_TIMEOUT_SECS: u64 = 5;

pub struct ServiceProxy {
    listen_addr: Endpoint,
    target_addr: Endpoint,
}

/// What the accept loop does with the outcome of one accept.
#[derive(Debug, Clone, Copy, PartialEq, Eq, Structural)]
pub enum ListenAction {
    /// Hand the inbound connection to a session of its own, which connects to
    /// `target` within the timeout, and accept the next connection at once.
    StartSession { target: Endpoint, connect_timeout_secs: u64 },
    /// Log the accept error and accept the next connection.
    LogAndContinue,
}

/// What a session does once its connection to the target is settled.
pub enum SessionStart {
    /// Relay through these two directions, inbound to outbound first.
    Relay(Forwarder, Forwarder),
    /// Log the connect failure and drop the inbound connection.
    Drop,
}

pub open spec fn accept_decision(target: Endpoint, accepted: bool) -> ListenAction {
    if accepted {
        ListenAction::StartSession { target, connect_timeout_secs: CONNECT_TIMEOUT_SECS }
    } else {
        ListenAction::LogAndContinue
    }
}

/// Whether `s` is what a session does after the connect outcome `connected`.
pub open spec fn is_session_start(s: SessionStart, connected: bool) -> bool {
    if connected {
        match s {
            SessionStart::Relay(a, b) => a@ == initial_view(
                Direction::InboundToOutbound,
                LISTEN_CHUNK_SIZE as nat,
            ) && b@ == initial_view(Direction::OutboundToInbound, LISTEN_CHUNK_SIZE as nat),
            SessionStart::Drop => false,
        }
    } else {
        s is Drop
    }
}

impl ServiceProxy {
    pub closed spec fn listen_spec(&self) -> Endpoint {
        self.listen_addr
    }

    pub closed spec fn target_spec(&self) -> Endpoint {
        self.target_addr
    }

    /// A proxy from `listen_addr` to `target_addr`, refused when the two are
    /// the same address.
    pub fn new(listen_addr: Endpoint, target_addr: Endpoint) -> (r: Result<
        ServiceProxy,
        ConfigError,
    >)
        ensures
            r is Err <==> listen_addr == target_addr,
            r is Err ==> r->Err_0 == ConfigError::SameEndpoint,
            r is Ok ==> r->Ok_0.listen_spec() == listen_addr && r->Ok_0.target_spec()
                == target_addr,
    {
        match check_distinct(listen_addr, target_addr) {
            Ok(()) => Ok(ServiceProxy { listen_addr, target_addr }),
            Err(e) => Err(e),
        }
    }

    pub fn listen_addr(&self) -> (r: Endpoint)
        ensures
            r == self.listen_spec(),
    {
        self.listen_addr
    }

    pub fn target_addr(&self) -> (r: Endpoint)
        ensures
            r == self.target_spec(),
    {
        self.target_addr
    }

    /// Decides on the outcome of one accept: a session for an accepted
    /// connection, a logged error otherwise; either way the loop goes on.
    pub fn on_accept(&self, accepted: bool) -> (r: ListenAction)
        ensures
            r == accept_decision(self.target_spec(), accepted),
    {
        if accepted {
            ListenAction::StartSession {
                target: self.target_addr,
                connect_timeout_secs: CONNECT_TIMEOUT_SECS,
            }
        } else {
            ListenAction::LogAndContinue
        }
    }
}

/// Decides on the outcome of a session's connect to the target: relay on
/// success, drop the inbound connection on failure, with no retry.
pub fn on_target_connect(connected: bool) -> (r: SessionStart)
    ensures
        is_session_start(r, connected),
{
    if connected {
        let (a, b) = session_forwarders(LISTEN_CHUNK_SIZE);
        SessionStart::Relay(a, b)
    } else {
        SessionStart::Drop
    }
}

/// A failed connect to the target drops only its own session: the proxy, which
/// no session can change, still starts a session for the next accepted
/// connection, and that session relays once its own connect succeeds.
pub proof fn lemma_listen_isolation(proxy: ServiceProxy, a: SessionStart, b: SessionStart)
    requires
        is_session_start(a, false),
        is_session_start(b, true),
    ensures
        a is Drop,
        accept_decision(proxy.target_spec(), true) == (ListenAction::StartSession {
            target: proxy.target_spec(),
            connect_timeout_secs: CONNECT_TIMEOUT_SECS,
        }),
        b is Relay,
{
}

} // verus!
