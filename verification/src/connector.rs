//! The connector: dials the peer port until a connection is made, runs the
//! initiator handshake exactly once on it, and then stops for good — a failed
//! handshake is reported but never retried.

use vstd::prelude::*;
use crate::config::RETRY_WAIT_SECS;

verus! {

/// Where the connector stands: still dialing, running its one handshake, or
/// finished for good.
#[derive(Clone, Copy, PartialEq, Eq, Structural, Debug)]
pub enum ConnectorState {
    Dialing,
    Handshaking,
    Finished,
}

/// What the connector asks its driver to do next.
#[derive(Clone, Copy, PartialEq, Eq, Structural, Debug)]
pub enum ConnectorAction {
    /// Wait the given number of seconds, then attempt the connection again.
    WaitAndRetry(u64),
    /// A connection is open: run the initiator handshake on it.
    RunHandshake,
    /// Stop for good; no further connection attempts.
    Stop,
}

/// How the connector state moves on the outcome of one connection attempt.
pub open spec fn spec_on_dial(s: ConnectorState, connected: bool) -> ConnectorState {
    match s {
        ConnectorState::Dialing => if connected {
            ConnectorState::Handshaking
        } else {
            ConnectorState::Dialing
        },
        _ => s,
    }
}

/// The action one connection attempt's outcome prescribes: run the handshake
/// on success, wait the full retry interval on failure.
pub open spec fn spec_dial_action(connected: bool) -> ConnectorAction {
    if connected {
        ConnectorAction::RunHandshake
    } else {
        ConnectorAction::WaitAndRetry(RETRY_WAIT_SECS)
    }
}

/// The connector's state machine; its driver performs the prescribed actions
/// and feeds the outcomes back.
#[derive(Clone, Copy, PartialEq, Eq, Structural, Debug)]
pub struct Connector {
    pub state: ConnectorState,
}

impl Connector {
    /// A fresh connector, about to make its first connection attempt.
    pub fn new() -> (c: Connector)
        ensures
            c.state is Dialing,
    {
        Connector { state: ConnectorState::Dialing }
    }

    /// Records the outcome of one connection attempt: a refused or failed
    /// attempt keeps dialing after the full retry wait, a successful one
    /// moves on to the single handshake run.
    pub fn on_dial_result(&mut self, connected: bool) -> (a: ConnectorAction)
        requires
            old(self).state is Dialing,
        ensures
            final(self).state == spec_on_dial(old(self).state, connected),
            a == spec_dial_action(connected),
            connected ==> final(self).state is Handshaking && a is RunHandshake,
            !connected ==> final(self).state is Dialing && a == ConnectorAction::WaitAndRetry(
                RETRY_WAIT_SECS,
            ),
    {
        if connected {
            self.state = ConnectorState::Handshaking;
            ConnectorAction::RunHandshake
        } else {
            ConnectorAction::WaitAndRetry(RETRY_WAIT_SECS)
        }
    }

    /// Records that the one handshake attempt returned. The connector stops
    /// for good whether the handshake succeeded or failed: an error is
    /// reported by the driver but never triggers a reconnection.
    pub fn on_handshake_returned(&mut self, _handshake_ok: bool) -> (a: ConnectorAction)
        requires
            old(self).state is Handshaking,
        ensures
            final(self).state is Finished,
            a is Stop,
    {
        self.state = ConnectorState::Finished;
        ConnectorAction::Stop
    }

    /// Whether the connector is still making connection attempts.
    pub fn is_dialing(&self) -> (b: bool)
        ensures
            b == (self.state is Dialing),
    {
        self.state == ConnectorState::Dialing
    }
}

/// The notice printed each time a connection attempt finds no peer yet.
pub fn waiting_notice() -> (s: &'static str)
    ensures
        s@ == "Waiting for remote"@,
{
    "Waiting for remote"
}

/// The connector state after `n` consecutive failed connection attempts.
pub open spec fn after_failed_dials(n: int) -> ConnectorState
    decreases n,
{
    if n <= 0 {
        ConnectorState::Dialing
    } else {
        spec_on_dial(after_failed_dials(n - 1), false)
    }
}

/// However many consecutive connection attempts fail, the connector is still
/// dialing — it never gives up — and every failure prescribes waiting the
/// full retry interval before the next attempt, so attempts are never closer
/// together than that interval.
pub proof fn lemma_retries_indefinitely(n: int)
    requires
        n >= 0,
    ensures
        after_failed_dials(n) is Dialing,
        spec_dial_action(false) == ConnectorAction::WaitAndRetry(RETRY_WAIT_SECS),
    decreases n,
{
    if n > 0 {
        lemma_retries_indefinitely(n - 1);
    }
}

} // verus!
